//! Character-level rules on names and versions: blankness and the order in
//! which text is compared.

use vstd::prelude::*;

verus! {

/// The Unicode `White_Space` property: the characters that `char::is_whitespace`
/// accepts and that `str::trim` strips.
pub open spec fn is_white_space(c: char) -> bool {
    let v: u32 = c as u32;
    ||| 0x9 <= v <= 0xd
    ||| v == 0x20
    ||| v == 0x85
    ||| v == 0xa0
    ||| v == 0x1680
    ||| 0x2000 <= v <= 0x200a
    ||| v == 0x2028
    ||| v == 0x2029
    ||| v == 0x202f
    ||| v == 0x205f
    ||| v == 0x3000
}

/// A text is blank when trimming it leaves nothing: every character is white space.
pub open spec fn is_blank_text(s: Seq<char>) -> bool {
    forall|i: int| 0 <= i < s.len() ==> is_white_space(#[trigger] s[i])
}

/// Whether `c` has the Unicode `White_Space` property.
pub fn is_white_space_char(c: char) -> (b: bool)
    ensures
        b == is_white_space(c),
{
    let v: u32 = c as u32;
    (0x9 <= v && v <= 0xd) || v == 0x20 || v == 0x85 || v == 0xa0 || v == 0x1680 || (0x2000 <= v
        && v <= 0x200a) || v == 0x2028 || v == 0x2029 || v == 0x202f || v == 0x205f || v == 0x3000
}

/// Blankness is exactly "every character is white space": a text holding one
/// character that is not white space is never blank, wherever that character
/// stands, and a text of white space alone (or no text at all) always is.
pub proof fn lemma_blank_iff_all_white_space(s: Seq<char>)
    ensures
        is_blank_text(s) <==> (forall|i: int| 0 <= i < s.len() ==> is_white_space(#[trigger] s[i])),
        !is_blank_text(s) <==> (exists|i: int| 0 <= i < s.len() && !is_white_space(#[trigger] s[i])),
{
}

/// A text with a character that is not white space, at any position, is not blank.
pub proof fn lemma_visible_char_not_blank(s: Seq<char>, k: int)
    requires
        0 <= k < s.len(),
        !is_white_space(s[k]),
    ensures
        !is_blank_text(s),
{
}

/// Whether `s.trim()` would be empty: whether every character of `s` is white space.
pub fn is_blank(s: &str) -> (b: bool)
    ensures
        b == is_blank_text(s@),
        b <==> (forall|i: int| 0 <= i < s@.len() ==> is_white_space(#[trigger] s@[i])),
        !b <==> (exists|i: int| 0 <= i < s@.len() && !is_white_space(#[trigger] s@[i])),
{
    let mut blank = true;
    for c in it: s.chars()
        invariant
            it.seq() == s@,
            blank == (forall|j: int| 0 <= j < it.index() ==> is_white_space(#[trigger] s@[j])),
    {
        if !is_white_space_char(c) {
            blank = false;
        }
    }
    blank
}


/// `a` sorts strictly before `b` in `str`'s order: lexicographic by code point,
/// a proper prefix first.
pub open spec fn text_lt(a: Seq<char>, b: Seq<char>) -> bool
    decreases a.len(),
{
    if b.len() == 0 {
        false
    } else if a.len() == 0 {
        true
    } else if a[0] != b[0] {
        (a[0] as u32) < (b[0] as u32)
    } else {
        text_lt(a.drop_first(), b.drop_first())
    }
}

/// No text sorts before itself.
pub proof fn lemma_text_lt_irreflexive(a: Seq<char>)
    ensures
        !text_lt(a, a),
    decreases a.len(),
{
    if a.len() > 0 {
        lemma_text_lt_irreflexive(a.drop_first());
    }
}

/// Of two different texts, one sorts before the other, and never both.
pub proof fn lemma_text_lt_total(a: Seq<char>, b: Seq<char>)
    ensures
        a != b ==> (text_lt(a, b) || text_lt(b, a)),
        !(text_lt(a, b) && text_lt(b, a)),
    decreases a.len(),
{
    if a.len() > 0 && b.len() > 0 && a[0] == b[0] {
        lemma_text_lt_total(a.drop_first(), b.drop_first());
        if a != b {
            assert(a =~= seq![a[0]] + a.drop_first());
            assert(b =~= seq![b[0]] + b.drop_first());
        }
    } else if a.len() == 0 && b.len() == 0 {
        assert(a =~= b);
    } else if a.len() > 0 && b.len() > 0 {
        vstd::utf8::char_u32_cast(a[0], a[0] as u32);
        vstd::utf8::char_u32_cast(b[0], b[0] as u32);
    }
}

/// The order on texts is transitive.
pub proof fn lemma_text_lt_transitive(a: Seq<char>, b: Seq<char>, c: Seq<char>)
    requires
        text_lt(a, b),
        text_lt(b, c),
    ensures
        text_lt(a, c),
    decreases a.len(),
{
    if a.len() > 0 && b.len() > 0 && c.len() > 0 && a[0] == b[0] && b[0] == c[0] {
        lemma_text_lt_transitive(a.drop_first(), b.drop_first(), c.drop_first());
    }
}

/// The characters of `s`, in order.
pub fn chars_of(s: &str) -> (chars: Vec<char>)
    ensures
        chars@ == s@,
{
    let mut chars: Vec<char> = Vec::new();
    for c in it: s.chars()
        invariant
            it.seq() == s@,
            chars@ == s@.take(it.index() as int),
    {
        chars.push(c);
        assert(chars@ =~= s@.take(it.index() + 1));
    }
    assert(chars@ =~= s@);
    chars
}

/// The order on texts compares code points at the first position where the
/// texts differ: when `a` and `b` agree on their first `k` characters, then
/// if both go on and differ at `k`, `a` sorts first exactly when its code point
/// there is the smaller; if `a` ends at `k` and `b` goes on, `a` sorts first;
/// if `b` ends at `k`, `a` does not sort first.
pub proof fn lemma_text_lt_first_difference(a: Seq<char>, b: Seq<char>, k: int)
    requires
        0 <= k <= a.len(),
        k <= b.len(),
        a.take(k) == b.take(k),
    ensures
        k < a.len() && k < b.len() && a[k] != b[k] ==> (text_lt(a, b) <==> (a[k] as u32) < (
            b[k] as u32)),
        k == a.len() && k < b.len() ==> text_lt(a, b),
        k == b.len() ==> !text_lt(a, b),
    decreases k,
{
    if k > 0 {
        assert(a[0] == a.take(k)[0]);
        assert(b[0] == b.take(k)[0]);
        let a1 = a.drop_first();
        let b1 = b.drop_first();
        assert(a1.take(k - 1) =~= b1.take(k - 1)) by {
            assert forall|j: int| 0 <= j < k - 1 implies #[trigger] a1.take(k - 1)[j] == b1.take(k - 1)[j] by {
                assert(a1.take(k - 1)[j] == a[j + 1]);
                assert(b1.take(k - 1)[j] == b[j + 1]);
                assert(a.take(k)[j + 1] == a[j + 1]);
                assert(b.take(k)[j + 1] == b[j + 1]);
                assert(a.take(k)[j + 1] == b.take(k)[j + 1]);
            }
        }
        lemma_text_lt_first_difference(a1, b1, k - 1);
        if k < a.len() {
            assert(a1[k - 1] == a[k]);
        }
        if k < b.len() {
            assert(b1[k - 1] == b[k]);
        }
    }
}

/// Whether `a < b` in `str`'s order.
#[verifier::loop_isolation(false)]
pub fn text_less(a: &str, b: &str) -> (lt: bool)
    ensures
        lt == text_lt(a@, b@),
        forall|k: int|
            0 <= k <= a@.len() && k <= b@.len() && #[trigger] a@.take(k) == #[trigger] b@.take(k)
                ==> {
                &&& k < a@.len() && k < b@.len() && a@[k] != b@[k] ==> (lt <==> (a@[k] as u32) < (
                    b@[k] as u32))
                &&& k == a@.len() && k < b@.len() ==> lt
                &&& k == b@.len() ==> !lt
            },
{
    proof {
        assert forall|k: int|
            0 <= k <= a@.len() && k <= b@.len() && #[trigger] a@.take(k) == #[trigger] b@.take(
                k,
            ) implies {
            &&& k < a@.len() && k < b@.len() && a@[k] != b@[k] ==> (text_lt(a@, b@) <==> (
                a@[k] as u32) < (b@[k] as u32))
            &&& k == a@.len() && k < b@.len() ==> text_lt(a@, b@)
            &&& k == b@.len() ==> !text_lt(a@, b@)
        } by {
            lemma_text_lt_first_difference(a@, b@, k);
        }
    }
    let av = chars_of(a);
    let bv = chars_of(b);
    let mut i: usize = 0;
    assert(av@.skip(0) =~= av@);
    assert(bv@.skip(0) =~= bv@);
    while i < av.len() && i < bv.len()
        invariant
            av@ == a@,
            bv@ == b@,
            i <= av@.len(),
            i <= bv@.len(),
            text_lt(av@, bv@) == text_lt(av@.skip(i as int), bv@.skip(i as int)),
        decreases av@.len() - i,
    {
        assert(av@.skip(i as int)[0] == av@[i as int]);
        assert(bv@.skip(i as int)[0] == bv@[i as int]);
        if av[i] != bv[i] {
            return (av[i] as u32) < (bv[i] as u32);
        }
        assert(av@.skip(i as int).drop_first() =~= av@.skip(i + 1));
        assert(bv@.skip(i as int).drop_first() =~= bv@.skip(i + 1));
        i = i + 1;
    }
    assert(av@.skip(i as int).len() == 0 || bv@.skip(i as int).len() == 0);
    i < bv.len()
}

} // verus!
