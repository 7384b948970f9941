//! The order in which instances are listed: by name in `str`'s order, and by
//! id among equal names, so that listing is deterministic.

use vstd::prelude::*;

use crate::instance::model::{Instance, InstanceView};
use crate::text::{
    lemma_text_lt_irreflexive, lemma_text_lt_total, lemma_text_lt_transitive, text_less, text_lt,
};

verus! {

/// `a` may be listed before `b`: its name sorts first, or the names are equal
/// and its id is not greater.
pub open spec fn listed_before(a: InstanceView, b: InstanceView) -> bool {
    text_lt(a.name, b.name) || (a.name == b.name && a.id <= b.id)
}

/// A sequence of instances in listing order.
pub open spec fn in_listing_order(s: Seq<Instance>) -> bool {
    forall|i: int, j: int| 0 <= i < j < s.len() ==> listed_before(#[trigger] s[i]@, #[trigger] s[j]@)
}

/// Instances in listing order come by name in `str`'s order, and by id among
/// equal names, whatever their other parts (Minecraft version, loader, Java,
/// launch settings): of two listed instances, the earlier has the smaller name,
/// or the same name and an id no greater.
pub proof fn lemma_listing_order_by_name_then_id(s: Seq<Instance>)
    requires
        in_listing_order(s),
    ensures
        forall|i: int, j: int|
            0 <= i < j < s.len() ==> text_lt(#[trigger] s[i]@.name, #[trigger] s[j]@.name) || (
            s[i]@.name == s[j]@.name && s[i]@.id <= s[j]@.id),
{
    assert forall|i: int, j: int| 0 <= i < j < s.len() implies text_lt(
        #[trigger] s[i]@.name,
        #[trigger] s[j]@.name,
    ) || (s[i]@.name == s[j]@.name && s[i]@.id <= s[j]@.id) by {
        assert(listed_before(s[i]@, s[j]@));
    }
}

/// Any instance may be listed before itself.
pub proof fn lemma_listed_before_reflexive(a: InstanceView)
    ensures
        listed_before(a, a),
{
}

/// Of any two instances, one may be listed before the other.
pub proof fn lemma_listed_before_total(a: InstanceView, b: InstanceView)
    ensures
        listed_before(a, b) || listed_before(b, a),
{
    lemma_text_lt_total(a.name, b.name);
}

/// The listing order is transitive.
pub proof fn lemma_listed_before_transitive(a: InstanceView, b: InstanceView, c: InstanceView)
    requires
        listed_before(a, b),
        listed_before(b, c),
    ensures
        listed_before(a, c),
{
    if text_lt(a.name, b.name) && text_lt(b.name, c.name) {
        lemma_text_lt_transitive(a.name, b.name, c.name);
    }
}

/// No id occurs twice among the instances.
pub open spec fn distinct_ids(s: Seq<Instance>) -> bool {
    forall|i: int, j: int| 0 <= i < j < s.len() ==> #[trigger] s[i]@.id != #[trigger] s[j]@.id
}

/// Listing is deterministic: two sequences of the same instances that are both
/// in listing order are equal, when no id occurs twice. So the listing does not
/// depend on the order in which the storage yields its entries.
pub proof fn lemma_listing_order_unique(a: Seq<Instance>, b: Seq<Instance>)
    requires
        a.to_multiset() == b.to_multiset(),
        in_listing_order(a),
        in_listing_order(b),
        distinct_ids(a),
    ensures
        a == b,
    decreases a.len(),
{
    vstd::seq_lib::to_multiset_len(a);
    vstd::seq_lib::to_multiset_len(b);
    if a.len() == 0 {
        assert(a =~= b);
    } else {
        let x = a[0];
        let y = b[0];
        vstd::seq_lib::to_multiset_contains(a, y);
        vstd::seq_lib::to_multiset_contains(b, y);
        vstd::seq_lib::to_multiset_contains(a, x);
        vstd::seq_lib::to_multiset_contains(b, x);
        assert(b.contains(y));
        assert(a.contains(x));
        let p: int = choose|p: int| 0 <= p < a.len() && a[p] == y;
        let q: int = choose|q: int| 0 <= q < b.len() && b[q] == x;
        if p > 0 {
            assert(listed_before(a[0]@, a[p]@));
        } else {
            lemma_listed_before_reflexive(x@);
        }
        if q > 0 {
            assert(listed_before(b[0]@, b[q]@));
        } else {
            lemma_listed_before_reflexive(y@);
        }
        assert(listed_before(x@, y@));
        assert(listed_before(y@, x@));
        lemma_text_lt_total(x@.name, y@.name);
        lemma_text_lt_irreflexive(x@.name);
        assert(x@.id == y@.id);
        if p > 0 {
            assert(a[0]@.id != a[p]@.id);
        }
        assert(x == y);
        let a1 = a.drop_first();
        let b1 = b.drop_first();
        assert(a.remove(0) =~= a1);
        assert(b.remove(0) =~= b1);
        vstd::seq_lib::to_multiset_remove(a, 0);
        vstd::seq_lib::to_multiset_remove(b, 0);
        assert(in_listing_order(a1)) by {
            assert forall|i: int, j: int| 0 <= i < j < a1.len() implies listed_before(
                #[trigger] a1[i]@,
                #[trigger] a1[j]@,
            ) by {
                assert(a1[i] == a[i + 1] && a1[j] == a[j + 1]);
            }
        }
        assert(in_listing_order(b1)) by {
            assert forall|i: int, j: int| 0 <= i < j < b1.len() implies listed_before(
                #[trigger] b1[i]@,
                #[trigger] b1[j]@,
            ) by {
                assert(b1[i] == b[i + 1] && b1[j] == b[j + 1]);
            }
        }
        assert(distinct_ids(a1)) by {
            assert forall|i: int, j: int| 0 <= i < j < a1.len() implies #[trigger] a1[i]@.id
                != #[trigger] a1[j]@.id by {
                assert(a1[i] == a[i + 1] && a1[j] == a[j + 1]);
            }
        }
        lemma_listing_order_unique(a1, b1);
        assert(a =~= b) by {
            assert forall|i: int| 0 <= i < a.len() implies a[i] == b[i] by {
                if i > 0 {
                    assert(a[i] == a1[i - 1]);
                    assert(b[i] == b1[i - 1]);
                }
            }
        }
    }
}

/// Whether `a` may be listed before `b`.
pub fn listed_no_later(a: &Instance, b: &Instance) -> (before: bool)
    ensures
        before == listed_before(a@, b@),
        before == (text_lt(a@.name, b@.name) || (a@.name == b@.name && a@.id <= b@.id)),
{
    let an = a.name();
    let bn = b.name();
    if text_less(an, bn) {
        true
    } else if text_less(bn, an) {
        false
    } else {
        proof {
            lemma_text_lt_total(a@.name, b@.name);
        }
        a.id().to_u128() <= b.id().to_u128()
    }
}

/// The instances, reordered into listing order.
pub fn sort_instances(instances: Vec<Instance>) -> (sorted: Vec<Instance>)
    ensures
        sorted@.to_multiset() == instances@.to_multiset(),
        in_listing_order(sorted@),
        forall|i: int, j: int|
            0 <= i < j < sorted@.len() ==> text_lt(
                #[trigger] sorted@[i]@.name,
                #[trigger] sorted@[j]@.name,
            ) || (sorted@[i]@.name == sorted@[j]@.name && sorted@[i]@.id <= sorted@[j]@.id),
{
    broadcast use vstd::multiset::group_multiset_axioms, vstd::seq_lib::group_to_multiset_ensures;

    let ghost all = instances@;
    let mut rest = instances;
    let mut sorted: Vec<Instance> = Vec::new();
    while rest.len() > 0
        invariant
            sorted@.to_multiset().add(rest@.to_multiset()) == all.to_multiset(),
            in_listing_order(sorted@),
            forall|i: int, k: int|
                0 <= i < sorted@.len() && 0 <= k < rest@.len() ==> listed_before(
                    #[trigger] sorted@[i]@,
                    #[trigger] rest@[k]@,
                ),
        decreases rest@.len(),
    {
        let mut m: usize = 0;
        let mut k: usize = 1;
        while k < rest.len()
            invariant
                0 <= m < k <= rest@.len(),
                forall|t: int| 0 <= t < k ==> listed_before(rest@[m as int]@, #[trigger] rest@[t]@),
            decreases rest@.len() - k,
        {
            if !listed_no_later(&rest[m], &rest[k]) {
                proof {
                    lemma_listed_before_total(rest@[m as int]@, rest@[k as int]@);
                    assert forall|t: int| 0 <= t < k + 1 implies listed_before(
                        rest@[k as int]@,
                        #[trigger] rest@[t]@,
                    ) by {
                        if t < k {
                            lemma_listed_before_transitive(
                                rest@[k as int]@,
                                rest@[m as int]@,
                                rest@[t]@,
                            );
                        } else {
                            lemma_listed_before_reflexive(rest@[k as int]@);
                        }
                    }
                }
                m = k;
            }
            k = k + 1;
        }
        let ghost before_rest = rest@;
        let ghost before_sorted = sorted@;
        let x = rest.remove(m);
        proof {
            assert(rest@ == before_rest.remove(m as int));
            assert forall|t: int| 0 <= t < rest@.len() implies listed_before(
                x@,
                #[trigger] rest@[t]@,
            ) by {
                if t < m {
                    assert(rest@[t] == before_rest[t]);
                } else {
                    assert(rest@[t] == before_rest[t + 1]);
                }
            }
            assert(before_rest[m as int] == x);
        }
        sorted.push(x);
        proof {
            assert(sorted@ == before_sorted.push(x));
            assert forall|i: int, j: int| 0 <= i < j < sorted@.len() implies listed_before(
                #[trigger] sorted@[i]@,
                #[trigger] sorted@[j]@,
            ) by {
                if j == before_sorted.len() {
                    assert(before_rest[m as int] == x);
                    assert(listed_before(before_sorted[i]@, before_rest[m as int]@));
                } else {
                    assert(sorted@[i] == before_sorted[i]);
                    assert(sorted@[j] == before_sorted[j]);
                }
            }
            assert forall|i: int, k2: int|
                0 <= i < sorted@.len() && 0 <= k2 < rest@.len() implies listed_before(
                #[trigger] sorted@[i]@,
                #[trigger] rest@[k2]@,
            ) by {
                let orig: int = if k2 < m {
                    k2
                } else {
                    k2 + 1
                };
                assert(rest@[k2] == before_rest[orig]);
                if i < before_sorted.len() {
                    assert(sorted@[i] == before_sorted[i]);
                    assert(listed_before(before_sorted[i]@, before_rest[orig]@));
                }
            }
            vstd::seq_lib::to_multiset_remove(before_rest, m as int);
            vstd::seq_lib::to_multiset_build(before_sorted, x);
            assert(before_rest.to_multiset().count(x) > 0) by {
                vstd::seq_lib::to_multiset_contains(before_rest, x);
                assert(before_rest.contains(x));
            }
            assert(sorted@.to_multiset().add(rest@.to_multiset()) =~= all.to_multiset());
        }
    }
    proof {
        assert(rest@.to_multiset() =~= vstd::multiset::Multiset::empty());
        assert(sorted@.to_multiset().add(rest@.to_multiset()) =~= sorted@.to_multiset());
        lemma_listing_order_by_name_then_id(sorted@);
    }
    sorted
}

} // verus!
