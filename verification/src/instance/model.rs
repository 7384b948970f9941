//! The instance domain model: ids, instances and their configuration parts.

use std::collections::BTreeMap;
use std::path::PathBuf;
use vstd::prelude::*;

use crate::error::InstanceError;
use crate::text::{is_blank, is_blank_text, is_white_space};

verus! {

/// The lower-case hexadecimal digit of a value below 16.
pub open spec fn hex_digit(n: u128) -> char {
    if n < 10 {
        (48 + n) as char
    } else {
        (87 + n) as char
    }
}

/// The `k`-th hexadecimal digit of a UUID value, from the most significant.
pub open spec fn uuid_nibble(value: u128, k: int) -> u128 {
    (value >> ((4 * (31 - k)) as u128)) & 0xfu128
}

/// Which of the 32 digits stands at position `i` of the hyphenated form.
pub open spec fn digit_at(i: int) -> int {
    if i < 8 {
        i
    } else if i < 13 {
        i - 1
    } else if i < 18 {
        i - 2
    } else if i < 23 {
        i - 3
    } else {
        i - 4
    }
}

/// Whether position `i` of the hyphenated form holds a hyphen.
pub open spec fn is_hyphen_at(i: int) -> bool {
    i == 8 || i == 13 || i == 18 || i == 23
}

/// The text that `uuid` displays for a UUID value: 36 characters, the 32
/// lower-case hexadecimal digits of the value from the most significant, with
/// hyphens at positions 8, 13, 18 and 23 (`xxxxxxxx-xxxx-xxxx-xxxx-xxxxxxxxxxxx`).
pub open spec fn uuid_text(value: u128) -> Seq<char> {
    Seq::new(
        36,
        |i: int|
            if is_hyphen_at(i) {
                '-'
            } else {
                hex_digit(uuid_nibble(value, digit_at(i)))
            },
    )
}

/// What `Uuid::parse_str` yields for a text: the UUID's value, or `None` when the
/// text is rejected.
pub uninterp spec fn uuid_parsed(text: Seq<char>) -> Option<u128>;

/// A lower-case hexadecimal digit.
pub open spec fn is_lower_hex(c: char) -> bool {
    ('0' <= c <= '9') || ('a' <= c <= 'f')
}

/// The text of an id has 36 characters: hyphens at positions 8, 13, 18 and 23
/// and a lower-case hexadecimal digit everywhere else.
pub proof fn lemma_uuid_text_shape(value: u128)
    ensures
        uuid_text(value).len() == 36,
        forall|i: int| 0 <= i < 36 && is_hyphen_at(i) ==> #[trigger] uuid_text(value)[i] == '-',
        forall|i: int|
            0 <= i < 36 && !is_hyphen_at(i) ==> is_lower_hex(#[trigger] uuid_text(value)[i]),
{
    assert forall|i: int| 0 <= i < 36 && !is_hyphen_at(i) implies is_lower_hex(
        #[trigger] uuid_text(value)[i],
    ) by {
        let k = digit_at(i);
        let shift: u128 = (4 * (31 - k)) as u128;
        let n: u128 = (value >> shift) & 0xfu128;
        assert(n < 16) by (bit_vector)
            requires
                n == (value >> shift) & 0xfu128,
        ;
        assert(uuid_nibble(value, k) == n);
    }
}

/// Calls `uuid::Uuid::now_v7` and returns the UUID as its 128-bit value. The
/// value rests on the clock and on chance; the contract states only what holds
/// of every version 7 UUID that `uuid` builds: the version nibble is 7 and the
/// variant bits are `10`.
#[verifier::external_body]
fn uuid_now_v7() -> (value: u128)
    ensures
        (value >> 76u128) & 0xfu128 == 7,
        (value >> 62u128) & 0x3u128 == 2,
{
    uuid::Uuid::now_v7().as_u128()
}

/// Calls `uuid::Uuid::parse_str` and returns the parsed UUID's 128-bit value,
/// or `None` when `uuid` rejects the text.
#[verifier::external_body]
fn uuid_parse(text: &str) -> (value: Option<u128>)
    ensures
        value == uuid_parsed(text@),
{
    match uuid::Uuid::parse_str(text) {
        Ok(uuid) => Some(uuid.as_u128()),
        Err(_) => None,
    }
}

/// Calls `Uuid::from_u128(value).to_string()`: the hyphenated lower-case text of
/// the UUID (`Display` writes `LowerHex` of the hyphenated form, the value's
/// bytes in big-endian order). `Uuid::parse_str` accepts that form and gives
/// back the same value, which the second clause states.
#[verifier::external_body]
fn uuid_format(value: u128) -> (text: String)
    ensures
        text@ == uuid_text(value),
        uuid_parsed(text@) == Some(value),
{
    uuid::Uuid::from_u128(value).to_string()
}

/// The persistent identity of an instance: a UUID, held as its 128-bit value.
/// Instances are never identified by name.
#[derive(Debug, Clone, Copy, PartialEq, Eq, Structural, Hash, PartialOrd, Ord)]
pub struct InstanceId {
    value: u128,
}

impl View for InstanceId {
    type V = u128;

    closed spec fn view(&self) -> u128 {
        self.value
    }
}

impl InstanceId {
    /// A fresh time-ordered id (UUID version 7).
    pub fn new() -> (id: Self)
        ensures
            (id@ >> 76u128) & 0xfu128 == 7,
            (id@ >> 62u128) & 0x3u128 == 2,
    {
        InstanceId { value: uuid_now_v7() }
    }

    /// Parses the text form of an id; any form that `uuid` accepts is read.
    pub fn parse(value: &str) -> (id: Result<Self, InstanceError>)
        ensures
            match uuid_parsed(value@) {
                Some(v) => id matches Ok(i) && i@ == v,
                None => id matches Err(InstanceError::InvalidId(text)) && text@ == value@,
            },
    {
        match uuid_parse(value) {
            Some(v) => Ok(InstanceId { value: v }),
            None => Err(InstanceError::InvalidId(value.to_owned())),
        }
    }

    /// The id's 128-bit value.
    pub fn to_u128(&self) -> (value: u128)
        ensures
            value == self@,
    {
        self.value
    }

    /// The hyphenated lower-case text of the id.
    pub fn to_string(&self) -> (text: String)
        ensures
            text@ == uuid_text(self@),
            uuid_parsed(text@) == Some(self@),
    {
        uuid_format(self.value)
    }
}

impl Default for InstanceId {
    fn default() -> (id: Self)
        ensures
            (id@ >> 76u128) & 0xfu128 == 7,
            (id@ >> 62u128) & 0x3u128 == 2,
    {
        Self::new()
    }
}

impl std::str::FromStr for InstanceId {
    type Err = InstanceError;

    fn from_str(s: &str) -> (id: Result<Self, Self::Err>)
        ensures
            match uuid_parsed(s@) {
                Some(v) => id matches Ok(i) && i@ == v,
                None => id matches Err(InstanceError::InvalidId(text)) && text@ == s@,
            },
    {
        Self::parse(s)
    }
}

/// The views of a list of texts.
pub open spec fn texts(v: Seq<String>) -> Seq<Seq<char>> {
    v.map_values(|s: String| s@)
}

/// The model of a loader choice.
pub struct LoaderView {
    pub kind: Seq<char>,
    pub version: Seq<char>,
}

/// The model of the Minecraft part of an instance.
pub struct MinecraftView {
    pub version: Seq<char>,
    pub loader: Option<LoaderView>,
}

/// The model of the Java part of an instance.
pub struct JavaView {
    pub executable: Option<PathBuf>,
    pub jvm_args: Seq<Seq<char>>,
}

/// The model of a command: a program and its arguments, never a shell line.
pub struct CommandView {
    pub program: Seq<char>,
    pub args: Seq<Seq<char>>,
}

/// The model of the commands run around a launch.
pub struct CommandsView {
    pub before_launch: Seq<CommandView>,
    pub after_exit: Seq<CommandView>,
}

/// The model of the launch part of an instance.
pub struct LaunchView {
    pub environment: Map<String, String>,
    pub commands: CommandsView,
}

/// The model of an instance.
pub struct InstanceView {
    pub id: u128,
    pub name: Seq<char>,
    pub minecraft: MinecraftView,
    pub java: JavaView,
    pub launch: LaunchView,
}

/// The view of an optional loader.
pub open spec fn loader_view(loader: Option<LoaderConfig>) -> Option<LoaderView> {
    match loader {
        Some(l) => Some(l@),
        None => None,
    }
}

/// The views of a list of commands.
pub open spec fn command_views(v: Seq<CommandSpec>) -> Seq<CommandView> {
    v.map_values(|c: CommandSpec| c@)
}

/// A Minecraft instance: its id, its display name and its configuration.
#[derive(Debug, PartialEq, Eq)]
pub struct Instance {
    id: InstanceId,
    name: String,
    minecraft: MinecraftConfig,
    java: JavaConfig,
    launch: LaunchConfig,
}

impl View for Instance {
    type V = InstanceView;

    closed spec fn view(&self) -> InstanceView {
        InstanceView {
            id: self.id@,
            name: self.name@,
            minecraft: self.minecraft@,
            java: self.java@,
            launch: self.launch@,
        }
    }
}

impl Clone for Instance {
    fn clone(&self) -> (copy: Self)
        ensures
            copy@ == self@,
    {
        proof {
            use_type_invariant(self);
        }
        Self {
            id: self.id,
            name: self.name.clone(),
            minecraft: self.minecraft.clone(),
            java: self.java.clone(),
            launch: self.launch.clone(),
        }
    }
}

impl Instance {
    /// Every instance has a name and a Minecraft version that are not blank.
    #[verifier::type_invariant]
    spec fn name_and_version_not_blank(self) -> bool {
        !is_blank_text(self.name@) && !is_blank_text(self.minecraft@.version)
    }

    /// An instance is valid when its name and its Minecraft version are not blank.
    pub open spec fn wf(&self) -> bool {
        &&& !is_blank_text(self@.name)
        &&& !is_blank_text(self@.minecraft.version)
    }

    /// A new instance with a fresh id, the given name and Minecraft version, no
    /// loader, no pinned Java, no JVM arguments, no environment and no commands.
    /// A blank version is reported before a blank name.
    pub fn new(name: &str, minecraft_version: &str) -> (instance: Result<Self, InstanceError>)
        ensures
            is_blank_text(minecraft_version@) ==> instance matches Err(
                InstanceError::EmptyMinecraftVersion,
            ),
            !is_blank_text(minecraft_version@) && is_blank_text(name@) ==> instance matches Err(
                InstanceError::EmptyName,
            ),
            !is_blank_text(minecraft_version@) && !is_blank_text(name@) ==> (instance matches Ok(i)
                && i.wf() && (i@.id >> 76u128) & 0xfu128 == 7 && (i@.id >> 62u128) & 0x3u128 == 2
                && i@.name == name@ && i@.minecraft.version == minecraft_version@
                && i@.minecraft.loader is None && i@.java.executable is None
                && i@.java.jvm_args.len() == 0 && i@.launch.environment.is_empty()
                && i@.launch.commands.before_launch.len() == 0
                && i@.launch.commands.after_exit.len() == 0),
            (exists|k: int| 0 <= k < name@.len() && !is_white_space(#[trigger] name@[k])) && (exists|
                k: int,
            |
                0 <= k < minecraft_version@.len() && !is_white_space(#[trigger] minecraft_version@[k]))
                ==> (instance matches Ok(i) && i@.name == name@ && i@.minecraft.version
                == minecraft_version@),
            (forall|k: int|
                0 <= k < minecraft_version@.len() ==> is_white_space(#[trigger] minecraft_version@[k]))
                ==> instance matches Err(InstanceError::EmptyMinecraftVersion),
    {
        let id = InstanceId::new();
        let owned_name = name.to_owned();
        let minecraft = MinecraftConfig::new(minecraft_version)?;
        Self::from_parts(id, owned_name, minecraft, JavaConfig::default(), LaunchConfig::default())
    }

    /// Assembles an instance from its parts; the name must not be blank.
    pub fn from_parts(
        id: InstanceId,
        name: String,
        minecraft: MinecraftConfig,
        java: JavaConfig,
        launch: LaunchConfig,
    ) -> (instance: Result<Self, InstanceError>)
        ensures
            is_blank_text(name@) ==> instance matches Err(InstanceError::EmptyName),
            !is_blank_text(name@) ==> (instance matches Ok(i) && i.wf() && i@ == (InstanceView {
                id: id@,
                name: name@,
                minecraft: minecraft@,
                java: java@,
                launch: launch@,
            })),
    {
        proof {
            use_type_invariant(&minecraft);
        }
        if is_blank(name.as_str()) {
            return Err(InstanceError::EmptyName);
        }
        Ok(Self { id, name, minecraft, java, launch })
    }

    /// The instance's id.
    pub fn id(&self) -> (id: &InstanceId)
        ensures
            id@ == self@.id,
    {
        &self.id
    }

    /// The instance's display name, which is never blank; nor is its
    /// Minecraft version.
    pub fn name(&self) -> (name: &str)
        ensures
            name@ == self@.name,
            self.wf(),
    {
        proof {
            use_type_invariant(self);
        }
        self.name.as_str()
    }

    /// The Minecraft part of the instance.
    pub fn minecraft(&self) -> (minecraft: &MinecraftConfig)
        ensures
            minecraft@ == self@.minecraft,
            self.wf(),
    {
        proof {
            use_type_invariant(self);
        }
        &self.minecraft
    }

    /// The Java part of the instance.
    pub fn java(&self) -> (java: &JavaConfig)
        ensures
            java@ == self@.java,
    {
        &self.java
    }

    /// The launch part of the instance.
    pub fn launch(&self) -> (launch: &LaunchConfig)
        ensures
            launch@ == self@.launch,
    {
        &self.launch
    }
}

/// The Minecraft version of an instance and its optional mod loader.
#[derive(Debug, PartialEq, Eq)]
pub struct MinecraftConfig {
    version: String,
    loader: Option<LoaderConfig>,
}

impl View for MinecraftConfig {
    type V = MinecraftView;

    closed spec fn view(&self) -> MinecraftView {
        MinecraftView {
            version: self.version@,
            loader: loader_view(self.loader),
        }
    }
}

impl Clone for MinecraftConfig {
    fn clone(&self) -> (copy: Self)
        ensures
            copy@ == self@,
    {
        proof {
            use_type_invariant(self);
        }
        let loader = match &self.loader {
            Some(l) => Some(l.clone()),
            None => None,
        };
        Self { version: self.version.clone(), loader }
    }
}

impl MinecraftConfig {
    /// Every configuration has a version that is not blank.
    #[verifier::type_invariant]
    spec fn version_not_blank(self) -> bool {
        !is_blank_text(self.version@)
    }

    /// A valid configuration has a version that is not blank; every value of the
    /// type is valid.
    pub open spec fn wf(&self) -> bool {
        !is_blank_text(self@.version)
    }

    /// A configuration with the given version and no loader; the version must
    /// not be blank.
    pub fn new(version: &str) -> (config: Result<Self, InstanceError>)
        ensures
            is_blank_text(version@) ==> config matches Err(InstanceError::EmptyMinecraftVersion),
            !is_blank_text(version@) ==> (config matches Ok(c) && c.wf() && c@ == (MinecraftView {
                version: version@,
                loader: None,
            })),
            (exists|k: int| 0 <= k < version@.len() && !is_white_space(#[trigger] version@[k]))
                ==> (config matches Ok(c) && c@.version == version@),
    {
        if is_blank(version) {
            return Err(InstanceError::EmptyMinecraftVersion);
        }
        Ok(Self { version: version.to_owned(), loader: None })
    }

    /// A configuration with the given version and loader; the version must not
    /// be blank.
    pub fn with_loader(version: &str, loader: Option<LoaderConfig>) -> (config: Result<
        Self,
        InstanceError,
    >)
        ensures
            is_blank_text(version@) ==> config matches Err(InstanceError::EmptyMinecraftVersion),
            !is_blank_text(version@) ==> (config matches Ok(c) && c.wf() && c@.version == version@
                && c@.loader == loader_view(loader)),
    {
        if is_blank(version) {
            return Err(InstanceError::EmptyMinecraftVersion);
        }
        Ok(Self { version: version.to_owned(), loader })
    }

    /// The Minecraft version, which is never blank.
    pub fn version(&self) -> (version: &str)
        ensures
            version@ == self@.version,
            self.wf(),
    {
        proof {
            use_type_invariant(self);
        }
        self.version.as_str()
    }

    /// The loader, if one is chosen.
    pub fn loader(&self) -> (loader: Option<&LoaderConfig>)
        ensures
            match loader {
                Some(l) => self@.loader == Some(l@),
                None => self@.loader is None,
            },
    {
        match &self.loader {
            Some(l) => Some(l),
            None => None,
        }
    }
}

/// A mod loader: its kind (such as `fabric`) and its version.
#[derive(Debug, PartialEq, Eq)]
pub struct LoaderConfig {
    kind: String,
    version: String,
}

impl View for LoaderConfig {
    type V = LoaderView;

    closed spec fn view(&self) -> LoaderView {
        LoaderView { kind: self.kind@, version: self.version@ }
    }
}

impl Clone for LoaderConfig {
    fn clone(&self) -> (copy: Self)
        ensures
            copy@ == self@,
    {
        Self { kind: self.kind.clone(), version: self.version.clone() }
    }
}

impl LoaderConfig {
    /// A loader of the given kind and version.
    pub fn new(kind: &str, version: &str) -> (loader: Self)
        ensures
            loader@ == (LoaderView { kind: kind@, version: version@ }),
    {
        Self { kind: kind.to_owned(), version: version.to_owned() }
    }

    /// The loader's kind.
    pub fn kind(&self) -> (kind: &str)
        ensures
            kind@ == self@.kind,
    {
        self.kind.as_str()
    }

    /// The loader's version.
    pub fn version(&self) -> (version: &str)
        ensures
            version@ == self@.version,
    {
        self.version.as_str()
    }
}

/// The Java installation pinned to an instance, if any, and the JVM arguments.
#[derive(Debug, PartialEq, Eq)]
pub struct JavaConfig {
    executable: Option<PathBuf>,
    jvm_args: Vec<String>,
}

impl View for JavaConfig {
    type V = JavaView;

    closed spec fn view(&self) -> JavaView {
        JavaView { executable: self.executable, jvm_args: texts(self.jvm_args@) }
    }
}

impl Default for JavaConfig {
    fn default() -> (java: Self)
        ensures
            java@.executable is None,
            java@.jvm_args.len() == 0,
    {
        Self { executable: None, jvm_args: Vec::new() }
    }
}

impl Clone for JavaConfig {
    fn clone(&self) -> (copy: Self)
        ensures
            copy@ == self@,
    {
        let executable = match &self.executable {
            Some(p) => Some(p.clone()),
            None => None,
        };
        let jvm_args = self.jvm_args.clone();
        assert(jvm_args@ =~= self.jvm_args@);
        Self { executable, jvm_args }
    }
}

impl JavaConfig {
    /// Assembles a Java configuration.
    pub fn from_parts(executable: Option<PathBuf>, jvm_args: Vec<String>) -> (java: Self)
        ensures
            java@ == (JavaView { executable, jvm_args: texts(jvm_args@) }),
    {
        Self { executable, jvm_args }
    }

    /// The pinned Java executable; `None` means that none is pinned.
    pub fn executable(&self) -> (executable: Option<&PathBuf>)
        ensures
            match executable {
                Some(p) => self@.executable == Some(*p),
                None => self@.executable is None,
            },
    {
        match &self.executable {
            Some(p) => Some(p),
            None => None,
        }
    }

    /// The JVM arguments, in order.
    pub fn jvm_args(&self) -> (args: &[String])
        ensures
            texts(args@) == self@.jvm_args,
    {
        self.jvm_args.as_slice()
    }
}

/// The environment variables and custom commands of a launch.
#[derive(Debug, PartialEq, Eq)]
pub struct LaunchConfig {
    environment: BTreeMap<String, String>,
    commands: CustomCommands,
}

impl View for LaunchConfig {
    type V = LaunchView;

    closed spec fn view(&self) -> LaunchView {
        LaunchView { environment: self.environment@, commands: self.commands@ }
    }
}

impl Default for LaunchConfig {
    fn default() -> (launch: Self)
        ensures
            launch@.environment.is_empty(),
            launch@.commands.before_launch.len() == 0,
            launch@.commands.after_exit.len() == 0,
    {
        Self { environment: BTreeMap::new(), commands: CustomCommands::default() }
    }
}

impl Clone for LaunchConfig {
    fn clone(&self) -> (copy: Self)
        ensures
            copy@ == self@,
    {
        Self { environment: self.environment.clone(), commands: self.commands.clone() }
    }
}

impl LaunchConfig {
    /// Assembles a launch configuration.
    pub fn from_parts(environment: BTreeMap<String, String>, commands: CustomCommands) -> (launch:
        Self)
        ensures
            launch@ == (LaunchView { environment: environment@, commands: commands@ }),
    {
        Self { environment, commands }
    }

    /// The environment variables, ordered by name.
    pub fn environment(&self) -> (environment: &BTreeMap<String, String>)
        ensures
            environment@ == self@.environment,
    {
        &self.environment
    }

    /// The custom commands.
    pub fn commands(&self) -> (commands: &CustomCommands)
        ensures
            commands@ == self@.commands,
    {
        &self.commands
    }
}

/// Commands run before Minecraft starts and after it exits.
#[derive(Debug, PartialEq, Eq)]
pub struct CustomCommands {
    before_launch: Vec<CommandSpec>,
    after_exit: Vec<CommandSpec>,
}

impl View for CustomCommands {
    type V = CommandsView;

    closed spec fn view(&self) -> CommandsView {
        CommandsView {
            before_launch: command_views(self.before_launch@),
            after_exit: command_views(self.after_exit@),
        }
    }
}

impl Default for CustomCommands {
    fn default() -> (commands: Self)
        ensures
            commands@.before_launch.len() == 0,
            commands@.after_exit.len() == 0,
    {
        Self { before_launch: Vec::new(), after_exit: Vec::new() }
    }
}

/// Copies of commands, one for one.
fn clone_commands(commands: &Vec<CommandSpec>) -> (copy: Vec<CommandSpec>)
    ensures
        command_views(copy@) == command_views(commands@),
{
    let mut copy: Vec<CommandSpec> = Vec::new();
    for i in 0..commands.len()
        invariant
            copy@.len() == i,
            forall|j: int| 0 <= j < i ==> #[trigger] copy@[j]@ == commands@[j]@,
    {
        copy.push(commands[i].clone());
    }
    assert(command_views(copy@) =~= command_views(commands@));
    copy
}

impl Clone for CustomCommands {
    fn clone(&self) -> (copy: Self)
        ensures
            copy@ == self@,
    {
        Self {
            before_launch: clone_commands(&self.before_launch),
            after_exit: clone_commands(&self.after_exit),
        }
    }
}

impl CustomCommands {
    /// Assembles the custom commands.
    pub fn from_parts(before_launch: Vec<CommandSpec>, after_exit: Vec<CommandSpec>) -> (commands:
        Self)
        ensures
            commands@ == (CommandsView {
                before_launch: command_views(before_launch@),
                after_exit: command_views(after_exit@),
            }),
    {
        Self { before_launch, after_exit }
    }

    /// The commands run before launch, in order.
    pub fn before_launch(&self) -> (commands: &[CommandSpec])
        ensures
            command_views(commands@) == self@.before_launch,
    {
        self.before_launch.as_slice()
    }

    /// The commands run after exit, in order.
    pub fn after_exit(&self) -> (commands: &[CommandSpec])
        ensures
            command_views(commands@) == self@.after_exit,
    {
        self.after_exit.as_slice()
    }
}

/// A command: an executable and its arguments, with no shell involved.
#[derive(Debug, PartialEq, Eq)]
pub struct CommandSpec {
    program: String,
    args: Vec<String>,
}

impl View for CommandSpec {
    type V = CommandView;

    closed spec fn view(&self) -> CommandView {
        CommandView { program: self.program@, args: texts(self.args@) }
    }
}

impl Clone for CommandSpec {
    fn clone(&self) -> (copy: Self)
        ensures
            copy@ == self@,
    {
        let args = self.args.clone();
        assert(args@ =~= self.args@);
        Self { program: self.program.clone(), args }
    }
}

impl CommandSpec {
    /// A command running `program` with `args`.
    pub fn new(program: &str, args: Vec<String>) -> (command: Self)
        ensures
            command@ == (CommandView { program: program@, args: texts(args@) }),
    {
        Self { program: program.to_owned(), args }
    }

    /// The executable.
    pub fn program(&self) -> (program: &str)
        ensures
            program@ == self@.program,
    {
        self.program.as_str()
    }

    /// The arguments, in order.
    pub fn args(&self) -> (args: &[String])
        ensures
            texts(args@) == self@.args,
    {
        self.args.as_slice()
    }
}

} // verus!
