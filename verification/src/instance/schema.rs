//! The persisted form of an instance: version 1 of the `instance.toml` schema,
//! kept apart from the domain model, and the conversions between the two.

use std::collections::BTreeMap;
use std::path::PathBuf;
use vstd::prelude::*;

use crate::error::InstanceError;
use crate::instance::model::{
    command_views, texts, uuid_parsed, uuid_text, CommandSpec, CommandView, CommandsView, CustomCommands,
    Instance, InstanceId, InstanceView, JavaConfig, JavaView, LaunchConfig, LaunchView, LoaderConfig,
    LoaderView, MinecraftConfig, MinecraftView,
};
use crate::text::is_blank_text;

verus! {

/// The schema version that this library writes and reads.
pub const CURRENT_INSTANCE_SCHEMA_VERSION: u32 = 1;

/// The leading part of any instance file: only its schema version.
#[derive(Debug)]
pub struct SchemaHeader {
    pub schema_version: u32,
}

/// An instance file in schema version 1.
#[derive(Debug)]
pub struct InstanceFileV1 {
    pub schema_version: u32,
    pub instance: InstanceSection,
    pub minecraft: MinecraftSection,
    pub java: JavaSection,
    pub launch: LaunchSection,
}

/// The `[instance]` table.
#[derive(Debug)]
pub struct InstanceSection {
    pub id: String,
    pub name: String,
}

/// The `[minecraft]` table.
#[derive(Debug)]
pub struct MinecraftSection {
    pub version: String,
    pub loader: Option<LoaderSection>,
}

/// The `[minecraft.loader]` table.
#[derive(Debug)]
pub struct LoaderSection {
    pub kind: String,
    pub version: String,
}

/// The `[java]` table.
#[derive(Debug)]
pub struct JavaSection {
    pub executable: Option<PathBuf>,
    pub jvm_args: Vec<String>,
}

/// The `[launch]` table.
#[derive(Debug)]
pub struct LaunchSection {
    pub environment: BTreeMap<String, String>,
    pub commands: CommandsSection,
}

/// The `[launch.commands]` table.
#[derive(Debug)]
pub struct CommandsSection {
    pub before_launch: Vec<CommandSection>,
    pub after_exit: Vec<CommandSection>,
}

/// One entry of `[[launch.commands.before_launch]]` or `[[launch.commands.after_exit]]`.
#[derive(Debug)]
pub struct CommandSection {
    pub program: String,
    pub args: Vec<String>,
}

/// The model of an instance file.
pub struct FileView {
    pub schema_version: u32,
    pub id: Seq<char>,
    pub name: Seq<char>,
    pub minecraft: MinecraftView,
    pub java: JavaView,
    pub launch: LaunchView,
}

impl View for CommandSection {
    type V = CommandView;

    open spec fn view(&self) -> CommandView {
        CommandView { program: self.program@, args: texts(self.args@) }
    }
}

/// The views of a list of command entries.
pub open spec fn section_views(v: Seq<CommandSection>) -> Seq<CommandView> {
    v.map_values(|c: CommandSection| c@)
}

impl View for InstanceFileV1 {
    type V = FileView;

    open spec fn view(&self) -> FileView {
        FileView {
            schema_version: self.schema_version,
            id: self.instance.id@,
            name: self.instance.name@,
            minecraft: MinecraftView {
                version: self.minecraft.version@,
                loader: match self.minecraft.loader {
                    Some(l) => Some(LoaderView { kind: l.kind@, version: l.version@ }),
                    None => None,
                },
            },
            java: JavaView {
                executable: self.java.executable,
                jvm_args: texts(self.java.jvm_args@),
            },
            launch: LaunchView {
                environment: self.launch.environment@,
                commands: CommandsView {
                    before_launch: section_views(self.launch.commands.before_launch@),
                    after_exit: section_views(self.launch.commands.after_exit@),
                },
            },
        }
    }
}

/// The file that stores an instance: the current schema version, the id as text,
/// and every part of the instance unchanged.
pub open spec fn file_view_of(i: InstanceView) -> FileView {
    FileView {
        schema_version: CURRENT_INSTANCE_SCHEMA_VERSION,
        id: uuid_text(i.id),
        name: i.name,
        minecraft: i.minecraft,
        java: i.java,
        launch: i.launch,
    }
}

/// The instance that a file describes, or `None` when the file's Minecraft
/// version or name is blank, or its id is not a UUID. The schema version is
/// checked before this, on the header.
pub open spec fn instance_of_file(f: FileView) -> Option<InstanceView> {
    if is_blank_text(f.minecraft.version) || is_blank_text(f.name) {
        None
    } else {
        match uuid_parsed(f.id) {
            Some(id) => Some(
                InstanceView {
                    id,
                    name: f.name,
                    minecraft: f.minecraft,
                    java: f.java,
                    launch: f.launch,
                },
            ),
            None => None,
        }
    }
}

/// Round trip of the persisted form: the file that stores a valid instance
/// names the current schema version and describes that same instance again,
/// provided that `uuid` reads back the text it wrote for the id (which the text
/// of every id states, see `InstanceId::to_string`).
pub proof fn lemma_file_round_trip(i: InstanceView)
    requires
        !is_blank_text(i.name),
        !is_blank_text(i.minecraft.version),
        uuid_parsed(uuid_text(i.id)) == Some(i.id),
    ensures
        file_view_of(i).schema_version == CURRENT_INSTANCE_SCHEMA_VERSION,
        instance_of_file(file_view_of(i)) == Some(i),
{
}

/// Encoding and decoding keep every part of an instance as it is, commands in
/// their order: the file that stores an instance holds its name, Minecraft
/// settings, Java settings and launch settings unchanged, and the id's text;
/// an instance that a file describes has the file's name, Minecraft, Java and
/// launch settings unchanged, and the id that the file's text reads as.
pub proof fn lemma_file_keeps_every_part(i: InstanceView, f: FileView)
    ensures
        file_view_of(i).id == uuid_text(i.id),
        file_view_of(i).name == i.name,
        file_view_of(i).minecraft == i.minecraft,
        file_view_of(i).java == i.java,
        file_view_of(i).launch == i.launch,
        file_view_of(i).launch.commands.before_launch == i.launch.commands.before_launch,
        file_view_of(i).launch.commands.after_exit == i.launch.commands.after_exit,
        instance_of_file(f) matches Some(d) ==> {
            &&& uuid_parsed(f.id) == Some(d.id)
            &&& d.name == f.name
            &&& d.minecraft == f.minecraft
            &&& d.java == f.java
            &&& d.launch == f.launch
            &&& d.launch.commands.before_launch == f.launch.commands.before_launch
            &&& d.launch.commands.after_exit == f.launch.commands.after_exit
        },
{
}

/// The error that decoding reports for a file that describes no instance: a
/// blank Minecraft version first, then an id that is not a UUID, then a blank name.
pub open spec fn rejects_file(f: FileView, e: InstanceError) -> bool {
    if is_blank_text(f.minecraft.version) {
        e is EmptyMinecraftVersion
    } else if uuid_parsed(f.id) is None {
        e matches InstanceError::InvalidId(text) && text@ == f.id
    } else {
        e is EmptyName
    }
}

/// A copy of a list of texts.
fn copy_texts(v: &[String]) -> (out: Vec<String>)
    ensures
        out@ == v@,
{
    let mut out: Vec<String> = Vec::new();
    for i in 0..v.len()
        invariant
            out@ == v@.take(i as int),
    {
        out.push(v[i].clone());
        assert(out@ =~= v@.take(i + 1));
    }
    assert(v@.take(v@.len() as int) =~= v@);
    out
}

/// The file entries of a list of commands.
fn command_sections(commands: &[CommandSpec]) -> (sections: Vec<CommandSection>)
    ensures
        section_views(sections@) == command_views(commands@),
{
    let mut sections: Vec<CommandSection> = Vec::new();
    for i in 0..commands.len()
        invariant
            sections@.len() == i,
            section_views(sections@) == command_views(commands@.take(i as int)),
    {
        let command = &commands[i];
        let args = command.args();
        let section = CommandSection { program: command.program().to_owned(), args: copy_texts(args) };
        assert(section@ == commands@[i as int]@);
        let ghost before = sections@;
        sections.push(section);
        assert forall|j: int| 0 <= j < i + 1 implies #[trigger] section_views(sections@)[j]
            == command_views(commands@.take(i + 1))[j] by {
            if j < i {
                assert(sections@[j] == before[j]);
                assert(section_views(before)[j] == command_views(commands@.take(i as int))[j]);
            }
        }
        assert(section_views(sections@) =~= command_views(commands@.take(i + 1)));
    }
    assert(commands@.take(commands@.len() as int) =~= commands@);
    sections
}

/// The commands of a list of file entries.
fn commands_of_sections(sections: Vec<CommandSection>) -> (commands: Vec<CommandSpec>)
    ensures
        command_views(commands@) == section_views(sections@),
{
    let mut commands: Vec<CommandSpec> = Vec::new();
    let mut rest = sections;
    let ghost all = rest@;
    let total: usize = rest.len();
    let mut taken: usize = 0;
    while rest.len() > 0
        invariant
            taken + rest@.len() == all.len(),
            all.len() == total,
            rest@ == all.skip(taken as int),
            commands@.len() == taken,
            command_views(commands@) == section_views(all.take(taken as int)),
        decreases rest@.len(),
    {
        let section = rest.remove(0);
        let command = CommandSpec::new(section.program.as_str(), section.args);
        assert(all.skip(taken as int)[0] == all[taken as int]);
        assert(command@ == all[taken as int]@);
        let ghost before = commands@;
        commands.push(command);
        assert forall|j: int| 0 <= j < taken + 1 implies #[trigger] command_views(commands@)[j]
            == section_views(all.take(taken + 1))[j] by {
            if j < taken {
                assert(commands@[j] == before[j]);
                assert(command_views(before)[j] == section_views(all.take(taken as int))[j]);
            }
        }
        taken = taken + 1;
        assert(rest@ =~= all.skip(taken as int));
        assert(command_views(commands@) =~= section_views(all.take(taken as int)));
    }
    assert(all.take(all.len() as int) =~= all);
    commands
}

impl InstanceFileV1 {
    /// The file that stores `instance`. Decoding it gives the same instance back.
    pub fn from_instance(instance: &Instance) -> (file: Self)
        ensures
            file@ == file_view_of(instance@),
            uuid_parsed(file@.id) == Some(instance@.id),
            instance_of_file(file@) == Some(instance@),
            file@.schema_version == CURRENT_INSTANCE_SCHEMA_VERSION,
            file@.id == uuid_text(instance@.id),
            file@.name == instance@.name,
            file@.minecraft == instance@.minecraft,
            file@.java == instance@.java,
            file@.launch.environment == instance@.launch.environment,
            file@.launch.commands.before_launch == instance@.launch.commands.before_launch,
            file@.launch.commands.after_exit == instance@.launch.commands.after_exit,
    {
        let minecraft = instance.minecraft();
        let loader = match minecraft.loader() {
            Some(l) => Some(LoaderSection { kind: l.kind().to_owned(), version: l.version().to_owned() }),
            None => None,
        };
        let java = instance.java();
        let executable = match java.executable() {
            Some(p) => Some(p.clone()),
            None => None,
        };
        let launch = instance.launch();
        let commands = launch.commands();
        let file = InstanceFileV1 {
            schema_version: CURRENT_INSTANCE_SCHEMA_VERSION,
            instance: InstanceSection {
                id: instance.id().to_string(),
                name: instance.name().to_owned(),
            },
            minecraft: MinecraftSection { version: minecraft.version().to_owned(), loader },
            java: JavaSection { executable, jvm_args: copy_texts(java.jvm_args()) },
            launch: LaunchSection {
                environment: launch.environment().clone(),
                commands: CommandsSection {
                    before_launch: command_sections(commands.before_launch()),
                    after_exit: command_sections(commands.after_exit()),
                },
            },
        };
        file
    }
}

impl Instance {
    /// The instance that a file describes. A blank Minecraft version is reported
    /// first, then an id that is not a UUID, then a blank name.
    pub fn try_from_file(file: InstanceFileV1) -> (instance: Result<Instance, InstanceError>)
        ensures
            instance matches Ok(i) ==> i.wf() && instance_of_file(file@) == Some(i@),
            instance matches Ok(i) ==> {
                &&& uuid_parsed(file@.id) == Some(i@.id)
                &&& i@.name == file@.name
                &&& i@.minecraft == file@.minecraft
                &&& i@.java == file@.java
                &&& i@.launch.environment == file@.launch.environment
                &&& i@.launch.commands.before_launch == file@.launch.commands.before_launch
                &&& i@.launch.commands.after_exit == file@.launch.commands.after_exit
            },
            instance is Err <==> instance_of_file(file@) is None,
            instance matches Err(e) ==> rejects_file(file@, e),
    {
        let ghost fv = file@;
        let InstanceFileV1 { schema_version: _, instance: section, minecraft, java, launch } = file;
        let loader = match minecraft.loader {
            Some(l) => Some(LoaderConfig::new(l.kind.as_str(), l.version.as_str())),
            None => None,
        };
        let minecraft = MinecraftConfig::with_loader(minecraft.version.as_str(), loader)?;
        let java = JavaConfig::from_parts(java.executable, java.jvm_args);
        let commands = CustomCommands::from_parts(
            commands_of_sections(launch.commands.before_launch),
            commands_of_sections(launch.commands.after_exit),
        );
        let launch = LaunchConfig::from_parts(launch.environment, commands);
        let id = InstanceId::parse(section.id.as_str())?;
        Instance::from_parts(id, section.name, minecraft, java, launch)
    }
}

} // verus!
