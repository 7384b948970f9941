use std::collections::BTreeMap;
use std::io;
use std::path::PathBuf;

use apodize_core::instance::listing::sort_instances;
use apodize_core::instance::repository::{EntryKind, FailureKind, IoFailure};
use apodize_core::instance::schema::{
    CommandSection, CommandsSection, InstanceFileV1, InstanceSection, JavaSection, LaunchSection,
    LoaderSection, MinecraftSection, SchemaHeader, CURRENT_INSTANCE_SCHEMA_VERSION,
};
use apodize_core::instance::steps::{LoadBody, LoadHeader, LoadStart};
use apodize_core::instance::{FileInstanceRepository, Instance, InstanceId};
use apodize_core::InstanceError;

fn failure(kind: FailureKind) -> IoFailure {
    let io_kind = match kind {
        FailureKind::NotFound => io::ErrorKind::NotFound,
        FailureKind::AlreadyExists => io::ErrorKind::AlreadyExists,
        FailureKind::Other => io::ErrorKind::PermissionDenied,
    };
    IoFailure {
        kind,
        source: io::Error::from(io_kind),
    }
}

fn repository() -> FileInstanceRepository {
    FileInstanceRepository::new(PathBuf::from("/data/instances"))
}

/// The load that getting `id` starts once its directory is found.
fn start_load(repository: &FileInstanceRepository, id: &InstanceId) -> LoadStart {
    repository
        .start_get(id)
        .inspected(Ok(EntryKind::Directory))
        .expect("a directory")
        .expect("a load")
}

/// The steps of a load up to the header, on a file that exists and reads as `text`.
fn read_text(repository: &FileInstanceRepository, id: &InstanceId, text: &str) -> LoadHeader {
    start_load(repository, id)
        .inspected(Ok(EntryKind::File))
        .expect("a regular file")
        .read(Ok(text.to_string()))
        .expect("readable")
}

/// Loads a file's parsed form the way the repository does once the text is parsed.
fn load(
    repository: &FileInstanceRepository,
    id: &InstanceId,
    file: InstanceFileV1,
) -> Result<Instance, InstanceError> {
    let header = read_text(repository, id, "");
    let body: LoadBody = header.header_parsed(Ok(SchemaHeader {
        schema_version: file.schema_version,
    }))?;
    body.body_parsed(Ok(file))
}

fn header_of(text: &str) -> SchemaHeader {
    let table = toml::from_str::<toml::Table>(text).expect("valid TOML");
    let version = table["schema_version"].as_integer().expect("integer version");
    SchemaHeader {
        schema_version: u32::try_from(version).expect("version fits"),
    }
}

/// A second value equal to a file form, as parsing its TOML text back gives.
fn copy_file(file: &InstanceFileV1) -> InstanceFileV1 {
    let commands = |list: &[CommandSection]| -> Vec<CommandSection> {
        list.iter()
            .map(|c| CommandSection {
                program: c.program.clone(),
                args: c.args.clone(),
            })
            .collect()
    };
    InstanceFileV1 {
        schema_version: file.schema_version,
        instance: InstanceSection {
            id: file.instance.id.clone(),
            name: file.instance.name.clone(),
        },
        minecraft: MinecraftSection {
            version: file.minecraft.version.clone(),
            loader: file.minecraft.loader.as_ref().map(|l| LoaderSection {
                kind: l.kind.clone(),
                version: l.version.clone(),
            }),
        },
        java: JavaSection {
            executable: file.java.executable.clone(),
            jvm_args: file.java.jvm_args.clone(),
        },
        launch: LaunchSection {
            environment: file.launch.environment.clone(),
            commands: CommandsSection {
                before_launch: commands(&file.launch.commands.before_launch),
                after_exit: commands(&file.launch.commands.after_exit),
            },
        },
    }
}

#[test]
fn create_and_load_round_trip() {
    let repository = repository();
    let instance = Instance::new("Survival", "1.21.8").expect("create instance");

    let encode = repository.start_create(&instance);
    let stored = copy_file(encode.file());
    let get = repository.start_get(instance.id());
    let start = get
        .inspected(Ok(EntryKind::Directory))
        .expect("directory")
        .expect("instance exists");
    let header = start
        .inspected(Ok(EntryKind::File))
        .expect("file")
        .read(Ok(String::new()))
        .expect("read");
    let body = header
        .header_parsed(Ok(SchemaHeader { schema_version: 1 }))
        .expect("supported header");
    let loaded = body.body_parsed(Ok(stored)).expect("load instance");

    assert_eq!(loaded, instance);
}

#[test]
fn list_returns_instances_in_deterministic_order() {
    let beta = Instance::new("beta", "1.21.8").expect("create beta");
    let alpha = Instance::new("alpha", "1.20.1").expect("create alpha");

    let listed = sort_instances(vec![beta.clone(), alpha.clone()]);
    assert_eq!(listed, vec![alpha.clone(), beta.clone()]);
    let listed_again = sort_instances(vec![alpha.clone(), beta.clone()]);
    assert_eq!(listed_again, vec![alpha, beta]);
}

#[test]
fn delete_removes_instance() {
    let repository = repository();
    let instance = Instance::new("Disposable", "1.21.8").expect("create instance");

    let remove = repository
        .start_delete(instance.id())
        .inspected(Ok(EntryKind::Directory))
        .expect("directory exists");
    assert_eq!(remove.dir(), &repository.instance_dir(instance.id()));
    remove.removed(Ok(())).expect("delete instance");

    let get = repository.start_get(instance.id());
    assert!(get
        .inspected(Err(failure(FailureKind::NotFound)))
        .expect("query instance")
        .is_none());
}

#[test]
fn duplicate_instance_id_is_rejected() {
    let repository = repository();
    let instance = Instance::new("Duplicate", "1.21.8").expect("create instance");
    let reach_dir = || {
        repository
            .start_create(&instance)
            .encoded(Ok(String::from("schema_version = 1")))
            .expect("encoded")
            .root_created(Ok(()))
            .expect("root")
    };
    reach_dir().dir_created(Ok(())).expect("persist first copy");

    let error = reach_dir()
        .dir_created(Err(failure(FailureKind::AlreadyExists)))
        .expect_err("duplicate id must fail");

    assert!(matches!(error, InstanceError::AlreadyExists(_)));
}

#[test]
fn invalid_toml_is_rejected() {
    let repository = repository();
    let id = InstanceId::new();
    let text = "this is not = valid = toml";
    let header = read_text(&repository, &id, text);
    let parsed = toml::from_str::<toml::Table>(header.content())
        .map(|_| SchemaHeader { schema_version: 1 });

    let error = header.header_parsed(parsed).expect_err("invalid TOML must fail");
    assert!(matches!(error, InstanceError::Decode { .. }));
}

#[test]
fn unsupported_schema_version_is_rejected_before_full_decode() {
    let repository = repository();
    let id = InstanceId::new();
    let text = format!(
        "schema_version = 999\nunknown_future_field = true\n[instance]\nid = \"{}\"\n",
        id.to_string()
    );
    let header = read_text(&repository, &id, &text);

    let error = header
        .header_parsed(Ok(header_of(&text)))
        .expect_err("future schema version must fail");
    assert!(matches!(
        error,
        InstanceError::UnsupportedSchemaVersion {
            found: 999,
            supported: CURRENT_INSTANCE_SCHEMA_VERSION
        }
    ));
}

#[test]
fn missing_minecraft_version_is_rejected() {
    let repository = repository();
    let id = InstanceId::new();
    let text = format!(
        "schema_version = 1\n[instance]\nid = \"{}\"\nname = \"Broken\"\n[minecraft]\n",
        id.to_string()
    );
    let header = read_text(&repository, &id, &text);
    let body = header
        .header_parsed(Ok(header_of(&text)))
        .expect("supported header");
    let table = toml::from_str::<toml::Table>(body.content()).expect("valid TOML");
    let version = table["minecraft"].clone().try_into::<String>();
    let file = version.map(|_| unreachable!("the [minecraft] table holds no version"));

    let error = body
        .body_parsed(file)
        .expect_err("missing Minecraft version must fail");
    assert!(matches!(error, InstanceError::Decode { .. }));
}

#[test]
fn storage_directory_and_file_id_must_match() {
    let repository = repository();
    let directory_id = InstanceId::new();
    let file_instance = Instance::new("Mismatch", "1.21.8").expect("create instance");
    let file = InstanceFileV1::from_instance(&file_instance);

    let error = load(&repository, &directory_id, file)
        .expect_err("id mismatch must fail");
    assert!(matches!(error, InstanceError::StorageIdMismatch { .. }));
}

fn sample_file(id: &str, name: &str, version: &str) -> InstanceFileV1 {
    let mut environment = BTreeMap::new();
    environment.insert(
        "MESA_SHADER_CACHE_DIR".to_string(),
        "/tmp/minecraft-shader-cache".to_string(),
    );
    InstanceFileV1 {
        schema_version: 1,
        instance: InstanceSection {
            id: id.to_string(),
            name: name.to_string(),
        },
        minecraft: MinecraftSection {
            version: version.to_string(),
            loader: Some(LoaderSection {
                kind: "fabric".to_string(),
                version: "0.17.2".to_string(),
            }),
        },
        java: JavaSection {
            executable: Some(PathBuf::from("/usr/bin/java")),
            jvm_args: vec!["-Xms1G".to_string(), "-Xmx4G".to_string()],
        },
        launch: LaunchSection {
            environment,
            commands: CommandsSection {
                before_launch: vec![CommandSection {
                    program: "echo".to_string(),
                    args: vec!["Launching Survival".to_string()],
                }],
                after_exit: vec![CommandSection {
                    program: "echo".to_string(),
                    args: vec!["Minecraft exited".to_string()],
                }],
            },
        },
    }
}

const SAMPLE_ID: &str = "019c0000-0000-7000-8000-0000000000aa";

#[test]
fn full_file_decodes_every_part() {
    let path = PathBuf::from("instance.toml");
    let instance = Instance::try_from_file(sample_file(SAMPLE_ID, "Survival", "1.21.8"))
        .expect("valid file");
    assert_eq!(instance.id().to_string(), SAMPLE_ID);
    assert_eq!(instance.name(), "Survival");
    assert_eq!(instance.minecraft().version(), "1.21.8");
    let loader = instance.minecraft().loader().expect("loader");
    assert_eq!((loader.kind(), loader.version()), ("fabric", "0.17.2"));
    assert_eq!(
        instance.java().executable(),
        Some(&PathBuf::from("/usr/bin/java"))
    );
    assert_eq!(instance.java().jvm_args(), ["-Xms1G", "-Xmx4G"]);
    assert_eq!(
        instance.launch().environment()["MESA_SHADER_CACHE_DIR"],
        "/tmp/minecraft-shader-cache"
    );
    let before = instance.launch().commands().before_launch();
    assert_eq!(before.len(), 1);
    assert_eq!(before[0].program(), "echo");
    assert_eq!(before[0].args(), ["Launching Survival"]);
    assert_eq!(
        instance.launch().commands().after_exit()[0].args(),
        ["Minecraft exited"]
    );

    let again = copy_file(&InstanceFileV1::from_instance(&instance));
    let reloaded = load(&repository(), instance.id(), again).expect("round trip");
    assert_eq!(reloaded, instance);
}

#[test]
fn encoded_file_holds_the_instance_parts() {
    let instance = Instance::try_from_file(sample_file(SAMPLE_ID, "Survival", "1.21.8"))
        .expect("valid file");
    let file = InstanceFileV1::from_instance(&instance);
    assert_eq!(file.schema_version, CURRENT_INSTANCE_SCHEMA_VERSION);
    assert_eq!(file.instance.id, SAMPLE_ID);
    assert_eq!(file.instance.name, "Survival");
    assert_eq!(file.minecraft.version, "1.21.8");
    assert_eq!(file.minecraft.loader.as_ref().expect("loader").kind, "fabric");
    assert_eq!(file.java.jvm_args, vec!["-Xms1G", "-Xmx4G"]);
    assert_eq!(file.launch.commands.before_launch[0].program, "echo");
    assert_eq!(file.launch.commands.after_exit[0].args, vec!["Minecraft exited"]);
}

#[test]
fn file_errors_come_in_order() {
    assert!(matches!(
        Instance::try_from_file(sample_file("not-an-id", " ", "")),
        Err(InstanceError::EmptyMinecraftVersion)
    ));
    match Instance::try_from_file(sample_file("not-an-id", " ", "1.21.8")) {
        Err(InstanceError::InvalidId(text)) => assert_eq!(text, "not-an-id"),
        other => panic!("unexpected {other:?}"),
    }
    assert!(matches!(
        Instance::try_from_file(sample_file(SAMPLE_ID, " \n", "1.21.8")),
        Err(InstanceError::EmptyName)
    ));
}

#[test]
fn mismatched_ids_are_both_reported() {
    let repository = repository();
    let directory_id = InstanceId::parse("019c0000-0000-7000-8000-0000000000bb").expect("id");
    match load(&repository, &directory_id, sample_file(SAMPLE_ID, "A", "1")) {
        Err(InstanceError::StorageIdMismatch {
            directory_id,
            file_id,
        }) => {
            assert_eq!(directory_id, "019c0000-0000-7000-8000-0000000000bb");
            assert_eq!(file_id, SAMPLE_ID);
        }
        other => panic!("unexpected {other:?}"),
    }
    let file_id = InstanceId::parse(SAMPLE_ID).expect("id");
    assert!(load(&repository, &file_id, sample_file(SAMPLE_ID, "A", "1")).is_ok());
}

#[test]
fn layout_paths_follow_the_id() {
    let repository = repository();
    let id = InstanceId::parse(SAMPLE_ID).expect("id");
    let dir = repository.instance_dir(&id);
    assert_eq!(dir, PathBuf::from("/data/instances").join(SAMPLE_ID));
    assert_eq!(
        repository.instance_file(&id),
        PathBuf::from("/data/instances").join(SAMPLE_ID).join("instance.toml")
    );
    assert_eq!(
        repository.temp_file(&id),
        PathBuf::from("/data/instances").join(SAMPLE_ID).join("instance.toml.tmp")
    );
    assert_eq!(repository.root(), &PathBuf::from("/data/instances"));
    assert_eq!(repository.start_get(&id).dir(), &dir);
    assert_eq!(repository.start_delete(&id).dir(), &dir);
    assert_eq!(repository.start_list().root(), repository.root());
}

#[test]
fn instance_file_checks_refuse_links_and_directories() {
    let repository = repository();
    let id = InstanceId::parse(SAMPLE_ID).expect("id");
    let path = repository.instance_file(&id);
    let start = || start_load(&repository, &id);
    assert_eq!(start().path(), &path);
    let read = start().inspected(Ok(EntryKind::File)).expect("file");
    assert_eq!(read.path(), &path);
    assert!(matches!(
        start().inspected(Ok(EntryKind::Symlink)),
        Err(InstanceError::SymlinkStorage(p)) if p == path
    ));
    assert!(matches!(
        start().inspected(Ok(EntryKind::Directory)),
        Err(InstanceError::InvalidStorageEntry(_))
    ));
    assert!(matches!(
        start().inspected(Err(failure(FailureKind::NotFound))),
        Err(InstanceError::Metadata { .. })
    ));
    assert!(matches!(
        read.read(Err(failure(FailureKind::Other))),
        Err(InstanceError::Read { .. })
    ));
    let header = read_text(&repository, &id, "x");
    assert_eq!(header.content(), "x");
    let body = header
        .header_parsed(Ok(SchemaHeader { schema_version: 1 }))
        .expect("header");
    assert_eq!(body.content(), "x");
}

#[test]
fn lookup_and_removal_directory_checks() {
    let repository = repository();
    let id = InstanceId::parse(SAMPLE_ID).expect("id");
    let get = || repository.start_get(&id);
    let load = get()
        .inspected(Ok(EntryKind::Directory))
        .expect("present")
        .expect("a load");
    assert_eq!(load.path(), &repository.instance_file(&id));
    assert!(matches!(
        get().inspected(Ok(EntryKind::Symlink)),
        Err(InstanceError::SymlinkStorage(_))
    ));
    assert!(matches!(
        get().inspected(Ok(EntryKind::File)),
        Err(InstanceError::InvalidStorageEntry(_))
    ));
    assert!(matches!(
        get().inspected(Err(failure(FailureKind::Other))),
        Err(InstanceError::Metadata { .. })
    ));

    let delete = || repository.start_delete(&id);
    match delete().inspected(Err(failure(FailureKind::NotFound))) {
        Err(InstanceError::NotFound(text)) => assert_eq!(text, SAMPLE_ID),
        other => panic!("unexpected {other:?}"),
    }
    assert!(matches!(
        delete().inspected(Ok(EntryKind::Other)),
        Err(InstanceError::InvalidStorageEntry(_))
    ));
    assert!(matches!(
        delete().inspected(Ok(EntryKind::Symlink)),
        Err(InstanceError::SymlinkStorage(_))
    ));
    let remove = delete().inspected(Ok(EntryKind::Directory)).expect("directory");
    assert!(matches!(
        remove.removed(Err(failure(FailureKind::Other))),
        Err(InstanceError::RemoveDirectory { .. })
    ));
}

#[test]
fn creation_failures_clean_up() {
    let repository = repository();
    let instance = Instance::new("Survival", "1.21.8").expect("instance");
    let id = instance.id();
    let dir = repository.instance_dir(id);
    let temp = repository.temp_file(id);
    let file = repository.instance_file(id);
    let encoded = || {
        repository
            .start_create(&instance)
            .encoded(Ok(String::from("schema_version = 1")))
            .expect("encoded")
    };

    let root = encoded();
    assert_eq!(root.root(), repository.root());
    assert!(matches!(
        root.root_created(Err(failure(FailureKind::Other))),
        Err(InstanceError::CreateDirectory { path, .. }) if path == *repository.root()
    ));
    let make_dir = || encoded().root_created(Ok(())).expect("root");
    assert_eq!(make_dir().dir(), &dir);
    assert!(matches!(
        make_dir().dir_created(Err(failure(FailureKind::Other))),
        Err(InstanceError::CreateDirectory { path, .. }) if path == dir
    ));

    let write = || make_dir().dir_created(Ok(())).expect("dir");
    assert_eq!(write().temp(), &temp);
    assert_eq!(write().content(), "schema_version = 1");
    let written = write()
        .written(Err(failure(FailureKind::Other)))
        .expect_err("fails");
    assert_eq!(written.remove_file, None);
    assert_eq!(written.remove_dir, dir);
    assert!(matches!(written.error, InstanceError::Write { path, .. } if path == temp));

    let rename = || write().written(Ok(())).expect("written");
    assert_eq!(rename().temp(), &temp);
    assert_eq!(rename().target(), &file);
    let renamed = rename()
        .moved(Err(failure(FailureKind::Other)))
        .expect_err("fails");
    assert_eq!(renamed.remove_file, Some(temp.clone()));
    assert_eq!(renamed.remove_dir, dir);
    assert!(matches!(
        renamed.error,
        InstanceError::Rename { from, to, .. } if from == temp && to == file
    ));
    assert!(rename().moved(Ok(())).is_ok());
}

#[test]
fn encoding_failure_is_reported() {
    let repository = repository();
    let instance = Instance::new("Survival", "1.21.8").expect("instance");
    let refused = toml::to_string(&1u32);
    assert!(refused.is_err());
    assert!(matches!(
        repository.start_create(&instance).encoded(refused),
        Err(InstanceError::Encode(_))
    ));
}

#[test]
fn listing_entries() {
    let repository = repository();
    let root = PathBuf::from("/data/instances");
    let entry = root.join(SAMPLE_ID);
    assert!(repository
        .start_list()
        .opened(Err(failure(FailureKind::NotFound)))
        .expect("no root")
        .is_none());
    assert!(matches!(
        repository.start_list().opened(Err(failure(FailureKind::Other))),
        Err(InstanceError::Read { .. })
    ));
    let mut scan = repository
        .start_list()
        .opened(Ok(()))
        .expect("root")
        .expect("a scan");

    assert!(matches!(
        scan.entry(Err(failure(FailureKind::Other))),
        Err(InstanceError::Read { path, .. }) if path == root
    ));
    assert!(matches!(
        scan.entry(Ok((entry.clone(), Err(failure(FailureKind::Other))))),
        Err(InstanceError::Metadata { path, .. }) if path == entry
    ));
    assert!(matches!(
        scan.entry(Ok((entry.clone(), Ok(EntryKind::Symlink)))),
        Err(InstanceError::SymlinkStorage(_))
    ));
    assert!(scan
        .entry(Ok((entry.clone(), Ok(EntryKind::File))))
        .expect("skip")
        .is_none());
    let candidate = || {
        scan.entry(Ok((entry.clone(), Ok(EntryKind::Directory))))
            .expect("dir")
            .expect("a candidate")
    };
    assert_eq!(candidate().file(), &entry.join("instance.toml"));

    assert!(candidate().examined(false, None).expect("skip").is_none());
    assert!(matches!(
        candidate().examined(true, None),
        Err(InstanceError::InvalidStorageEntry(_))
    ));
    assert!(matches!(
        candidate().examined(true, Some("notes".to_string())),
        Err(InstanceError::InvalidId(text)) if text == "notes"
    ));
    let load = candidate()
        .examined(true, Some(SAMPLE_ID.to_string()))
        .expect("id")
        .expect("a load");
    assert_eq!(load.path(), &entry.join("instance.toml"));

    let body_of = |load: LoadStart| -> LoadBody {
        load.inspected(Ok(EntryKind::File))
            .expect("file")
            .read(Ok(String::new()))
            .expect("read")
            .header_parsed(Ok(SchemaHeader { schema_version: 1 }))
            .expect("header")
    };
    const BETA: &str = "019c0000-0000-7000-8000-0000000000b0";
    const ALPHA: &str = "019c0000-0000-7000-8000-0000000000a0";
    let loaded_from = |id: &str| {
        let dir = root.join(id);
        scan.entry(Ok((dir, Ok(EntryKind::Directory))))
            .expect("dir")
            .expect("a candidate")
            .examined(true, Some(id.to_string()))
            .expect("id")
            .expect("a load")
    };
    let beta_load = body_of(loaded_from(BETA));
    let alpha_load = body_of(loaded_from(ALPHA));
    let mismatched_load = body_of(loaded_from(ALPHA));
    scan.add_loaded(beta_load, Ok(sample_file(BETA, "beta", "1.21.8")))
        .expect("beta");
    scan.add_loaded(alpha_load, Ok(sample_file(ALPHA, "alpha", "1.21.8")))
        .expect("alpha");
    assert!(matches!(
        scan.add_loaded(mismatched_load, Ok(sample_file(BETA, "beta", "1.21.8"))),
        Err(InstanceError::StorageIdMismatch { .. })
    ));
    let listed = scan.finish();
    assert_eq!(listed.len(), 2);
    assert_eq!(listed[0].name(), "alpha");
    assert_eq!(listed[0].id().to_string(), ALPHA);
    assert_eq!(listed[1].name(), "beta");
    assert_eq!(listed[1].id().to_string(), BETA);
}

#[test]
fn equal_names_are_ordered_by_id() {
    let low = Instance::try_from_file(sample_file(
        "019c0000-0000-7000-8000-000000000001",
        "same",
        "1",
    ))
    .expect("low");
    let high = Instance::try_from_file(sample_file(
        "019c0000-0000-7000-8000-000000000002",
        "same",
        "1",
    ))
    .expect("high");
    let other = Instance::try_from_file(sample_file(
        "019c0000-0000-7000-8000-000000000000",
        "samf",
        "1",
    ))
    .expect("other");
    let listed = sort_instances(vec![other.clone(), high.clone(), low.clone()]);
    assert_eq!(listed, vec![low, high, other]);
}
