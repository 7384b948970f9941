//! The storage operations of a file-backed repository, as sequences of steps.
//! Each step names the filesystem or TOML work that its caller performs next
//! and takes the answer, to go on to the next step or to finish. A step is
//! reached only from the one before it, so no step can be skipped or reordered.

use std::path::PathBuf;
use vstd::prelude::*;

use crate::error::InstanceError;
use crate::instance::listing::{in_listing_order, sort_instances};
use crate::instance::model::{uuid_parsed, uuid_text, Instance, InstanceId};
use crate::text::text_lt;
use crate::instance::repository::{
    instance_file_in, instance_file_name, joined_path, Abandon, EntryKind, FailureKind,
    FileInstanceRepository, IoFailure,
};
use crate::instance::schema::{
    file_view_of, instance_of_file, rejects_file, InstanceFileV1, SchemaHeader,
    CURRENT_INSTANCE_SCHEMA_VERSION,
};

verus! {

/// The file a load reads, and the id that the file must carry: the id of the
/// directory it was found in.
#[derive(Debug)]
pub struct LoadTarget {
    pub path: PathBuf,
    pub expected: InstanceId,
}

/// Loading: inspect `path` without following links.
#[derive(Debug)]
pub struct LoadStart {
    target: LoadTarget,
}

/// Loading: read `path` as text.
#[derive(Debug)]
pub struct LoadRead {
    target: LoadTarget,
}

/// Loading: parse the header (`schema_version`) of `content`.
#[derive(Debug)]
pub struct LoadHeader {
    target: LoadTarget,
    content: String,
}

/// Loading: parse all of `content` as an instance file.
#[derive(Debug)]
pub struct LoadBody {
    target: LoadTarget,
    content: String,
}

impl LoadStart {
    /// The file and the expected id of this load.
    pub closed spec fn target(&self) -> LoadTarget {
        self.target
    }

    /// A load of `path`, which must carry `expected`.
    pub(crate) fn new(path: PathBuf, expected: InstanceId) -> (load: Self)
        ensures
            load.target() == (LoadTarget { path, expected }),
    {
        LoadStart { target: LoadTarget { path, expected } }
    }

    /// The path to inspect.
    pub fn path(&self) -> (path: &PathBuf)
        ensures
            *path == self.target().path,
    {
        &self.target.path
    }

    /// The file must be a regular file, not a link.
    pub fn inspected(self, inspected: Result<EntryKind, IoFailure>) -> (next: Result<
        LoadRead,
        InstanceError,
    >)
        ensures
            match inspected {
                Err(f) => next matches Err(InstanceError::Metadata { path: p, source })
                    && p == self.target().path && source == f.source,
                Ok(EntryKind::Symlink) => next matches Err(InstanceError::SymlinkStorage(p))
                    && p == self.target().path,
                Ok(EntryKind::File) => next matches Ok(n) && n.target() == self.target(),
                Ok(_) => next matches Err(InstanceError::InvalidStorageEntry(p)) && p
                    == self.target().path,
            },
    {
        match inspected {
            Err(f) => Err(InstanceError::Metadata { path: self.target.path, source: f.source }),
            Ok(EntryKind::Symlink) => Err(InstanceError::SymlinkStorage(self.target.path)),
            Ok(EntryKind::File) => Ok(LoadRead { target: self.target }),
            Ok(_) => Err(InstanceError::InvalidStorageEntry(self.target.path)),
        }
    }
}

impl LoadRead {
    /// The file and the expected id of this load.
    pub closed spec fn target(&self) -> LoadTarget {
        self.target
    }

    /// The path to read.
    pub fn path(&self) -> (path: &PathBuf)
        ensures
            *path == self.target().path,
    {
        &self.target.path
    }

    /// The text of the file, or why it could not be read.
    pub fn read(self, read: Result<String, IoFailure>) -> (next: Result<LoadHeader, InstanceError>)
        ensures
            match read {
                Err(f) => next matches Err(InstanceError::Read { path: p, source })
                    && p == self.target().path && source == f.source,
                Ok(content) => next matches Ok(n) && n.target() == self.target() && n.text()
                    == content,
            },
    {
        match read {
            Err(f) => Err(InstanceError::Read { path: self.target.path, source: f.source }),
            Ok(content) => Ok(LoadHeader { target: self.target, content }),
        }
    }
}

impl LoadHeader {
    /// The file and the expected id of this load.
    pub closed spec fn target(&self) -> LoadTarget {
        self.target
    }

    /// The text read.
    pub closed spec fn text(&self) -> String {
        self.content
    }

    /// The text to parse the header of.
    pub fn content(&self) -> (content: &str)
        ensures
            content@ == self.text()@,
    {
        self.content.as_str()
    }

    /// The header must parse and name the supported schema version. An
    /// unsupported version is reported before the rest of the file is parsed,
    /// so that a file of a later schema is never misread.
    pub fn header_parsed(self, header: Result<SchemaHeader, toml::de::Error>) -> (next: Result<
        LoadBody,
        InstanceError,
    >)
        ensures
            match header {
                Err(e) => next matches Err(InstanceError::Decode { path: p, source })
                    && p == self.target().path && source == e,
                Ok(h) => if h.schema_version == CURRENT_INSTANCE_SCHEMA_VERSION {
                    next matches Ok(n) && n.target() == self.target() && n.text() == self.text()
                } else {
                    next matches Err(InstanceError::UnsupportedSchemaVersion { found, supported })
                        && found == h.schema_version && supported
                        == CURRENT_INSTANCE_SCHEMA_VERSION
                },
            },
    {
        match header {
            Err(e) => Err(InstanceError::Decode { path: self.target.path, source: e }),
            Ok(h) => {
                if h.schema_version != CURRENT_INSTANCE_SCHEMA_VERSION {
                    Err(
                        InstanceError::UnsupportedSchemaVersion {
                            found: h.schema_version,
                            supported: CURRENT_INSTANCE_SCHEMA_VERSION,
                        },
                    )
                } else {
                    Ok(LoadBody { target: self.target, content: self.content })
                }
            },
        }
    }
}

impl LoadBody {
    /// The file and the expected id of this load.
    pub closed spec fn target(&self) -> LoadTarget {
        self.target
    }

    /// The text read.
    pub closed spec fn text(&self) -> String {
        self.content
    }

    /// The text to parse as an instance file.
    pub fn content(&self) -> (content: &str)
        ensures
            content@ == self.text()@,
    {
        self.content.as_str()
    }

    /// The instance that the parsed file describes. A file found in the
    /// directory of an id must carry that id.
    pub fn body_parsed(self, file: Result<InstanceFileV1, toml::de::Error>) -> (instance: Result<
        Instance,
        InstanceError,
    >)
        ensures
            match file {
                Err(e) => instance matches Err(InstanceError::Decode { path: p, source })
                    && p == self.target().path && source == e,
                Ok(f) => match instance_of_file(f@) {
                    None => instance matches Err(e) && rejects_file(f@, e),
                    Some(iv) => if self.target().expected@ != iv.id {
                        instance matches Err(
                            InstanceError::StorageIdMismatch { directory_id, file_id },
                        ) && directory_id@ == uuid_text(self.target().expected@) && file_id@
                            == uuid_text(iv.id)
                    } else {
                        instance matches Ok(i) && i@ == iv
                    },
                },
            },
    {
        match file {
            Err(e) => Err(InstanceError::Decode { path: self.target.path, source: e }),
            Ok(f) => {
                let instance = Instance::try_from_file(f)?;
                let x = self.target.expected;
                if instance.id().to_u128() != x.to_u128() {
                    return Err(
                        InstanceError::StorageIdMismatch {
                            directory_id: x.to_string(),
                            file_id: instance.id().to_string(),
                        },
                    );
                }
                Ok(instance)
            },
        }
    }
}

/// Getting: inspect the instance's directory.
#[derive(Debug)]
pub struct GetStart {
    dir: PathBuf,
    file: PathBuf,
    id: InstanceId,
}

impl GetStart {
    /// The instance's directory.
    pub closed spec fn dir_path(&self) -> PathBuf {
        self.dir
    }

    /// The instance's file.
    pub closed spec fn file_path(&self) -> PathBuf {
        self.file
    }

    /// The id looked up.
    pub closed spec fn id(&self) -> InstanceId {
        self.id
    }

    /// The directory to inspect.
    pub fn dir(&self) -> (dir: &PathBuf)
        ensures
            *dir == self.dir_path(),
    {
        &self.dir
    }

    /// A missing directory means that there is no such instance; a link or a
    /// non-directory is refused; a directory leads to loading its file, which
    /// must carry the id.
    pub fn inspected(self, inspected: Result<EntryKind, IoFailure>) -> (next: Result<
        Option<LoadStart>,
        InstanceError,
    >)
        ensures
            match inspected {
                Err(f) => if f.kind == FailureKind::NotFound {
                    next matches Ok(None)
                } else {
                    next matches Err(InstanceError::Metadata { path: p, source }) && p
                        == self.dir_path() && source == f.source
                },
                Ok(EntryKind::Symlink) => next matches Err(InstanceError::SymlinkStorage(p)) && p
                    == self.dir_path(),
                Ok(EntryKind::Directory) => next matches Ok(Some(load)) && load.target() == (
                LoadTarget { path: self.file_path(), expected: self.id() }),
                Ok(_) => next matches Err(InstanceError::InvalidStorageEntry(p)) && p
                    == self.dir_path(),
            },
    {
        match inspected {
            Err(f) => {
                if f.kind == FailureKind::NotFound {
                    Ok(None)
                } else {
                    Err(InstanceError::Metadata { path: self.dir, source: f.source })
                }
            },
            Ok(EntryKind::Symlink) => Err(InstanceError::SymlinkStorage(self.dir)),
            Ok(EntryKind::Directory) => Ok(Some(LoadStart::new(self.file, self.id))),
            Ok(_) => Err(InstanceError::InvalidStorageEntry(self.dir)),
        }
    }
}

/// Deleting: inspect the instance's directory.
#[derive(Debug)]
pub struct DeleteStart {
    dir: PathBuf,
    id: InstanceId,
}

/// Deleting: remove the directory and all it holds.
#[derive(Debug)]
pub struct DeleteRemove {
    dir: PathBuf,
}

impl DeleteStart {
    /// The instance's directory.
    pub closed spec fn dir_path(&self) -> PathBuf {
        self.dir
    }

    /// The id to delete.
    pub closed spec fn id(&self) -> InstanceId {
        self.id
    }

    /// The directory to inspect.
    pub fn dir(&self) -> (dir: &PathBuf)
        ensures
            *dir == self.dir_path(),
    {
        &self.dir
    }

    /// The directory must exist and be a real directory.
    pub fn inspected(self, inspected: Result<EntryKind, IoFailure>) -> (next: Result<
        DeleteRemove,
        InstanceError,
    >)
        ensures
            match inspected {
                Err(f) => if f.kind == FailureKind::NotFound {
                    next matches Err(InstanceError::NotFound(text)) && text@ == uuid_text(
                        self.id()@,
                    )
                } else {
                    next matches Err(InstanceError::Metadata { path: p, source }) && p
                        == self.dir_path() && source == f.source
                },
                Ok(EntryKind::Symlink) => next matches Err(InstanceError::SymlinkStorage(p)) && p
                    == self.dir_path(),
                Ok(EntryKind::Directory) => next matches Ok(n) && n.dir_path() == self.dir_path(),
                Ok(_) => next matches Err(InstanceError::InvalidStorageEntry(p)) && p
                    == self.dir_path(),
            },
    {
        match inspected {
            Err(f) => {
                if f.kind == FailureKind::NotFound {
                    Err(InstanceError::NotFound(self.id.to_string()))
                } else {
                    Err(InstanceError::Metadata { path: self.dir, source: f.source })
                }
            },
            Ok(EntryKind::Symlink) => Err(InstanceError::SymlinkStorage(self.dir)),
            Ok(EntryKind::Directory) => Ok(DeleteRemove { dir: self.dir }),
            Ok(_) => Err(InstanceError::InvalidStorageEntry(self.dir)),
        }
    }
}

impl DeleteRemove {
    /// The directory to remove.
    pub closed spec fn dir_path(&self) -> PathBuf {
        self.dir
    }

    /// The directory to remove.
    pub fn dir(&self) -> (dir: &PathBuf)
        ensures
            *dir == self.dir_path(),
    {
        &self.dir
    }

    /// The outcome of removing the directory.
    pub fn removed(self, removed: Result<(), IoFailure>) -> (done: Result<(), InstanceError>)
        ensures
            match removed {
                Err(f) => done matches Err(InstanceError::RemoveDirectory { path: p, source })
                    && p == self.dir_path() && source == f.source,
                Ok(()) => done is Ok,
            },
    {
        match removed {
            Err(f) => Err(InstanceError::RemoveDirectory { path: self.dir, source: f.source }),
            Ok(()) => Ok(()),
        }
    }
}

/// The paths of one creation: the root, the instance's directory, the file
/// first written and the file it is moved to.
#[derive(Debug)]
pub struct CreatePlan {
    pub id: InstanceId,
    pub root: PathBuf,
    pub dir: PathBuf,
    pub temp: PathBuf,
    pub target: PathBuf,
}

/// Creating: write the instance file as TOML text.
#[derive(Debug)]
pub struct CreateEncode {
    plan: CreatePlan,
    file: InstanceFileV1,
}

/// Creating: create the root directory and its parents.
#[derive(Debug)]
pub struct CreateRoot {
    plan: CreatePlan,
    content: String,
}

/// Creating: create the instance's own directory, which must not exist yet.
#[derive(Debug)]
pub struct CreateDir {
    plan: CreatePlan,
    content: String,
}

/// Creating: write the text to the temporary file.
#[derive(Debug)]
pub struct CreateWrite {
    plan: CreatePlan,
    content: String,
}

/// Creating: move the temporary file into place.
#[derive(Debug)]
pub struct CreateMove {
    plan: CreatePlan,
}

impl CreateEncode {
    /// The paths of this creation.
    pub closed spec fn plan(&self) -> CreatePlan {
        self.plan
    }

    /// The instance file to encode.
    pub closed spec fn file_form(&self) -> InstanceFileV1 {
        self.file
    }

    /// The instance file to encode.
    pub fn file(&self) -> (file: &InstanceFileV1)
        ensures
            *file == self.file_form(),
    {
        &self.file
    }

    /// The TOML text, or why it could not be written.
    pub fn encoded(self, encoded: Result<String, toml::ser::Error>) -> (next: Result<
        CreateRoot,
        InstanceError,
    >)
        ensures
            match encoded {
                Err(e) => next matches Err(InstanceError::Encode(source)) && source == e,
                Ok(content) => next matches Ok(n) && n.plan() == self.plan() && n.text() == content,
            },
    {
        match encoded {
            Err(e) => Err(InstanceError::Encode(e)),
            Ok(content) => Ok(CreateRoot { plan: self.plan, content }),
        }
    }
}

impl CreateRoot {
    /// The paths of this creation.
    pub closed spec fn plan(&self) -> CreatePlan {
        self.plan
    }

    /// The text to store.
    pub closed spec fn text(&self) -> String {
        self.content
    }

    /// The root directory to create.
    pub fn root(&self) -> (root: &PathBuf)
        ensures
            *root == self.plan().root,
    {
        &self.plan.root
    }

    /// The outcome of creating the root directory.
    pub fn root_created(self, created: Result<(), IoFailure>) -> (next: Result<
        CreateDir,
        InstanceError,
    >)
        ensures
            match created {
                Err(f) => next matches Err(InstanceError::CreateDirectory { path: p, source })
                    && p == self.plan().root && source == f.source,
                Ok(()) => next matches Ok(n) && n.plan() == self.plan() && n.text() == self.text(),
            },
    {
        match created {
            Err(f) => Err(InstanceError::CreateDirectory { path: self.plan.root, source: f.source }),
            Ok(()) => Ok(CreateDir { plan: self.plan, content: self.content }),
        }
    }
}

impl CreateDir {
    /// The paths of this creation.
    pub closed spec fn plan(&self) -> CreatePlan {
        self.plan
    }

    /// The text to store.
    pub closed spec fn text(&self) -> String {
        self.content
    }

    /// The instance's directory to create.
    pub fn dir(&self) -> (dir: &PathBuf)
        ensures
            *dir == self.plan().dir,
    {
        &self.plan.dir
    }

    /// The outcome of creating the instance's directory. A directory that
    /// exists already means that the id is taken.
    pub fn dir_created(self, created: Result<(), IoFailure>) -> (next: Result<
        CreateWrite,
        InstanceError,
    >)
        ensures
            match created {
                Err(f) => if f.kind == FailureKind::AlreadyExists {
                    next matches Err(InstanceError::AlreadyExists(text)) && text@ == uuid_text(
                        self.plan().id@,
                    )
                } else {
                    next matches Err(InstanceError::CreateDirectory { path: p, source }) && p
                        == self.plan().dir && source == f.source
                },
                Ok(()) => next matches Ok(n) && n.plan() == self.plan() && n.text() == self.text(),
            },
    {
        match created {
            Err(f) => {
                if f.kind == FailureKind::AlreadyExists {
                    Err(InstanceError::AlreadyExists(self.plan.id.to_string()))
                } else {
                    Err(InstanceError::CreateDirectory { path: self.plan.dir, source: f.source })
                }
            },
            Ok(()) => Ok(CreateWrite { plan: self.plan, content: self.content }),
        }
    }
}

impl CreateWrite {
    /// The paths of this creation.
    pub closed spec fn plan(&self) -> CreatePlan {
        self.plan
    }

    /// The text to store.
    pub closed spec fn text(&self) -> String {
        self.content
    }

    /// The temporary file to write.
    pub fn temp(&self) -> (temp: &PathBuf)
        ensures
            *temp == self.plan().temp,
    {
        &self.plan.temp
    }

    /// The text to write.
    pub fn content(&self) -> (content: &str)
        ensures
            content@ == self.text()@,
    {
        self.content.as_str()
    }

    /// The outcome of writing the temporary file. On failure the new directory
    /// is removed again.
    pub fn written(self, written: Result<(), IoFailure>) -> (next: Result<CreateMove, Abandon>)
        ensures
            match written {
                Err(f) => next matches Err(a) && a.remove_file is None && a.remove_dir
                    == self.plan().dir && (a.error matches InstanceError::Write { path: p, source }
                    && p == self.plan().temp && source == f.source),
                Ok(()) => next matches Ok(n) && n.plan() == self.plan(),
            },
    {
        match written {
            Err(f) => Err(
                Abandon {
                    remove_file: None,
                    remove_dir: self.plan.dir,
                    error: InstanceError::Write { path: self.plan.temp, source: f.source },
                },
            ),
            Ok(()) => Ok(CreateMove { plan: self.plan }),
        }
    }
}

impl CreateMove {
    /// The paths of this creation.
    pub closed spec fn plan(&self) -> CreatePlan {
        self.plan
    }

    /// The file to move.
    pub fn temp(&self) -> (temp: &PathBuf)
        ensures
            *temp == self.plan().temp,
    {
        &self.plan.temp
    }

    /// Where the file is moved.
    pub fn target(&self) -> (target: &PathBuf)
        ensures
            *target == self.plan().target,
    {
        &self.plan.target
    }

    /// The outcome of moving the file into place. On failure the temporary
    /// file and the new directory are removed again.
    pub fn moved(self, moved: Result<(), IoFailure>) -> (done: Result<(), Abandon>)
        ensures
            match moved {
                Err(f) => done matches Err(a) && a.remove_file == Some(self.plan().temp)
                    && a.remove_dir == self.plan().dir && (a.error matches InstanceError::Rename {
                    from,
                    to,
                    source,
                } && from == self.plan().temp && to == self.plan().target && source == f.source),
                Ok(()) => done is Ok,
            },
    {
        match moved {
            Err(f) => Err(
                Abandon {
                    remove_file: Some(self.plan.temp.clone()),
                    remove_dir: self.plan.dir,
                    error: InstanceError::Rename {
                        from: self.plan.temp,
                        to: self.plan.target,
                        source: f.source,
                    },
                },
            ),
            Ok(()) => Ok(()),
        }
    }
}

/// Listing: open the root directory.
#[derive(Debug)]
pub struct ListStart {
    root: PathBuf,
}

/// Listing: the entries of the root, one at a time, and the instances loaded so far.
pub struct ListScan {
    root: PathBuf,
    found: Vec<Instance>,
    loads: Ghost<Seq<LoadTarget>>,
}

/// Listing: a directory of the root; whether it holds an instance file is asked next.
#[derive(Debug)]
pub struct ListCandidate {
    dir: PathBuf,
    file: PathBuf,
}

impl ListStart {
    /// The root directory.
    pub closed spec fn root_path(&self) -> PathBuf {
        self.root
    }

    /// The root directory to open.
    pub fn root(&self) -> (root: &PathBuf)
        ensures
            *root == self.root_path(),
    {
        &self.root
    }

    /// A missing root means that there are no instances.
    pub fn opened(self, opened: Result<(), IoFailure>) -> (next: Result<
        Option<ListScan>,
        InstanceError,
    >)
        ensures
            match opened {
                Err(f) => if f.kind == FailureKind::NotFound {
                    next matches Ok(None)
                } else {
                    next matches Err(InstanceError::Read { path: p, source }) && p
                        == self.root_path() && source == f.source
                },
                Ok(()) => next matches Ok(Some(scan)) && scan.root_path() == self.root_path()
                    && scan.found().len() == 0 && scan.loads().len() == 0,
            },
    {
        match opened {
            Err(f) => {
                if f.kind == FailureKind::NotFound {
                    Ok(None)
                } else {
                    Err(InstanceError::Read { path: self.root, source: f.source })
                }
            },
            Ok(()) => Ok(
                Some(ListScan { root: self.root, found: Vec::new(), loads: Ghost(Seq::empty()) }),
            ),
        }
    }
}

impl ListScan {
    /// The root directory.
    pub closed spec fn root_path(&self) -> PathBuf {
        self.root
    }

    /// The instances loaded so far.
    pub closed spec fn found(&self) -> Seq<Instance> {
        self.found@
    }

    /// One entry of the root, with the entry's path and kind: an entry that
    /// cannot be read or inspected fails the listing, a link is refused,
    /// anything but a directory is passed over.
    pub fn entry(&self, entry: Result<(PathBuf, Result<EntryKind, IoFailure>), IoFailure>) -> (next:
        Result<Option<ListCandidate>, InstanceError>)
        ensures
            match entry {
                Err(f) => next matches Err(InstanceError::Read { path: p, source }) && p
                    == self.root_path() && source == f.source,
                Ok((path, Err(f))) => next matches Err(InstanceError::Metadata { path: p, source })
                    && p == path && source == f.source,
                Ok((path, Ok(EntryKind::Symlink))) => next matches Err(
                    InstanceError::SymlinkStorage(p),
                ) && p == path,
                Ok((path, Ok(EntryKind::Directory))) => next matches Ok(Some(c)) && c.dir_path()
                    == path && c.file_path() == joined_path(path, instance_file_name()),
                Ok((_, Ok(_))) => next matches Ok(None),
            },
    {
        match entry {
            Err(f) => Err(InstanceError::Read { path: self.root.clone(), source: f.source }),
            Ok((path, Err(f))) => Err(InstanceError::Metadata { path, source: f.source }),
            Ok((path, Ok(EntryKind::Symlink))) => Err(InstanceError::SymlinkStorage(path)),
            Ok((path, Ok(EntryKind::Directory))) => {
                let file = instance_file_in(&path);
                Ok(Some(ListCandidate { dir: path, file }))
            },
            Ok((_, Ok(_))) => Ok(None),
        }
    }

    /// The loads whose instances were recorded, in order.
    pub closed spec fn loads(&self) -> Seq<LoadTarget> {
        self.loads@
    }

    /// Every recorded instance carries the id that its load expected: the id of
    /// the directory it was found in.
    #[verifier::type_invariant]
    spec fn found_by_their_loads(self) -> bool {
        &&& self.found@.len() == self.loads@.len()
        &&& forall|k: int|
            0 <= k < self.found@.len() ==> #[trigger] self.found@[k]@.id == self.loads@[k].expected@
    }

    /// Finishes the load of an entry's file from its parsed form, as
    /// `LoadBody::body_parsed` does, and records the instance it gives.
    pub fn add_loaded(
        &mut self,
        body: LoadBody,
        file: Result<InstanceFileV1, toml::de::Error>,
    ) -> (done: Result<(), InstanceError>)
        ensures
            final(self).root_path() == old(self).root_path(),
            match file {
                Err(e) => done matches Err(InstanceError::Decode { path: p, source }) && p
                    == body.target().path && source == e,
                Ok(f) => match instance_of_file(f@) {
                    None => done matches Err(e) && rejects_file(f@, e),
                    Some(iv) => if body.target().expected@ != iv.id {
                        done matches Err(
                            InstanceError::StorageIdMismatch { directory_id, file_id },
                        ) && directory_id@ == uuid_text(body.target().expected@) && file_id@
                            == uuid_text(iv.id)
                    } else {
                        done is Ok && final(self).found().len() == old(self).found().len() + 1
                            && final(self).found().drop_last() == old(self).found()
                            && final(self).found().last()@ == iv
                    },
                },
            },
            done is Ok ==> final(self).loads() == old(self).loads().push(body.target()),
            done is Err ==> final(self).found() == old(self).found() && final(self).loads()
                == old(self).loads(),
    {
        proof {
            use_type_invariant(&*self);
        }
        let ghost target = body.target();
        let instance = body.body_parsed(file)?;
        assert(instance@.id == target.expected@);
        let mut taken = ListScan {
            root: self.root.clone(),
            found: Vec::new(),
            loads: Ghost(Seq::empty()),
        };
        std::mem::swap(self, &mut taken);
        proof {
            use_type_invariant(&taken);
        }
        let ListScan { root, mut found, loads } = taken;
        let ghost before = found@;
        let ghost pushed = loads@.push(target);
        found.push(instance);
        proof {
            assert(found@ == before.push(instance));
            assert forall|k: int| 0 <= k < found@.len() implies #[trigger] found@[k]@.id
                == pushed[k].expected@ by {
                if k < before.len() {
                    assert(found@[k] == before[k]);
                    assert(before[k]@.id == loads@[k].expected@);
                }
            }
            assert(found@.drop_last() =~= before);
        }
        *self = ListScan { root, found, loads: Ghost(pushed) };
        Ok(())
    }

    /// The instances loaded, in listing order. Each one is an instance that was
    /// recorded, and carries the id of the directory it was loaded from.
    pub fn finish(self) -> (listed: Vec<Instance>)
        ensures
            listed@.to_multiset() == self.found().to_multiset(),
            in_listing_order(listed@),
            forall|i: int, j: int|
                0 <= i < j < listed@.len() ==> text_lt(
                    #[trigger] listed@[i]@.name,
                    #[trigger] listed@[j]@.name,
                ) || (listed@[i]@.name == listed@[j]@.name && listed@[i]@.id <= listed@[j]@.id),
            forall|j: int|
                0 <= j < listed@.len() ==> exists|k: int|
                    0 <= k < self.found().len() && k < self.loads().len() && #[trigger] listed@[j]
                        == self.found()[k] && listed@[j]@.id == self.loads()[k].expected@,
    {
        proof {
            use_type_invariant(&self);
        }
        let ghost found = self.found@;
        let ghost loads = self.loads@;
        let listed = sort_instances(self.found);
        proof {
            assert forall|j: int| 0 <= j < listed@.len() implies exists|k: int|
                0 <= k < found.len() && k < loads.len() && #[trigger] listed@[j] == found[k]
                    && listed@[j]@.id == loads[k].expected@ by {
                vstd::seq_lib::to_multiset_contains(listed@, listed@[j]);
                vstd::seq_lib::to_multiset_contains(found, listed@[j]);
                assert(listed@.contains(listed@[j]));
                let k: int = choose|k: int| 0 <= k < found.len() && found[k] == listed@[j];
                assert(found[k]@.id == loads[k].expected@);
            }
        }
        listed
    }
}

impl ListCandidate {
    /// The entry's directory.
    pub closed spec fn dir_path(&self) -> PathBuf {
        self.dir
    }

    /// The instance file inside the directory.
    pub closed spec fn file_path(&self) -> PathBuf {
        self.file
    }

    /// The instance file whose existence is asked.
    pub fn file(&self) -> (file: &PathBuf)
        ensures
            *file == self.file_path(),
    {
        &self.file
    }

    /// A directory without an instance file is passed over. Otherwise the
    /// directory's name must be text and an id, and the file is loaded, which
    /// must carry that id.
    pub fn examined(self, has_instance_file: bool, name: Option<String>) -> (next: Result<
        Option<LoadStart>,
        InstanceError,
    >)
        ensures
            !has_instance_file ==> next matches Ok(None),
            has_instance_file ==> match name {
                None => next matches Err(InstanceError::InvalidStorageEntry(p)) && p
                    == self.dir_path(),
                Some(n) => match uuid_parsed(n@) {
                    Some(v) => next matches Ok(Some(load)) && load.target().path
                        == self.file_path() && load.target().expected@ == v,
                    None => next matches Err(InstanceError::InvalidId(text)) && text@ == n@,
                },
            },
    {
        if !has_instance_file {
            return Ok(None);
        }
        match name {
            None => Err(InstanceError::InvalidStorageEntry(self.dir)),
            Some(n) => {
                let id = InstanceId::parse(n.as_str())?;
                Ok(Some(LoadStart::new(self.file, id)))
            },
        }
    }
}

impl FileInstanceRepository {
    /// Getting the instance with this id: its directory is inspected first.
    pub fn start_get(&self, id: &InstanceId) -> (start: GetStart)
        ensures
            start.dir_path() == self.dir_of(id@),
            start.file_path() == self.file_of(id@),
            start.id() == *id,
    {
        GetStart { dir: self.instance_dir(id), file: self.instance_file(id), id: *id }
    }

    /// Deleting the instance with this id: its directory is inspected first.
    pub fn start_delete(&self, id: &InstanceId) -> (start: DeleteStart)
        ensures
            start.dir_path() == self.dir_of(id@),
            start.id() == *id,
    {
        DeleteStart { dir: self.instance_dir(id), id: *id }
    }

    /// Creating `instance`: its file form is encoded first; it is then written
    /// to a temporary file in a new directory of its own and moved into place.
    pub fn start_create(&self, instance: &Instance) -> (start: CreateEncode)
        ensures
            start.file_form()@ == file_view_of(instance@),
            instance_of_file(start.file_form()@) == Some(instance@),
            start.plan().id@ == instance@.id,
            start.plan().root == self.root_path(),
            start.plan().dir == self.dir_of(instance@.id),
            start.plan().temp == self.temp_of(instance@.id),
            start.plan().target == self.file_of(instance@.id),
    {
        let id = instance.id();
        let plan = CreatePlan {
            id: *id,
            root: self.root().clone(),
            dir: self.instance_dir(id),
            temp: self.temp_file(id),
            target: self.instance_file(id),
        };
        CreateEncode { plan, file: InstanceFileV1::from_instance(instance) }
    }

    /// Listing: the root directory is opened first.
    pub fn start_list(&self) -> (start: ListStart)
        ensures
            start.root_path() == self.root_path(),
    {
        ListStart { root: self.root().clone() }
    }
}

} // verus!
