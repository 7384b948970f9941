//! The repository interface and the filesystem layout of instance storage.
//!
//! Layout: `<root>/<id>/instance.toml`, written first to
//! `<root>/<id>/instance.toml.tmp` and then moved into place.

use std::path::PathBuf;
use vstd::prelude::*;

use crate::error::InstanceError;
use crate::instance::model::{uuid_text, Instance, InstanceId};

verus! {

/// The path that `Path::join` gives for `base` and a relative `segment`.
pub uninterp spec fn joined_path(base: PathBuf, segment: Seq<char>) -> PathBuf;

/// Calls `std::path::Path::join`.
#[verifier::external_body]
pub(crate) fn join_path(base: &PathBuf, segment: &str) -> (joined: PathBuf)
    ensures
        joined == joined_path(*base, segment@),
{
    base.join(segment)
}

/// The name of the file that stores an instance inside its directory.
pub open spec fn instance_file_name() -> Seq<char> {
    seq!['i', 'n', 's', 't', 'a', 'n', 'c', 'e', '.', 't', 'o', 'm', 'l']
}

/// The name of the file that is written before it is moved into place.
pub open spec fn temp_file_name() -> Seq<char> {
    instance_file_name() + seq!['.', 't', 'm', 'p']
}

/// What kind of entry a path names, read without following symbolic links.
#[derive(Debug, Clone, Copy, PartialEq, Eq, Structural)]
pub enum EntryKind {
    Symlink,
    Directory,
    File,
    Other,
}

/// The part of an I/O error's kind that storage decisions read.
#[derive(Debug, Clone, Copy, PartialEq, Eq, Structural)]
pub enum FailureKind {
    NotFound,
    AlreadyExists,
    Other,
}

/// A failed filesystem call: its kind and the error itself.
#[derive(Debug)]
pub struct IoFailure {
    pub kind: FailureKind,
    pub source: std::io::Error,
}

/// A failed step of storing an instance, with what must be removed again
/// before the error is reported. Failures to remove are ignored.
#[derive(Debug)]
pub struct Abandon {
    pub remove_file: Option<PathBuf>,
    pub remove_dir: PathBuf,
    pub error: InstanceError,
}

/// Where instances are kept. Implementations answer for one storage each;
/// `get` gives back only an instance with the id that was asked for.
pub trait InstanceRepository {
    /// Stores a new instance.
    fn create(&self, instance: &Instance) -> Result<(), InstanceError>;

    /// The instance with this id, or `None` when there is none.
    fn get(&self, id: &InstanceId) -> (found: Result<Option<Instance>, InstanceError>)
        ensures
            found matches Ok(Some(i)) ==> i@.id == id@,
    ;

    /// All stored instances.
    fn list(&self) -> Result<Vec<Instance>, InstanceError>;

    /// Removes the instance with this id.
    fn delete(&self, id: &InstanceId) -> Result<(), InstanceError>;
}

/// Instances stored as TOML files under a root directory.
#[derive(Debug, Clone)]
pub struct FileInstanceRepository {
    root: PathBuf,
}

impl FileInstanceRepository {
    /// A repository rooted at `root`. Nothing is touched until it is used.
    pub fn new(root: PathBuf) -> (repository: Self)
        ensures
            repository.root_path() == root,
    {
        Self { root }
    }

    /// The root directory, as a value for contracts.
    pub closed spec fn root_path(&self) -> PathBuf {
        self.root
    }

    /// The root directory.
    pub fn root(&self) -> (root: &PathBuf)
        ensures
            *root == self.root_path(),
    {
        &self.root
    }

    /// The directory of an instance: `<root>/<id>`.
    pub open spec fn dir_of(&self, id: u128) -> PathBuf {
        joined_path(self.root_path(), uuid_text(id))
    }

    /// The file of an instance: `<root>/<id>/instance.toml`.
    pub open spec fn file_of(&self, id: u128) -> PathBuf {
        joined_path(self.dir_of(id), instance_file_name())
    }

    /// The file written before it is moved into place: `<root>/<id>/instance.toml.tmp`.
    pub open spec fn temp_of(&self, id: u128) -> PathBuf {
        joined_path(self.dir_of(id), temp_file_name())
    }

    /// The directory of an instance.
    pub fn instance_dir(&self, id: &InstanceId) -> (dir: PathBuf)
        ensures
            dir == self.dir_of(id@),
    {
        join_path(&self.root, id.to_string().as_str())
    }

    /// The file of an instance.
    pub fn instance_file(&self, id: &InstanceId) -> (file: PathBuf)
        ensures
            file == self.file_of(id@),
    {
        instance_file_in(&self.instance_dir(id))
    }

    /// The file written before it is moved into place.
    pub fn temp_file(&self, id: &InstanceId) -> (file: PathBuf)
        ensures
            file == self.temp_of(id@),
    {
        let dir = self.instance_dir(id);
        proof {
            reveal_strlit("instance.toml.tmp");
            assert("instance.toml.tmp"@ =~= temp_file_name());
        }
        join_path(&dir, "instance.toml.tmp")
    }
}

/// The instance file inside a directory.
pub(crate) fn instance_file_in(dir: &PathBuf) -> (file: PathBuf)
    ensures
        file == joined_path(*dir, instance_file_name()),
{
    proof {
        reveal_strlit("instance.toml");
        assert("instance.toml"@ =~= instance_file_name());
    }
    join_path(dir, "instance.toml")
}


} // verus!
