//! The errors of instance management.

use std::path::PathBuf;
use vstd::prelude::*;

verus! {

/// Why an instance operation failed.
#[derive(Debug)]
#[allow(inconsistent_fields)]
pub enum InstanceError {
    /// The instance name is empty or white space only.
    EmptyName,
    /// The Minecraft version is empty or white space only.
    EmptyMinecraftVersion,
    /// The text is not a valid instance id.
    InvalidId(String),
    /// An instance with this id is already stored.
    AlreadyExists(String),
    /// No instance with this id is stored.
    NotFound(String),
    /// The file declares a schema version that this library does not read.
    UnsupportedSchemaVersion { found: u32, supported: u32 },
    /// The id in the file differs from the directory it is stored in.
    StorageIdMismatch { directory_id: String, file_id: String },
    /// The storage entry is a symbolic link, which is never followed.
    SymlinkStorage(PathBuf),
    /// The storage entry has the wrong kind (a file where a directory belongs, or the reverse).
    InvalidStorageEntry(PathBuf),
    /// Reading failed.
    Read { path: PathBuf, source: std::io::Error },
    /// Writing failed.
    Write { path: PathBuf, source: std::io::Error },
    /// Creating a directory failed.
    CreateDirectory { path: PathBuf, source: std::io::Error },
    /// Removing a directory failed.
    RemoveDirectory { path: PathBuf, source: std::io::Error },
    /// Inspecting an entry failed.
    Metadata { path: PathBuf, source: std::io::Error },
    /// Moving the finished file into place failed.
    Rename { from: PathBuf, to: PathBuf, source: std::io::Error },
    /// The file is not valid TOML for an instance.
    Decode { path: PathBuf, source: toml::de::Error },
    /// The instance could not be written as TOML.
    Encode(toml::ser::Error),
}

} // verus!
