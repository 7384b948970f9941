//! Types of std and of the TOML crate that the library carries through without
//! looking inside them: filesystem paths, I/O errors and TOML errors.

use vstd::prelude::*;

verus! {

/// A filesystem path (`std::path::PathBuf`), held as an opaque value.
#[verifier::external_type_specification]
#[verifier::external_body]
pub struct ExPathBuf(std::path::PathBuf);

/// An I/O error (`std::io::Error`), held as an opaque value.
#[verifier::external_type_specification]
#[verifier::external_body]
pub struct ExIoError(std::io::Error);

/// The error of a failed TOML parse (`toml::de::Error`), held as an opaque value.
#[verifier::external_type_specification]
#[verifier::external_body]
pub struct ExTomlDecodeError(toml::de::Error);

/// The error of a failed TOML serialisation (`toml::ser::Error`), held as an opaque value.
#[verifier::external_type_specification]
#[verifier::external_body]
pub struct ExTomlEncodeError(toml::ser::Error);

/// `PathBuf::clone` gives back the same path.
pub assume_specification[ <std::path::PathBuf as Clone>::clone ](path: &std::path::PathBuf) -> (
    copy: std::path::PathBuf)
    ensures
        copy == *path,
;

} // verus!
