//! Core application and domain logic of the Apodize launcher: Minecraft
//! instances, their persisted file form, the storage decisions and the
//! application service. Nothing here renders output for users.

pub mod error;
pub mod foreign;
pub mod instance;
pub mod text;

pub use error::InstanceError;
