//! Instance management.

pub mod listing;
pub mod model;
pub mod repository;
pub mod schema;
pub mod service;
pub mod steps;

pub use model::{
    CommandSpec, CustomCommands, Instance, InstanceId, JavaConfig, LaunchConfig, LoaderConfig,
    MinecraftConfig,
};
pub use repository::{FileInstanceRepository, InstanceRepository};
pub use service::{CreateInstanceRequest, InstanceService};
