//! Virtual filesystem: capabilities, the mount table, providers, the service that
//! enforces capabilities, permission health checks and the metadata cache.

pub mod capabilities;
pub mod path;
pub(crate) mod keyed;
pub mod mount;
pub mod provider;
pub mod service;
pub mod health;
pub mod cache;

pub use capabilities::{
    check_operation, get_capabilities_for_path, FsType, OperationCheck, ToolCompatibility, ToolCompatibilityResult,
    VfsCapabilities, VfsOperation,
};
pub use cache::{CacheStats, MetadataCache};
pub use health::{AlwaysValidProbe, HealthMonitor, MountHealth, PermissionProbe, PermissionState};
pub use mount::{MountPoint, MountSource, MountTable};
pub use provider::{DirEntry, FileMetadata, FsProvider, InternalProvider, IosProvider};
pub use service::{VfsOutcome, VfsService};
