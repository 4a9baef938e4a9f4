//! Package management (not implemented yet): the records describing installed
//! packages and repository entries.

pub mod manager;
pub mod repository;

pub use self::manager::{PackageInfo, PackageManager};
pub use self::repository::{PackageMetadata, Repository};
