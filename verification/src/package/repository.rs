//! Package repositories.

use vstd::prelude::*;

verus! {

/// Package repository source.
#[derive(Debug, Clone)]
pub struct Repository {
    pub name: String,
    pub url: String,
    pub enabled: bool,
}

/// Package metadata from a repository.
#[derive(Debug, Clone)]
pub struct PackageMetadata {
    pub name: String,
    pub version: String,
    pub description: String,
    pub size: u64,
    pub sha256: String,
    pub dependencies: Vec<String>,
}

} // verus!
