//! Installed packages.

use vstd::prelude::*;

verus! {

/// Package manager for installing terminal tools (not implemented yet).
pub struct PackageManager {}

/// Information about an installed package.
#[derive(Debug, Clone)]
pub struct PackageInfo {
    pub name: String,
    pub version: String,
    pub install_path: String,
}

} // verus!
