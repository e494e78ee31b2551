//! The fixed-shape records that a registry response is reduced to.

use vstd::prelude::*;

verus! {

/// One released version of a package, as the registry reports it.
/// Immutable once built; the download count and the size are optional
/// in the registry's schema.
#[derive(Debug)]
pub struct VersionRecord {
    pub date: String,
    pub semver: String,
    pub downloads: Option<u64>,
    pub size_in_bytes: Option<u64>,
    pub license: String,
}

/// Everything the report needs to know about a package.  The versions
/// keep the order in which the registry returned them; they are never
/// re-sorted.
#[derive(Debug)]
pub struct PackageRecord {
    pub name: String,
    pub description: String,
    pub downloads: Option<u64>,
    pub recent_downloads: Option<u64>,
    pub repository: String,
    pub documentation: String,
    pub versions: Vec<VersionRecord>,
    pub keywords: Vec<String>,
    pub categories: Vec<String>,
}

} // verus!
