//! What the drive reports about a stored file, as far as the application reads it.

use vstd::prelude::*;

verus! {

/// A file stored on the drive.
#[derive(Debug, Clone, PartialEq, Eq)]
pub struct DriveItem {
    pub file: DriveItemFile,
}

/// The file facet of a drive item.
#[derive(Debug, Clone, PartialEq, Eq)]
pub struct DriveItemFile {
    pub hashes: DriveItemHashes,
}

/// The hashes the drive computed for a file's content.
#[derive(Debug, Clone, PartialEq, Eq)]
pub struct DriveItemHashes {
    /// SHA-256 of the content, as upper-case hexadecimal text.
    pub sha256_hash: String,
}

} // verus!
