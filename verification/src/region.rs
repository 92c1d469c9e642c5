//! Immutable snapshots of registered archives.

use vstd::prelude::*;

use crate::bounds::Bounds;

verus! {

/// Snapshot of a registered archive: produced when an archive is
/// registered, never mutated afterwards, only replaced by removal.
#[derive(Debug)]
pub struct RegionRecord {
    /// Geographic bounds from the archive's header.
    pub bounds: Bounds,
    /// File name, unique among registered sources at any instant.
    pub file_name: String,
    /// Bytes on disk at registration time.
    pub file_size: u64,
}

impl RegionRecord {
    /// The geographic bounds recorded at registration.
    pub fn bounds(&self) -> (r: Bounds)
        ensures
            r == self.bounds,
    {
        self.bounds
    }

    /// The unique file name of the archive.
    pub fn file_name(&self) -> (r: String)
        ensures
            r@ == self.file_name@,
    {
        self.file_name.clone()
    }

    /// The size of the archive on disk at registration time.
    pub fn file_size(&self) -> (r: u64)
        ensures
            r == self.file_size,
    {
        self.file_size
    }

    /// A field-for-field copy.
    pub fn duplicate(&self) -> (r: RegionRecord)
        ensures
            r == *self,
    {
        RegionRecord {
            bounds: self.bounds,
            file_name: self.file_name.clone(),
            file_size: self.file_size,
        }
    }
}

} // verus!
