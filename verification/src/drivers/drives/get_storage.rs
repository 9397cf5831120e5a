//! Capacity of a drive that is already known, from a fresh capacity query.
//!
//! The query is made against the drive's path by whoever examines the host;
//! what it reported is handed in as a [`CapacityReading`]. Total and free
//! space come out of the same reading and are converted alike.

use vstd::prelude::*;
use super::Drive;
use super::capacity::{wide_bytes_to_gb, CapacityReading};

verus! {

impl Drive {
    /// Total space of the drive in whole gigabytes, from a capacity query
    /// against its path. A failed query gives zero, which means "unknown",
    /// not "empty".
    pub fn get_total_storage(&self, capacity: &CapacityReading) -> (gb: u64)
        ensures
            gb == capacity.spec_total_gb(),
            capacity is Unavailable ==> gb == 0,
    {
        wide_bytes_to_gb(capacity.total_bytes())
    }

    /// Free space of the drive in whole gigabytes, from a capacity query
    /// against its path. A failed query gives zero, which means "unknown",
    /// not "empty".
    pub fn get_free_storage(&self, capacity: &CapacityReading) -> (gb: u64)
        ensures
            gb == capacity.spec_free_gb(),
            capacity is Unavailable ==> gb == 0,
    {
        wide_bytes_to_gb(capacity.free_bytes())
    }
}

} // verus!
