//! Byte counts, whole gigabytes, and what a capacity query reported.

use vstd::prelude::*;

verus! {

/// Bytes in one gigabyte (2^30).
pub const BYTES_PER_GB: u64 = 1_073_741_824;

/// Whole gigabytes in `bytes`: the quotient of the division by 2^30, the
/// remainder discarded.
pub open spec fn gigabytes(bytes: nat) -> nat {
    bytes / (BYTES_PER_GB as nat)
}

/// `n`, or the largest `u64` where `n` is larger than that.
pub open spec fn capped(n: nat) -> u64 {
    if n <= u64::MAX {
        n as u64
    } else {
        u64::MAX
    }
}

/// What the host's capacity query against one path reported.
#[derive(Clone, Copy, Debug)]
pub enum CapacityReading {
    /// The query failed.
    Unavailable,
    /// The query reported byte counts (the disk-free-space query of Windows).
    Bytes { total: u64, free: u64 },
    /// The query reported block counts and the size of a block in bytes
    /// (the filesystem-statistics query of Unix).
    Blocks { blocks: u64, blocks_free: u64, block_size: u64 },
}

impl CapacityReading {
    /// Total capacity in bytes; zero where the query failed.
    pub open spec fn spec_total_bytes(self) -> nat {
        match self {
            CapacityReading::Unavailable => 0,
            CapacityReading::Bytes { total, free } => total as nat,
            CapacityReading::Blocks { blocks, blocks_free, block_size } => (blocks * block_size) as nat,
        }
    }

    /// Free space in bytes; zero where the query failed.
    pub open spec fn spec_free_bytes(self) -> nat {
        match self {
            CapacityReading::Unavailable => 0,
            CapacityReading::Bytes { total, free } => free as nat,
            CapacityReading::Blocks { blocks, blocks_free, block_size } => (blocks_free
                * block_size) as nat,
        }
    }

    /// Total capacity in whole gigabytes, capped at the largest `u64`.
    pub open spec fn spec_total_gb(self) -> u64 {
        capped(gigabytes(self.spec_total_bytes()))
    }

    /// Free space in whole gigabytes, capped at the largest `u64`.
    pub open spec fn spec_free_gb(self) -> u64 {
        capped(gigabytes(self.spec_free_bytes()))
    }

    /// Total capacity in bytes. A failed query counts as zero bytes.
    pub fn total_bytes(&self) -> (bytes: u128)
        ensures
            bytes == self.spec_total_bytes(),
    {
        match self {
            CapacityReading::Unavailable => 0,
            CapacityReading::Bytes { total, free } => *total as u128,
            CapacityReading::Blocks { blocks, blocks_free, block_size } => block_bytes(
                *blocks,
                *block_size,
            ),
        }
    }

    /// Free space in bytes. A failed query counts as zero bytes.
    pub fn free_bytes(&self) -> (bytes: u128)
        ensures
            bytes == self.spec_free_bytes(),
    {
        match self {
            CapacityReading::Unavailable => 0,
            CapacityReading::Bytes { total, free } => *free as u128,
            CapacityReading::Blocks { blocks, blocks_free, block_size } => block_bytes(
                *blocks_free,
                *block_size,
            ),
        }
    }
}

/// Bytes held by `count` blocks of `block_size` bytes each. The product of
/// two `u64` always fits the result.
pub fn block_bytes(count: u64, block_size: u64) -> (bytes: u128)
    ensures
        bytes == count * block_size,
{
    assert(count * block_size <= u64::MAX * u64::MAX) by (nonlinear_arith)
        requires
            count <= u64::MAX,
            block_size <= u64::MAX,
    ;
    (count as u128) * (block_size as u128)
}

/// Converts a byte count to whole gigabytes, rounding down.
pub fn bytes_to_gb(bytes: u64) -> (gb: u64)
    ensures
        gb == gigabytes(bytes as nat),
{
    bytes / BYTES_PER_GB
}

/// Converts a wide byte count to whole gigabytes, rounding down. A count of
/// more gigabytes than a `u64` holds gives the largest `u64`.
pub fn wide_bytes_to_gb(bytes: u128) -> (gb: u64)
    ensures
        gb == capped(gigabytes(bytes as nat)),
{
    let whole: u128 = bytes / (BYTES_PER_GB as u128);
    if whole > u64::MAX as u128 {
        u64::MAX
    } else {
        whole as u64
    }
}

/// Gigabytes are counted by floor division: `gigabytes(bytes)` is the one
/// number `g` with `g * 2^30 <= bytes < (g + 1) * 2^30`.
pub proof fn lemma_gigabytes_is_floor(bytes: nat, g: nat)
    ensures
        gigabytes(bytes) == g <==> g * BYTES_PER_GB <= bytes < (g + 1) * BYTES_PER_GB,
{
    assert(gigabytes(bytes) == g <==> g * 1_073_741_824 <= bytes < (g + 1) * 1_073_741_824)
        by (nonlinear_arith)
        requires
            gigabytes(bytes) == bytes / 1_073_741_824,
    ;
}

/// The gigabytes of a `u64` byte count fit a `u64`: no cap ever applies.
pub proof fn lemma_gigabytes_of_u64_fit(bytes: u64)
    ensures
        gigabytes(bytes as nat) <= bytes,
        capped(gigabytes(bytes as nat)) == gigabytes(bytes as nat),
{
}

/// A failed capacity query reports zero bytes and zero gigabytes, total and
/// free alike.
pub proof fn lemma_failed_query_reports_zero()
    ensures
        CapacityReading::Unavailable.spec_total_bytes() == 0,
        CapacityReading::Unavailable.spec_free_bytes() == 0,
        CapacityReading::Unavailable.spec_total_gb() == 0,
        CapacityReading::Unavailable.spec_free_gb() == 0,
{
}

} // verus!
