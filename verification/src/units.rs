//! Unit conversions applied to raw hardware readings.
//!
//! The hardware library reports power in milliwatts and memory sizes in
//! bytes; the snapshot displays watts and mebibytes. Both conversions are
//! truncating integer divisions.

use vstd::prelude::*;

verus! {

/// Bytes per displayed mebibyte. The hardware byte counts are scaled by
/// this exact divisor (truncating), so 1_024_000_000 bytes display as 1000.
pub const BYTES_PER_MEBIBYTE: u64 = 1024000;

/// Milliwatts per watt.
pub const MILLIWATTS_PER_WATT: u32 = 1000;

/// Convert a raw byte count to whole mebibytes, truncating.
pub fn bytes_to_mebibytes(bytes: u64) -> (r: u64)
    ensures
        r == bytes / 1024000,
{
    bytes / BYTES_PER_MEBIBYTE
}

/// Convert a raw milliwatt reading to whole watts, truncating.
pub fn milliwatts_to_watts(mw: u32) -> (r: u32)
    ensures
        r == mw / 1000,
{
    mw / MILLIWATTS_PER_WATT
}

} // verus!
