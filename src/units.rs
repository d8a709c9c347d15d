//! Byte-count conversions used when reporting memory and disk figures.
//!
//! Every conversion truncates: a partial mebibyte or gibibyte is dropped.
use vstd::prelude::*;

verus! {

/// Bytes in one mebibyte (reported as "MB").
pub const BYTES_PER_MB: u64 = 1048576;

/// Bytes in one gibibyte (reported as "GB").
pub const BYTES_PER_GB: u64 = 1073741824;

/// Whole mebibytes in `bytes`, rounded down.
pub open spec fn mb_of(bytes: nat) -> nat {
    bytes / 1048576
}

/// Whole gibibytes in `bytes`, rounded down.
pub open spec fn gb_of(bytes: nat) -> nat {
    bytes / 1073741824
}

/// `a - b`, or zero where `b` exceeds `a`.
pub open spec fn shortfall(a: nat, b: nat) -> nat {
    if b <= a {
        (a - b) as nat
    } else {
        0
    }
}

/// Converts a byte count to whole megabytes, dividing by 1024 twice.
pub fn bytes_to_mb(bytes: u64) -> (r: u64)
    ensures
        r == mb_of(bytes as nat),
{
    bytes / 1024 / 1024
}

/// Converts a byte count to whole gigabytes, dividing by 1024 three times.
pub fn bytes_to_gb(bytes: u64) -> (r: u64)
    ensures
        r == gb_of(bytes as nat),
{
    bytes / 1024 / 1024 / 1024
}

/// The part of `total` not taken by `taken`; zero when `taken` exceeds it.
pub fn remaining(total: u64, taken: u64) -> (r: u64)
    ensures
        r == shortfall(total as nat, taken as nat),
{
    if taken <= total {
        total - taken
    } else {
        0
    }
}

} // verus!
