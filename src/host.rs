//! Memory and disk figures of the host, reduced to whole units.
use crate::fixed::Fraction;
use crate::units::{bytes_to_gb, bytes_to_mb, gb_of, mb_of, remaining, shortfall};
use vstd::prelude::*;

verus! {

/// Memory and swap totals of the host, in bytes.
#[derive(Clone, Copy, Debug, PartialEq, Eq, Structural)]
pub struct MemoryInfo {
    pub total_memory: u64,
    pub used_memory: u64,
    pub total_swap: u64,
    pub used_swap: u64,
}

impl MemoryInfo {
    /// Total memory in whole megabytes.
    pub fn total_mb(&self) -> (r: u64)
        ensures
            r == mb_of(self.total_memory as nat),
    {
        bytes_to_mb(self.total_memory)
    }

    /// Used memory in whole megabytes.
    pub fn used_mb(&self) -> (r: u64)
        ensures
            r == mb_of(self.used_memory as nat),
    {
        bytes_to_mb(self.used_memory)
    }

    /// Free memory (total less used, never below zero) in whole megabytes.
    pub fn free_mb(&self) -> (r: u64)
        ensures
            r == mb_of(shortfall(self.total_memory as nat, self.used_memory as nat)),
    {
        bytes_to_mb(remaining(self.total_memory, self.used_memory))
    }

    /// Total swap in whole megabytes.
    pub fn total_swap_mb(&self) -> (r: u64)
        ensures
            r == mb_of(self.total_swap as nat),
    {
        bytes_to_mb(self.total_swap)
    }

    /// Used swap in whole megabytes.
    pub fn used_swap_mb(&self) -> (r: u64)
        ensures
            r == mb_of(self.used_swap as nat),
    {
        bytes_to_mb(self.used_swap)
    }
}

/// Capacity figures of one mounted disk, as reported by the platform.
#[derive(Debug)]
pub struct DiskInfo {
    pub name: String,
    pub mount_point: String,
    pub file_system: String,
    pub total_space: u64,
    pub available_space: u64,
}

impl DiskInfo {
    /// Bytes in use: total less available, never below zero.
    pub fn used_space(&self) -> (r: u64)
        ensures
            r == shortfall(self.total_space as nat, self.available_space as nat),
    {
        remaining(self.total_space, self.available_space)
    }

    /// Total space in whole gigabytes.
    pub fn total_gb(&self) -> (r: u64)
        ensures
            r == gb_of(self.total_space as nat),
    {
        bytes_to_gb(self.total_space)
    }

    /// Available space in whole gigabytes.
    pub fn available_gb(&self) -> (r: u64)
        ensures
            r == gb_of(self.available_space as nat),
    {
        bytes_to_gb(self.available_space)
    }

    /// Used space in whole gigabytes.
    pub fn used_gb(&self) -> (r: u64)
        ensures
            r == gb_of(shortfall(self.total_space as nat, self.available_space as nat)),
    {
        bytes_to_gb(self.used_space())
    }

    /// Share of the disk in use, in percent: `used * 100 / total`. There is no
    /// figure for a disk of zero size.
    pub fn usage_percent(&self) -> (r: Option<Fraction>)
        ensures
            self.total_space == 0 <==> r is None,
            r matches Some(f) ==> f.wf() && f.num == shortfall(
                self.total_space as nat,
                self.available_space as nat,
            ) * 100 && f.den == self.total_space,
    {
        if self.total_space > 0 {
            Some(Fraction { num: (self.used_space() as u128) * 100, den: self.total_space })
        } else {
            None
        }
    }
}

} // verus!
