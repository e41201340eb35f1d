//! The success result of a disk-space query and the arithmetic that builds
//! it: block counts are scaled to bytes and `used` is derived from `total`
//! and `free` with saturating (never negative, never wrapping) subtraction.

use vstd::prelude::*;

verus! {

/// Saturating subtraction on byte counts: `total - free`, floored at zero.
pub open spec fn sat_sub_u64(a: u64, b: u64) -> u64 {
    if b <= a {
        (a - b) as u64
    } else {
        0u64
    }
}

/// Saturating multiplication on byte counts: block count times block size,
/// capped at the largest 64-bit value.
pub open spec fn sat_mul_u64(a: u64, b: u64) -> u64 {
    if a * b <= u64::MAX {
        (a * b) as u64
    } else {
        u64::MAX
    }
}

/// Volume statistics in bytes. `available` is the free space usable by the
/// invoking principal and may be less than `free` under quota or
/// reserved-block semantics; the OS is the source of truth for that
/// relation, so it is not enforced here.
#[derive(Debug, Clone, Copy, PartialEq, Eq, Structural)]
pub struct VolumeStats {
    pub available: u64,
    pub free: u64,
    pub total: u64,
    pub used: u64,
}

impl VolumeStats {
    /// Well-formedness: `used` is exactly the saturating difference of
    /// `total` and `free`.
    pub open spec fn wf(self) -> bool {
        self.used == sat_sub_u64(self.total, self.free)
    }

    /// Builds statistics from byte counts reported directly by the OS
    /// (the Windows free-space call), deriving `used`.
    pub fn from_bytes(available: u64, free: u64, total: u64) -> (r: VolumeStats)
        ensures
            r.available == available,
            r.free == free,
            r.total == total,
            r.used == sat_sub_u64(total, free),
            r.wf(),
    {
        VolumeStats { available, free, total, used: saturating_sub_u64(total, free) }
    }

    /// Builds statistics from block counts and a byte-granularity unit (the
    /// block size of `statfs`, the fragment size of `statvfs`), scaling each
    /// count to bytes and deriving `used`.
    pub fn from_blocks(blocks: u64, blocks_free: u64, blocks_available: u64, unit: u64) -> (r:
        VolumeStats)
        ensures
            r.available == sat_mul_u64(blocks_available, unit),
            r.free == sat_mul_u64(blocks_free, unit),
            r.total == sat_mul_u64(blocks, unit),
            r.used == sat_sub_u64(r.total, r.free),
            r.wf(),
    {
        let total = saturating_mul_u64(blocks, unit);
        let free = saturating_mul_u64(blocks_free, unit);
        let available = saturating_mul_u64(blocks_available, unit);
        VolumeStats { available, free, total, used: saturating_sub_u64(total, free) }
    }
}

/// Executable saturating subtraction, matching `sat_sub_u64`.
pub fn saturating_sub_u64(a: u64, b: u64) -> (r: u64)
    ensures
        r == sat_sub_u64(a, b),
{
    if b <= a {
        a - b
    } else {
        0
    }
}

/// Executable saturating multiplication, matching `sat_mul_u64`.
pub fn saturating_mul_u64(a: u64, b: u64) -> (r: u64)
    ensures
        r == sat_mul_u64(a, b),
{
    if a == 0 {
        0
    } else if b <= u64::MAX / a {
        proof {
            lemma_mul_by_le_div(a, b);
        }
        a * b
    } else {
        proof {
            lemma_mul_above_div(a, b);
        }
        u64::MAX
    }
}

/// If `b` is at most `MAX / a`, the product `a * b` fits in 64 bits.
proof fn lemma_mul_by_le_div(a: u64, b: u64)
    requires
        a > 0,
        b <= u64::MAX as int / a as int,
    ensures
        a * b <= u64::MAX,
{
    assert(a * b <= a * (u64::MAX as int / a as int)) by (nonlinear_arith)
        requires
            a > 0,
            b <= u64::MAX as int / a as int,
    ;
    assert(a as int * (u64::MAX as int / a as int) <= u64::MAX as int) by (nonlinear_arith)
        requires
            a > 0,
    ;
}

/// If `b` exceeds `MAX / a`, the product `a * b` overflows 64 bits.
proof fn lemma_mul_above_div(a: u64, b: u64)
    requires
        a > 0,
        b > u64::MAX as int / a as int,
    ensures
        a * b > u64::MAX,
{
    assert(a * b >= a * (u64::MAX as int / a as int + 1)) by (nonlinear_arith)
        requires
            a > 0,
            b >= u64::MAX as int / a as int + 1,
    ;
    assert(a as int * (u64::MAX as int / a as int + 1) > u64::MAX as int) by (nonlinear_arith)
        requires
            a > 0,
    ;
}

/// Space accounting: wherever no saturation occurred (free space does not
/// exceed capacity, which is the OS's side to report), used space is the
/// exact difference of capacity and free space, and the two partition the
/// capacity.
pub proof fn lemma_space_accounting(s: VolumeStats)
    requires
        s.wf(),
        s.free <= s.total,
    ensures
        s.used == s.total - s.free,
        s.used + s.free == s.total,
{
}

/// Used space never exceeds the capacity of a well-formed record.
pub proof fn lemma_used_at_most_total(s: VolumeStats)
    requires
        s.wf(),
    ensures
        s.used <= s.total,
{
}

} // verus!
