//! The fixed bitrate ladder and segment duration.
//!
//! The ladder is a process-wide constant: three rungs ordered by `level`,
//! level 0 being the highest quality. Changing it is a redeploy, not a
//! data migration.

use vstd::prelude::*;

verus! {

/// Seconds of media per segment.
pub const SEGMENT_DURATION: u32 = 5;

/// One rung of the bitrate ladder.
#[derive(Debug, Clone, Copy, PartialEq, Eq, Structural)]
pub struct Variant {
    pub width: usize,
    pub height: usize,
    pub bandwidth: u64,
}

/// How many rungs the ladder has.
pub open spec fn spec_variant_count() -> nat {
    3
}

/// The ladder, by level.
pub open spec fn spec_variant(level: int) -> Variant {
    if level == 0 {
        Variant { width: 1920, height: 1080, bandwidth: 2000000 }
    } else if level == 1 {
        Variant { width: 1200, height: 720, bandwidth: 1000000 }
    } else {
        Variant { width: 848, height: 480, bandwidth: 600000 }
    }
}

/// How many rungs the ladder has.
pub fn variant_count() -> (n: usize)
    ensures
        n == spec_variant_count(),
{
    3
}

/// The ladder rung at `level`.
pub fn variant_at(level: u32) -> (v: Variant)
    requires
        level < spec_variant_count(),
    ensures
        v == spec_variant(level as int),
{
    if level == 0 {
        Variant { width: 1920, height: 1080, bandwidth: 2000000 }
    } else if level == 1 {
        Variant { width: 1200, height: 720, bandwidth: 1000000 }
    } else {
        Variant { width: 848, height: 480, bandwidth: 600000 }
    }
}

} // verus!
