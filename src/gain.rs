//! The scalar gain applied to every captured sample, in thousandths
//! (`UNITY_GAIN` leaves a sample as it is).
use vstd::prelude::*;

verus! {

/// The level that leaves samples unchanged (a factor of 1).
pub const UNITY_GAIN: u32 = 1000;

/// The highest level a gain can reach (a factor of 1000, +60 dB).
pub const MAX_GAIN: u32 = 1_000_000;

/// The level after adding `delta` to `level`: never below zero, never above `MAX_GAIN`.
pub open spec fn adjusted(level: int, delta: int) -> int {
    if level + delta < 0 {
        0
    } else if level + delta > MAX_GAIN {
        MAX_GAIN as int
    } else {
        level + delta
    }
}

/// A gain level, adjusted additively by the control surface and read before
/// each sample is scaled.
pub struct GainControl {
    level: u32,
}

impl GainControl {
    /// The current level, in thousandths.
    pub closed spec fn view(&self) -> nat {
        self.level as nat
    }

    /// The level does not exceed `MAX_GAIN`.
    pub closed spec fn wf(&self) -> bool {
        self.level <= MAX_GAIN
    }

    /// A gain at unity.
    pub fn new() -> (g: GainControl)
        ensures
            g.wf(),
            g@ == UNITY_GAIN,
    {
        GainControl { level: UNITY_GAIN }
    }

    /// A gain at `level` thousandths.
    pub fn with_level(level: u32) -> (g: GainControl)
        requires
            level <= MAX_GAIN,
        ensures
            g.wf(),
            g@ == level,
    {
        GainControl { level }
    }

    /// The current level, in thousandths.
    pub fn get(&self) -> (r: u32)
        ensures
            r == self@,
    {
        self.level
    }

    /// Adds `delta` thousandths to the level; a result below zero becomes zero
    /// and one above `MAX_GAIN` becomes `MAX_GAIN`.
    pub fn set(&mut self, delta: i32)
        requires
            old(self).wf(),
        ensures
            final(self).wf(),
            final(self)@ == adjusted(old(self)@ as int, delta as int),
    {
        let sum: i64 = self.level as i64 + delta as i64;
        self.level = if sum < 0 {
            0
        } else if sum > MAX_GAIN as i64 {
            MAX_GAIN
        } else {
            sum as u32
        };
    }
}

/// Setting `+d` and then reading gives the previous level plus `d`, or zero
/// where that sum is negative (up to the ceiling `MAX_GAIN`).
pub proof fn lemma_set_then_get(previous: nat, d: int)
    requires
        previous + d <= MAX_GAIN,
    ensures
        previous + d >= 0 ==> adjusted(previous as int, d) == previous + d,
        previous + d < 0 ==> adjusted(previous as int, d) == 0,
{
}

} // verus!
