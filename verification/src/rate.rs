//! The rate controller: from the time left in the cue being read to a
//! playback speed.
//!
//! Speeds and fractions are held in millionths, so `1_000_000` is normal
//! speed and `100_000` is a tenth.

use vstd::prelude::*;
use crate::cue::{Cue, CueView};

verus! {

/// How many millionths make one.
pub const MILLION: u32 = 1_000_000;

/// The fraction of a cue, in millionths, below which playback slows down
/// unless the caller chooses another: a tenth.
pub const DEFAULT_SLOW_THRESHOLD: u32 = 100_000;

/// A playback speed, in millionths of normal speed.
#[derive(Clone, Copy, Debug, PartialEq, Eq, Structural)]
pub struct Rate {
    pub millionths: u32,
}

impl Rate {
    /// Standstill.
    pub fn zero() -> (r: Rate)
        ensures
            r.millionths == 0,
    {
        Rate { millionths: 0 }
    }

    /// Normal speed.
    pub fn one() -> (r: Rate)
        ensures
            r.millionths == MILLION,
    {
        Rate { millionths: MILLION }
    }

    /// The largest speed that can be held.
    pub fn max() -> (r: Rate)
        ensures
            r.millionths == u32::MAX,
    {
        Rate { millionths: u32::MAX }
    }
}

/// The part of the cue's window that lies after `now`, in nanoseconds:
/// nothing once `now` is past the cue's end.
pub open spec fn window_left(cue: CueView, now: int) -> int {
    if now <= cue.end {
        cue.end - now
    } else {
        0
    }
}

/// The length of the cue's window, in nanoseconds. A cue of no length is
/// paced as if it lasted one nanosecond, so that a fraction of it is always
/// defined.
pub open spec fn window_len(cue: CueView) -> int {
    if cue.end > cue.start {
        cue.end - cue.start
    } else {
        1
    }
}

/// The speed while the picture is not yet at the cue being read: twice the
/// remaining fraction of the window times the target speed, rounded down.
pub open spec fn catch_up_millionths(cue: CueView, now: int, target: int) -> int {
    2 * window_left(cue, now) * target / window_len(cue)
}

/// Whether more than `threshold` millionths of the window are left.
pub open spec fn far_from_end(cue: CueView, now: int, threshold: int) -> bool {
    window_left(cue, now) * MILLION > threshold * window_len(cue)
}

/// The speed while the picture is at the cue being read: nothing past the
/// cue's end, the target speed while more than `threshold` of the window is
/// left, and in between the target speed scaled by the remaining fraction
/// over the threshold, rounded down.
pub open spec fn approach_millionths(cue: CueView, now: int, target: int, threshold: int) -> int {
    if now > cue.end {
        0
    } else if far_from_end(cue, now, threshold) {
        target
    } else if threshold == 0 {
        0
    } else {
        target * (window_left(cue, now) * MILLION) / (window_len(cue) * threshold)
    }
}

/// The speed the rate controller commands, before it is fitted into a
/// `Rate`.
pub open spec fn exact_millionths(
    cue: CueView,
    now: int,
    behind: bool,
    target: int,
    threshold: int,
) -> int {
    if behind {
        catch_up_millionths(cue, now, target)
    } else {
        approach_millionths(cue, now, target, threshold)
    }
}

/// The speed the rate controller commands: the exact speed, or the largest
/// `Rate` where the exact speed is beyond it.
pub open spec fn commanded_millionths(
    cue: CueView,
    now: int,
    behind: bool,
    target: int,
    threshold: int,
) -> int {
    let exact = exact_millionths(cue, now, behind, target, threshold);
    if exact > u32::MAX {
        u32::MAX as int
    } else {
        exact
    }
}

proof fn lemma_ramp_below_target(target: int, part: int, whole: int)
    by (nonlinear_arith)
    requires
        0 <= target,
        0 <= part <= whole,
        0 < whole,
    ensures
        0 <= target * part / whole <= target,
{
    assert(target * part <= target * whole);
    assert(target * whole / whole == target);
}

proof fn lemma_catch_up_fits(left: int, target: int, len: int)
    by (nonlinear_arith)
    requires
        0 <= left <= u64::MAX,
        0 <= target <= u32::MAX,
        0 < len,
    ensures
        0 <= 2 * left * target <= 0x10_0000_0000_0000_0000_0000_0000,
        0 <= 2 * left * target / len,
{
    assert(left * target <= 0xffff_ffff_ffff_ffff * 0xffff_ffff);
}

/// The playback speed to command at video time `now`, given the cue being
/// read `deadline_cue` at `deadline_index`, the cue `current_block` that the
/// picture is at, the learned `target_rate`, and the fraction
/// `slow_threshold` (in millionths of the cue's length) within which
/// playback ramps down.
///
/// While the picture is at another cue than the one being read, playback
/// runs at twice the remaining fraction of the reading window times the
/// target speed. Once it is at that cue, playback runs at the target speed,
/// ramps down linearly over the last `slow_threshold` of the window, and
/// stands still past its end.
pub fn compute_rate(
    now: u64,
    deadline_cue: &Cue,
    current_block: usize,
    deadline_index: usize,
    target_rate: Rate,
    slow_threshold: u32,
) -> (rate: Rate)
    ensures
        rate.millionths == commanded_millionths(
            deadline_cue@,
            now as int,
            current_block != deadline_index,
            target_rate.millionths as int,
            slow_threshold as int,
        ),
        current_block == deadline_index && now > deadline_cue@.end ==> rate.millionths == 0,
        current_block == deadline_index && far_from_end(
            deadline_cue@,
            now as int,
            slow_threshold as int,
        ) ==> rate == target_rate,
        current_block == deadline_index ==> rate.millionths <= target_rate.millionths,
{
    let start: u64 = deadline_cue.start();
    let end: u64 = deadline_cue.end();
    let left: u64 = if now <= end { end - now } else { 0 };
    let len: u64 = if end > start { end - start } else { 1 };
    let target: u128 = target_rate.millionths as u128;
    if current_block != deadline_index {
        proof {
            lemma_catch_up_fits(left as int, target as int, len as int);
        }
        let exact: u128 = 2 * (left as u128) * target / (len as u128);
        if exact > u32::MAX as u128 {
            Rate::max()
        } else {
            Rate { millionths: exact as u32 }
        }
    } else if now > end {
        Rate::zero()
    } else {
        assert((left as int) * MILLION <= 0xffff_ffff_ffff_ffff * 1_000_000);
        let part: u128 = (left as u128) * (MILLION as u128);
        assert((slow_threshold as int) * (len as int) <= 0xffff_ffff * 0xffff_ffff_ffff_ffff)
            by (nonlinear_arith)
            requires
                0 <= slow_threshold <= 0xffff_ffff,
                0 <= len <= 0xffff_ffff_ffff_ffff,
        ;
        let whole: u128 = (slow_threshold as u128) * (len as u128);
        if part > whole {
            target_rate
        } else if slow_threshold == 0 {
            Rate::zero()
        } else {
            proof {
                assert(whole > 0) by (nonlinear_arith)
                    requires
                        whole == slow_threshold * len,
                        slow_threshold > 0,
                        len > 0,
                ;
                lemma_ramp_below_target(target as int, part as int, whole as int);
                assert(target * part <= 0xffff_ffff * (0xffff_ffff_ffff_ffff * 1_000_000))
                    by (nonlinear_arith)
                    requires
                        0 <= target <= 0xffff_ffff,
                        0 <= part <= 0xffff_ffff_ffff_ffff * 1_000_000,
                ;
                assert((len as int) * (slow_threshold as int) == whole as int)
                    by (nonlinear_arith)
                    requires
                        whole == slow_threshold * len,
                ;
            }
            let ramp: u128 = target * part / whole;
            Rate { millionths: ramp as u32 }
        }
    }
}

} // verus!
