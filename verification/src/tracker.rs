//! The cue-position tracker: which cue the video is at.

use vstd::prelude::*;
use crate::cue::{CueList, CueView};

verus! {

/// Where the video is in the script: the cue last found to contain the
/// video's position or to lie before it, and whether that cue contains it.
#[derive(Clone, Copy, Debug, PartialEq, Eq, Structural)]
pub struct TrackerState {
    pub current_block: usize,
    pub visible: bool,
}

/// Some cue of the script contains `now`.
pub open spec fn some_contains(cues: Seq<CueView>, now: nat) -> bool {
    exists|i: int| 0 <= i < cues.len() && (#[trigger] cues[i]).contains(now)
}

/// Some cue of the script lies wholly before `now`.
pub open spec fn some_passed(cues: Seq<CueView>, now: nat) -> bool {
    exists|i: int| 0 <= i < cues.len() && (#[trigger] cues[i]).passed(now)
}

/// The place of cue `i` in a scan of `n` cues that starts at cue `hint` and
/// wraps round the end of the list: `hint` comes first, the cue before
/// `hint` comes last.
pub open spec fn scan_pos(hint: int, i: int, n: int) -> int {
    if i >= hint {
        i - hint
    } else {
        i + n - hint
    }
}

/// What the tracker answers for the instant `now`, when the scan starts at
/// cue `hint`.
///
/// Where some cue contains `now`, the answer is the first such cue that the
/// scan meets, and the cue is visible. Otherwise nothing is visible, and the
/// answer is the last cue in the list that lies wholly before `now`; where
/// no cue lies before `now` either, the answer stays at `hint`.
pub open spec fn is_located(
    cues: Seq<CueView>,
    now: nat,
    hint: int,
    index: int,
    visible: bool,
) -> bool {
    &&& 0 <= index < cues.len()
    &&& visible == some_contains(cues, now)
    &&& visible ==> {
        &&& cues[index].contains(now)
        &&& forall|j: int|
            0 <= j < cues.len() && (#[trigger] cues[j]).contains(now) ==> scan_pos(
                hint,
                index,
                cues.len() as int,
            ) <= scan_pos(hint, j, cues.len() as int)
    }
    &&& !visible && some_passed(cues, now) ==> {
        &&& cues[index].passed(now)
        &&& forall|j: int| index < j < cues.len() ==> !(#[trigger] cues[j]).passed(now)
    }
    &&& !visible && !some_passed(cues, now) ==> index == hint
}

/// Finds the cue that the video is at.
///
/// Scans the cues once, from `hint` on and round the end of the list back to
/// `hint`, and stops at the first cue that contains `now`. A scan that finds
/// none answers with the last cue that has already ended, and with `hint`
/// itself when no cue has ended yet. Started at the previous answer, the
/// scan of a video that plays forward ends at once.
pub fn locate(cues: &CueList, now: u64, hint: usize) -> (found: (usize, bool))
    requires
        hint < cues@.len(),
    ensures
        is_located(cues@, now as nat, hint as int, found.0 as int, found.1),
{
    let n: usize = cues.len();
    let mut last_passed: Option<usize> = None;
    let mut k: usize = 0;
    while k < n
        invariant
            n == cues@.len(),
            hint < n,
            k <= n,
            forall|j: int|
                0 <= j < n && scan_pos(hint as int, j, n as int) < k ==> !(#[trigger] cues@[j]).contains(
                    now as nat,
                ),
            last_passed matches Some(p) ==> p < n && cues@[p as int].passed(now as nat),
            forall|j: int|
                0 <= j < n && scan_pos(hint as int, j, n as int) < k && (#[trigger] cues@[j]).passed(
                    now as nat,
                ) ==> (last_passed is Some && j <= last_passed.unwrap()),
        decreases n - k,
    {
        let idx: usize = if k < n - hint {
            hint + k
        } else {
            k - (n - hint)
        };
        assert(scan_pos(hint as int, idx as int, n as int) == k);
        let cue = cues.get(idx);
        if cue.fits(now) {
            proof {
                assert forall|j: int| 0 <= j < n && (#[trigger] cues@[j]).contains(now as nat) implies scan_pos(
                    hint as int,
                    idx as int,
                    n as int,
                ) <= scan_pos(hint as int, j, n as int) by {
                    if scan_pos(hint as int, j, n as int) < k {
                        assert(!cues@[j].contains(now as nat));
                    }
                }
            }
            return (idx, true);
        }
        if cue.end() < now {
            last_passed = match last_passed {
                Some(p) => if p < idx {
                    Some(idx)
                } else {
                    Some(p)
                },
                None => Some(idx),
            };
        }
        proof {
            assert forall|j: int|
                0 <= j < n && scan_pos(hint as int, j, n as int) < k + 1 implies !(#[trigger] cues@[j]).contains(
                now as nat,
            ) by {
                if scan_pos(hint as int, j, n as int) == k {
                    assert(j == idx);
                }
            }
            assert forall|j: int|
                0 <= j < n && scan_pos(hint as int, j, n as int) < k + 1 && (#[trigger] cues@[j]).passed(
                    now as nat,
                ) implies (last_passed is Some && j <= last_passed.unwrap()) by {
                if scan_pos(hint as int, j, n as int) == k {
                    assert(j == idx);
                }
            }
        }
        k = k + 1;
    }
    proof {
        assert forall|j: int| 0 <= j < n implies !(#[trigger] cues@[j]).contains(now as nat) by {
            assert(scan_pos(hint as int, j, n as int) < n);
        }
        assert forall|j: int| 0 <= j < n && (#[trigger] cues@[j]).passed(now as nat) implies (last_passed is Some && j <= last_passed.unwrap()) by {
            assert(scan_pos(hint as int, j, n as int) < n);
        }
    }
    match last_passed {
        Some(p) => (p, false),
        None => (hint, false),
    }
}

/// The tracker's answer is settled by the script, the instant and the hint:
/// two answers to the same question are the same answer.
pub proof fn law_locate_unique(
    cues: Seq<CueView>,
    now: nat,
    hint: int,
    first: (int, bool),
    second: (int, bool),
)
    requires
        0 <= hint < cues.len(),
        is_located(cues, now, hint, first.0, first.1),
        is_located(cues, now, hint, second.0, second.1),
    ensures
        first == second,
{
    if first.1 {
        let n = cues.len() as int;
        assert(scan_pos(hint, first.0, n) <= scan_pos(hint, second.0, n));
        assert(scan_pos(hint, second.0, n) <= scan_pos(hint, first.0, n));
    }
}

/// Whenever some cue contains the instant, the tracker answers with a cue
/// that contains it. Whenever none does but some cue has already ended, the
/// tracker answers with the last cue in the list that has ended. This holds
/// for every script, in whatever order its cues stand, and for every hint.
pub proof fn law_locate_finds(cues: Seq<CueView>, now: nat, hint: int, index: int, visible: bool)
    requires
        0 <= hint < cues.len(),
        is_located(cues, now, hint, index, visible),
    ensures
        some_contains(cues, now) ==> visible && cues[index].contains(now),
        !some_contains(cues, now) && some_passed(cues, now) ==> {
            &&& !visible
            &&& cues[index].passed(now)
            &&& forall|j: int| 0 <= j < cues.len() && (#[trigger] cues[j]).passed(now) ==> j <= index
        },
{
}

/// The tracker's answer does not depend on the hint, as long as the instant
/// leaves no choice: at most one cue contains it, and some cue contains it
/// or has ended before it. Only the length of the scan depends on the hint.
pub proof fn law_locate_hint_independent(
    cues: Seq<CueView>,
    now: nat,
    hint_a: int,
    hint_b: int,
    found_a: (int, bool),
    found_b: (int, bool),
)
    requires
        0 <= hint_a < cues.len(),
        0 <= hint_b < cues.len(),
        forall|i: int, j: int|
            0 <= i < cues.len() && 0 <= j < cues.len() && (#[trigger] cues[i]).contains(now) && (
            #[trigger] cues[j]).contains(now) ==> i == j,
        some_contains(cues, now) || some_passed(cues, now),
        is_located(cues, now, hint_a, found_a.0, found_a.1),
        is_located(cues, now, hint_b, found_b.0, found_b.1),
    ensures
        found_a == found_b,
{
    if !found_a.1 {
        if found_a.0 < found_b.0 {
            assert(cues[found_b.0].passed(now));
        }
        if found_b.0 < found_a.0 {
            assert(cues[found_a.0].passed(now));
        }
    }
}

} // verus!
