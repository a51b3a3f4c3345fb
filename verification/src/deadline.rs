//! The deadline cursor: the cue that the presenter is reading now, and the
//! pace learned from the cues read before it.
//!
//! The cursor moves only when told to, one cue at a time, and stays on the
//! last cue once it is there.

use vstd::prelude::*;
use crate::cue::{Cue, CueList, CueView, script_wf};
use crate::pace::{PaceLearner, mean_millionths, ratio_millionths};
use crate::rate::Rate;

verus! {

/// What the deadline state holds, mathematically.
pub struct DeadlineView {
    /// The index of the cue being read.
    pub index: nat,
    /// When the reading of that cue began, in nanoseconds on the wall clock
    /// since the session started.
    pub started_at: nat,
    /// One sample of the presenter's pace for every reading taken in.
    pub history: Seq<Rate>,
    /// The target speed that follows from the samples.
    pub target: Rate,
}

impl DeadlineView {
    /// The state fits a script of `len` cues: the cursor is on one of them,
    /// and the target speed is the one that follows from the samples.
    pub open spec fn wf(self, len: nat) -> bool {
        &&& self.index < len
        &&& self.target.millionths == mean_millionths(self.history)
    }
}

/// The cue being read, when it began, and the pace learned so far.
#[derive(Debug)]
pub struct DeadlineState {
    index: usize,
    started_at: u64,
    learner: PaceLearner,
}

impl View for DeadlineState {
    type V = DeadlineView;

    closed spec fn view(&self) -> DeadlineView {
        DeadlineView {
            index: self.index as nat,
            started_at: self.started_at as nat,
            history: self.learner@.history,
            target: self.learner@.target,
        }
    }
}

/// The samples after a reading of a cue of `nominal` nanoseconds that ended
/// `elapsed` nanoseconds after it began. A reading that took no time, or
/// that ended before it began by the wall clock, leaves the samples as they
/// are.
pub open spec fn learned(history: Seq<Rate>, nominal: int, elapsed: int) -> Seq<Rate> {
    if elapsed > 0 {
        history.push(Rate { millionths: ratio_millionths(nominal, elapsed) as u32 })
    } else {
        history
    }
}

/// The state after the presenter has signalled, at `wall_now`, the end of
/// the cue being read.
///
/// On the last cue nothing changes at all. On any other, the cursor moves on
/// by one, the reading just ended gives its sample, and the clock for the
/// next reading starts at `wall_now`.
pub open spec fn advanced(pre: DeadlineView, cues: Seq<CueView>, wall_now: nat) -> DeadlineView {
    if pre.index + 1 < cues.len() {
        let history = learned(
            pre.history,
            cues[pre.index as int].duration(),
            wall_now - pre.started_at,
        );
        DeadlineView {
            index: pre.index + 1,
            started_at: wall_now,
            history,
            target: Rate { millionths: mean_millionths(history) as u32 },
        }
    } else {
        pre
    }
}

/// The state after the presenter has signalled the end of a cue once for
/// each instant in `walls`, in that order.
pub open spec fn advanced_each(pre: DeadlineView, cues: Seq<CueView>, walls: Seq<nat>) -> DeadlineView
    decreases walls.len(),
{
    if walls.len() == 0 {
        pre
    } else {
        advanced(advanced_each(pre, cues, walls.drop_last()), cues, walls.last())
    }
}

impl DeadlineState {
    /// The state at the start of a session: the first cue is being read, its
    /// reading began at zero on the wall clock, which counts from the start
    /// of the session, and nothing has been learned.
    pub fn new() -> (state: DeadlineState)
        ensures
            state@ == (DeadlineView {
                index: 0,
                started_at: 0,
                history: Seq::empty(),
                target: Rate { millionths: 1_000_000 },
            }),
    {
        DeadlineState { index: 0, started_at: 0, learner: PaceLearner::new() }
    }

    /// The index of the cue being read.
    pub fn deadline_index(&self) -> (index: usize)
        ensures
            index == self@.index,
    {
        self.index
    }

    /// When the reading of the current cue began, on the wall clock.
    pub fn started_at(&self) -> (wall: u64)
        ensures
            wall == self@.started_at,
    {
        self.started_at
    }

    /// The target speed learned so far.
    pub fn target_rate(&self) -> (rate: Rate)
        ensures
            rate == self@.target,
    {
        self.learner.target_rate()
    }

    /// The samples taken in so far, oldest first.
    pub fn history(&self) -> (samples: &Vec<Rate>)
        ensures
            samples@ == self@.history,
    {
        self.learner.history()
    }

    /// The cue being read.
    pub fn current_deadline_cue<'a>(&self, cues: &'a CueList) -> (cue: &'a Cue)
        requires
            self@.wf(cues@.len()),
        ensures
            cue@ == cues@[self@.index as int],
    {
        cues.get(self.index)
    }

    /// The presenter has finished the cue being read, at `wall_now` on the
    /// wall clock: moves on to the next cue and learns from the reading just
    /// ended. On the last cue this does nothing. Says whether the cursor
    /// moved.
    pub fn advance(&mut self, cues: &CueList, wall_now: u64) -> (moved: bool)
        requires
            old(self)@.wf(cues@.len()),
        ensures
            final(self)@.wf(cues@.len()),
            final(self)@ == advanced(old(self)@, cues@, wall_now as nat),
            moved == (old(self)@.index + 1 < cues@.len()),
            moved ==> final(self)@.index == old(self)@.index + 1,
            !moved ==> final(self)@ == old(self)@,
    {
        let n: usize = cues.len();
        if n - self.index <= 1 {
            return false;
        }
        let nominal: u64 = cues.get(self.index).duration();
        if wall_now > self.started_at {
            let elapsed: u64 = wall_now - self.started_at;
            self.learner.record(nominal, elapsed);
        }
        self.index = self.index + 1;
        self.started_at = wall_now;
        true
    }

    /// Starts the clock for the cue being read anew, at `wall_now`.
    pub fn restart_clock(&mut self, wall_now: u64)
        ensures
            final(self)@ == (DeadlineView { started_at: wall_now as nat, ..old(self)@ }),
    {
        self.started_at = wall_now;
    }

    /// Forgets the learned pace: no samples, normal speed. The cursor and
    /// the clock stay as they are.
    pub fn reset_rate(&mut self)
        ensures
            final(self)@ == (DeadlineView {
                history: Seq::empty(),
                target: Rate { millionths: 1_000_000 },
                ..old(self)@
            }),
    {
        self.learner.reset();
    }
}

/// Signalling the end of a cue any number of times moves the cursor on by
/// that number of cues, until it stands on the last cue, where it stays.
/// From the first cue, `n` signals lead to cue `n`, or to the last cue where
/// the script has no cue `n`.
pub proof fn law_advance_counts(pre: DeadlineView, cues: Seq<CueView>, walls: Seq<nat>)
    requires
        script_wf(cues),
        pre.wf(cues.len()),
    ensures
        advanced_each(pre, cues, walls).wf(cues.len()),
        advanced_each(pre, cues, walls).index == if pre.index + walls.len() < cues.len() {
            pre.index + walls.len()
        } else {
            (cues.len() - 1) as nat
        },
    decreases walls.len(),
{
    if walls.len() > 0 {
        law_advance_counts(pre, cues, walls.drop_last());
        let before = advanced_each(pre, cues, walls.drop_last());
        if before.index + 1 < cues.len() {
            let history = learned(
                before.history,
                cues[before.index as int].duration(),
                walls.last() - before.started_at,
            );
            crate::pace::lemma_mean_is_rate(history);
        }
    }
}

} // verus!
