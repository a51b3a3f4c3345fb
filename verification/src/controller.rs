//! The controller of the main surface: one state, changed by one event at a
//! time, that answers each event with the effects to carry out.
//!
//! The controller touches nothing outside itself. Whoever runs it reads the
//! clocks and the video, hands each event in, and carries the effects out:
//! on the video, and towards the presenter's surface.
//!
//! The wall clock counts nanoseconds from the start of the session, so that
//! a first cue finished before the video has ever played is measured from
//! the start.

use vstd::prelude::*;
use crate::aux::{AuxToMainInterop, MainToAuxInterop, MainToAuxView, context_of, cue_context};
use crate::cue::{CueList, CueView, script_wf};
use crate::deadline::{DeadlineState, DeadlineView, advanced};
use crate::rate::{Rate, DEFAULT_SLOW_THRESHOLD, commanded_millionths, compute_rate};
use crate::tracker::{TrackerState, is_located, locate};

verus! {

/// What the controller knows of the video: its position in nanoseconds, the
/// speed it plays at, and whether it is playing.
#[derive(Clone, Copy, Debug, PartialEq, Eq, Structural)]
pub struct PlaybackState {
    pub current_time: u64,
    pub rate: Rate,
    pub is_playing: bool,
}

/// What the video reports when it is asked: its position in nanoseconds,
/// the speed it plays at, and whether it is paused.
#[derive(Clone, Copy, Debug, PartialEq, Eq, Structural)]
pub struct Reading {
    pub time: u64,
    pub rate: Rate,
    pub paused: bool,
}

/// An event on the main surface.
#[derive(Clone, Copy, Debug, PartialEq, Eq, Structural)]
pub enum Msg {
    /// The timer has ticked or the video has shown a frame. Holds what the
    /// video reports, or nothing while there is no video yet.
    Periodic(Option<Reading>),
    /// The video has started or stopped playing.
    Playing(bool),
    /// The video plays at a new speed.
    RateChange(Rate),
    /// The presenter has finished the cue being read.
    NextDeadline,
    /// A command has come in, from the presenter's surface or from a key.
    ReceivedFromChild(AuxToMainInterop),
}

/// Something for the runner of the controller to carry out.
#[derive(Debug, PartialEq, Eq)]
pub enum Effect {
    /// Start the video.
    Play,
    /// Pause the video.
    Pause,
    /// Let the video play at this speed. A video that refuses the speed is
    /// left as it is.
    SetPlaybackRate(Rate),
    /// Send this message to the presenter's surface, if there is one.
    SendToChild(MainToAuxInterop),
}

/// What an effect holds, mathematically.
pub enum EffectView {
    Play,
    Pause,
    SetPlaybackRate(Rate),
    SendToChild(MainToAuxView),
}

impl View for Effect {
    type V = EffectView;

    open spec fn view(&self) -> EffectView {
        match *self {
            Effect::Play => EffectView::Play,
            Effect::Pause => EffectView::Pause,
            Effect::SetPlaybackRate(rate) => EffectView::SetPlaybackRate(rate),
            Effect::SendToChild(message) => EffectView::SendToChild(message@),
        }
    }
}

/// What a list of effects holds, in order.
pub open spec fn effect_views(effects: Seq<Effect>) -> Seq<EffectView> {
    effects.map_values(|e: Effect| e@)
}

/// What the controller holds, mathematically.
pub struct ControllerView {
    pub cues: Seq<CueView>,
    pub tracker: TrackerState,
    pub playback: PlaybackState,
    pub deadline: DeadlineView,
    pub slow_threshold: u32,
}

impl ControllerView {
    /// The parts fit together: the script is one, and the tracker and the
    /// deadline cursor stand on cues of it.
    pub open spec fn wf(self) -> bool {
        &&& script_wf(self.cues)
        &&& self.tracker.current_block < self.cues.len()
        &&& self.deadline.wf(self.cues.len())
    }

    /// The video has left the cue that the tracker stands on behind: that
    /// cue lies wholly before the position last noted.
    pub open spec fn current_block_has_passed(self) -> bool {
        self.cues[self.tracker.current_block as int].passed(self.playback.current_time as nat)
    }
}

/// The controller at the start of a session on the script `cues`: video and
/// deadline cursor at the first cue, nothing visible, not playing, normal
/// speed, nothing learned.
pub open spec fn initial(cues: Seq<CueView>) -> ControllerView {
    ControllerView {
        cues,
        tracker: TrackerState { current_block: 0, visible: false },
        playback: PlaybackState {
            current_time: 0,
            rate: Rate { millionths: 1_000_000 },
            is_playing: false,
        },
        deadline: DeadlineView {
            index: 0,
            started_at: 0,
            history: Seq::empty(),
            target: Rate { millionths: 1_000_000 },
        },
        slow_threshold: DEFAULT_SLOW_THRESHOLD,
    }
}

/// The effect that makes the video play, or pause.
pub open spec fn playing_effect(playing: bool) -> EffectView {
    if playing {
        EffectView::Play
    } else {
        EffectView::Pause
    }
}

/// The controller after the presenter has finished the cue being read, at
/// `wall_now` on the wall clock.
pub open spec fn after_next_deadline(pre: ControllerView, wall_now: nat) -> ControllerView {
    ControllerView { deadline: advanced(pre.deadline, pre.cues, wall_now), ..pre }
}

/// The controller after a command, and the effects it answers with.
///
/// A command to advance is the same as the presenter finishing the cue. A
/// command to play or pause changes nothing in the controller and is handed
/// on to the video. A command to reset forgets the learned pace and sets the
/// video to normal speed.
pub open spec fn after_command(pre: ControllerView, command: AuxToMainInterop, wall_now: nat) -> (
    ControllerView,
    Seq<EffectView>,
) {
    match command {
        AuxToMainInterop::AdvanceDeadline => (after_next_deadline(pre, wall_now), Seq::empty()),
        AuxToMainInterop::SetIsPlaying(playing) => (pre, seq![playing_effect(playing)]),
        AuxToMainInterop::ResetRate => (
            ControllerView {
                deadline: DeadlineView {
                    history: Seq::empty(),
                    target: Rate { millionths: 1_000_000 },
                    ..pre.deadline
                },
                ..pre
            },
            seq![EffectView::SetPlaybackRate(Rate { millionths: 1_000_000 })],
        ),
    }
}

/// The controller after the video has started or stopped playing, at
/// `wall_now` on the wall clock. A start also starts the clock for the cue
/// being read.
pub open spec fn after_playing(pre: ControllerView, playing: bool, wall_now: nat) -> ControllerView {
    ControllerView {
        playback: PlaybackState { is_playing: playing, ..pre.playback },
        deadline: if playing {
            DeadlineView { started_at: wall_now, ..pre.deadline }
        } else {
            pre.deadline
        },
        ..pre
    }
}

/// The controller after the video has changed its speed to `rate`.
pub open spec fn after_rate_change(pre: ControllerView, rate: Rate) -> ControllerView {
    ControllerView { playback: PlaybackState { rate, ..pre.playback }, ..pre }
}

/// What a tick on a video that reports `reading` does: `post` is the
/// controller after it and `effects` is its answer.
///
/// The controller notes the video's position and tracks it through the
/// script, starting from where the tracker stood. It answers with the
/// video's status and the text around the cue being read, both for the
/// presenter's surface, and with the speed that the rate controller
/// commands for the cue being read, given where the tracker stands now.
pub open spec fn ticked(
    pre: ControllerView,
    reading: Reading,
    post: ControllerView,
    effects: Seq<EffectView>,
) -> bool {
    &&& post == (ControllerView {
        tracker: post.tracker,
        playback: PlaybackState { current_time: reading.time, ..pre.playback },
        ..pre
    })
    &&& is_located(
        pre.cues,
        reading.time as nat,
        pre.tracker.current_block as int,
        post.tracker.current_block as int,
        post.tracker.visible,
    )
    &&& effects == seq![
        EffectView::SendToChild(
            MainToAuxView::CurrentStatus {
                time: reading.time as nat,
                rate: reading.rate,
                playing: !reading.paused,
            },
        ),
        EffectView::SendToChild(
            MainToAuxView::CueContext(context_of(pre.cues, pre.deadline.index as usize)),
        ),
        EffectView::SetPlaybackRate(
            Rate {
                millionths: commanded_millionths(
                    pre.cues[pre.deadline.index as int],
                    reading.time as int,
                    post.tracker.current_block != pre.deadline.index,
                    pre.deadline.target.millionths as int,
                    pre.slow_threshold as int,
                ) as u32,
            },
        ),
    ]
}

/// What an event at `wall_now` on the wall clock does: `post` is the
/// controller after it and `effects` is its answer.
pub open spec fn handled(
    pre: ControllerView,
    msg: Msg,
    wall_now: nat,
    post: ControllerView,
    effects: Seq<EffectView>,
) -> bool {
    match msg {
        Msg::Periodic(None) => post == pre && effects == Seq::<EffectView>::empty(),
        Msg::Periodic(Some(reading)) => ticked(pre, reading, post, effects),
        Msg::Playing(playing) => post == after_playing(pre, playing, wall_now) && effects
            == Seq::<EffectView>::empty(),
        Msg::RateChange(rate) => post == after_rate_change(pre, rate) && effects == Seq::<
            EffectView,
        >::empty(),
        Msg::NextDeadline => post == after_next_deadline(pre, wall_now) && effects == Seq::<
            EffectView,
        >::empty(),
        Msg::ReceivedFromChild(command) => (post, effects) == after_command(pre, command, wall_now),
    }
}

/// The state of the main surface.
#[derive(Debug)]
pub struct Controller {
    subs: CueList,
    tracker: TrackerState,
    playback: PlaybackState,
    deadline: DeadlineState,
    slow_threshold: u32,
}

impl View for Controller {
    type V = ControllerView;

    closed spec fn view(&self) -> ControllerView {
        ControllerView {
            cues: self.subs@,
            tracker: self.tracker,
            playback: self.playback,
            deadline: self.deadline@,
            slow_threshold: self.slow_threshold,
        }
    }
}

impl Controller {
    /// The parts of the controller fit together.
    pub open spec fn wf(&self) -> bool {
        self@.wf()
    }

    /// A controller at the start of a session on the script `subs`.
    pub fn create(subs: CueList) -> (controller: Controller)
        ensures
            controller.wf(),
            controller@ == initial(subs@),
    {
        proof {
            use_type_invariant(&subs);
        }
        Controller {
            subs,
            tracker: TrackerState { current_block: 0, visible: false },
            playback: PlaybackState { current_time: 0, rate: Rate::one(), is_playing: false },
            deadline: DeadlineState::new(),
            slow_threshold: DEFAULT_SLOW_THRESHOLD,
        }
    }

    /// Sets the fraction of a cue, in millionths, within which playback
    /// ramps down towards the cue's end.
    pub fn set_slow_threshold(&mut self, slow_threshold: u32)
        ensures
            final(self)@ == (ControllerView { slow_threshold, ..old(self)@ }),
    {
        self.slow_threshold = slow_threshold;
    }

    /// The script.
    pub fn cues(&self) -> (cues: &CueList)
        ensures
            cues@ == self@.cues,
    {
        &self.subs
    }

    /// Where the video is in the script.
    pub fn tracker(&self) -> (tracker: TrackerState)
        ensures
            tracker == self@.tracker,
    {
        self.tracker
    }

    /// What the controller knows of the video.
    pub fn playback(&self) -> (playback: PlaybackState)
        ensures
            playback == self@.playback,
    {
        self.playback
    }

    /// Whether the video has left the cue that the tracker stands on
    /// behind. This is false at the start of a session and while the video
    /// has not reached any cue yet.
    pub fn current_block_has_passed(&self) -> (passed: bool)
        requires
            self.wf(),
        ensures
            passed == self@.current_block_has_passed(),
    {
        self.subs.get(self.tracker.current_block).end() < self.playback.current_time
    }

    /// The deadline cursor and the learned pace.
    pub fn deadline(&self) -> (deadline: &DeadlineState)
        ensures
            deadline@ == self@.deadline,
    {
        &self.deadline
    }

    /// The fraction of a cue, in millionths, within which playback ramps
    /// down.
    pub fn slow_threshold(&self) -> (slow_threshold: u32)
        ensures
            slow_threshold == self@.slow_threshold,
    {
        self.slow_threshold
    }

    /// A tick: the timer has fired or the video has shown a frame.
    ///
    /// While there is no video to report, nothing happens. Otherwise the
    /// controller follows the video through the script and answers with the
    /// two messages for the presenter's surface and the speed to play at.
    pub fn periodic(&mut self, reading: Option<Reading>) -> (effects: Vec<Effect>)
        requires
            old(self).wf(),
        ensures
            final(self).wf(),
            match reading {
                Some(reading) => ticked(old(self)@, reading, final(self)@, effect_views(effects@)),
                None => final(self)@ == old(self)@ && effect_views(effects@) == Seq::<
                    EffectView,
                >::empty(),
            },
    {
        let mut effects: Vec<Effect> = Vec::new();
        let reading = match reading {
            Some(reading) => reading,
            None => {
                assert(effect_views(effects@) =~= Seq::<EffectView>::empty());
                return effects;
            },
        };
        let now: u64 = reading.time;
        self.playback.current_time = now;
        let status = MainToAuxInterop::CurrentStatus {
            time: now,
            rate: reading.rate,
            playing: !reading.paused,
        };
        let deadline_index: usize = self.deadline.deadline_index();
        let context = MainToAuxInterop::CueContext(cue_context(&self.subs, deadline_index));
        let found = locate(&self.subs, now, self.tracker.current_block);
        self.tracker = TrackerState { current_block: found.0, visible: found.1 };
        let rate = compute_rate(
            now,
            self.subs.get(deadline_index),
            found.0,
            deadline_index,
            self.deadline.target_rate(),
            self.slow_threshold,
        );
        effects.push(Effect::SendToChild(status));
        effects.push(Effect::SendToChild(context));
        effects.push(Effect::SetPlaybackRate(rate));
        proof {
            let views = effect_views(effects@);
            assert(views.len() == 3);
            assert(views[0] == effects@[0]@);
            assert(views[1] == effects@[1]@);
            assert(views[2] == effects@[2]@);
            assert(views =~= seq![views[0], views[1], views[2]]);
        }
        effects
    }

    /// The presenter has finished the cue being read, at `wall_now` on the
    /// wall clock.
    pub fn next_deadline(&mut self, wall_now: u64)
        requires
            old(self).wf(),
        ensures
            final(self).wf(),
            final(self)@ == after_next_deadline(old(self)@, wall_now as nat),
    {
        self.deadline.advance(&self.subs, wall_now);
    }

    /// A command has come in, at `wall_now` on the wall clock.
    pub fn received_from_child(&mut self, command: AuxToMainInterop, wall_now: u64) -> (effects:
        Vec<Effect>)
        requires
            old(self).wf(),
        ensures
            final(self).wf(),
            (final(self)@, effect_views(effects@)) == after_command(
                old(self)@,
                command,
                wall_now as nat,
            ),
    {
        let mut effects: Vec<Effect> = Vec::new();
        match command {
            AuxToMainInterop::AdvanceDeadline => {
                self.next_deadline(wall_now);
                assert(effect_views(effects@) =~= Seq::<EffectView>::empty());
            },
            AuxToMainInterop::SetIsPlaying(playing) => {
                if playing {
                    effects.push(Effect::Play);
                } else {
                    effects.push(Effect::Pause);
                }
                assert(effect_views(effects@) =~= seq![playing_effect(playing)]);
            },
            AuxToMainInterop::ResetRate => {
                self.deadline.reset_rate();
                effects.push(Effect::SetPlaybackRate(Rate::one()));
                assert(effect_views(effects@) =~= seq![
                    EffectView::SetPlaybackRate(Rate { millionths: 1_000_000 }),
                ]);
            },
        }
        effects
    }

    /// Takes in what has arrived from the presenter's surface, at `wall_now`
    /// on the wall clock: a command, or nothing where the payload could not
    /// be read. A payload that could not be read is a lost message: it
    /// changes nothing and is answered with nothing.
    pub fn receive(&mut self, payload: Option<AuxToMainInterop>, wall_now: u64) -> (effects: Vec<
        Effect,
    >)
        requires
            old(self).wf(),
        ensures
            final(self).wf(),
            match payload {
                Some(command) => (final(self)@, effect_views(effects@)) == after_command(
                    old(self)@,
                    command,
                    wall_now as nat,
                ),
                None => final(self)@ == old(self)@ && effect_views(effects@) == Seq::<
                    EffectView,
                >::empty(),
            },
    {
        match payload {
            Some(command) => self.received_from_child(command, wall_now),
            None => {
                let effects: Vec<Effect> = Vec::new();
                assert(effect_views(effects@) =~= Seq::<EffectView>::empty());
                effects
            },
        }
    }

    /// Takes in one event, at `wall_now` nanoseconds on the wall clock since
    /// the start of the session, and answers with the effects to carry out,
    /// in order.
    pub fn update(&mut self, msg: Msg, wall_now: u64) -> (effects: Vec<Effect>)
        requires
            old(self).wf(),
        ensures
            final(self).wf(),
            handled(old(self)@, msg, wall_now as nat, final(self)@, effect_views(effects@)),
    {
        match msg {
            Msg::Periodic(reading) => self.periodic(reading),
            Msg::Playing(playing) => {
                self.playback.is_playing = playing;
                if playing {
                    self.deadline.restart_clock(wall_now);
                }
                let effects: Vec<Effect> = Vec::new();
                assert(effect_views(effects@) =~= Seq::<EffectView>::empty());
                effects
            },
            Msg::RateChange(rate) => {
                self.playback.rate = rate;
                let effects: Vec<Effect> = Vec::new();
                assert(effect_views(effects@) =~= Seq::<EffectView>::empty());
                effects
            },
            Msg::NextDeadline => {
                self.next_deadline(wall_now);
                let effects: Vec<Effect> = Vec::new();
                assert(effect_views(effects@) =~= Seq::<EffectView>::empty());
                effects
            },
            Msg::ReceivedFromChild(command) => self.received_from_child(command, wall_now),
        }
    }
}

/// The video after it has carried out one effect. Only the effects that
/// are meant for the video change it.
pub open spec fn video_after(video: PlaybackState, effect: EffectView) -> PlaybackState {
    match effect {
        EffectView::Play => PlaybackState { is_playing: true, ..video },
        EffectView::Pause => PlaybackState { is_playing: false, ..video },
        EffectView::SetPlaybackRate(rate) => PlaybackState { rate, ..video },
        EffectView::SendToChild(_) => video,
    }
}

/// The video after it has carried out the effects, in order.
pub open spec fn video_after_all(video: PlaybackState, effects: Seq<EffectView>) -> PlaybackState
    decreases effects.len(),
{
    if effects.len() == 0 {
        video
    } else {
        video_after(video_after_all(video, effects.drop_last()), effects.last())
    }
}

/// The controller and the video after the same command has come in once for
/// each instant in `walls`, in that order, and the video has carried out
/// every answer.
pub open spec fn replayed(
    pre: ControllerView,
    video: PlaybackState,
    command: AuxToMainInterop,
    walls: Seq<nat>,
) -> (ControllerView, PlaybackState)
    decreases walls.len(),
{
    if walls.len() == 0 {
        (pre, video)
    } else {
        let before = replayed(pre, video, command, walls.drop_last());
        let step = after_command(before.0, command, walls.last());
        (step.0, video_after_all(before.1, step.1))
    }
}

/// A command to play, or to pause, names a state and not a change: however
/// often it comes in, one after the other, controller and video are as they
/// were after the first time. The controller is not changed by it at all,
/// and the video is playing, or paused, as the command says.
pub proof fn law_set_playing_idempotent(
    pre: ControllerView,
    video: PlaybackState,
    playing: bool,
    walls: Seq<nat>,
)
    requires
        walls.len() >= 1,
    ensures
        replayed(pre, video, AuxToMainInterop::SetIsPlaying(playing), walls) == replayed(
            pre,
            video,
            AuxToMainInterop::SetIsPlaying(playing),
            walls.take(1),
        ),
        replayed(pre, video, AuxToMainInterop::SetIsPlaying(playing), walls) == (
            pre,
            PlaybackState { is_playing: playing, ..video },
        ),
    decreases walls.len(),
{
    let command = AuxToMainInterop::SetIsPlaying(playing);
    reveal_with_fuel(video_after_all, 2);
    let answer = seq![playing_effect(playing)];
    assert(answer.drop_last().len() == 0);
    assert(answer.last() == playing_effect(playing));
    if walls.len() == 1 {
        assert(walls.take(1) =~= walls);
        assert(walls.drop_last().len() == 0);
        assert(replayed(pre, video, command, walls.drop_last()) == (pre, video));
    } else {
        law_set_playing_idempotent(pre, video, playing, walls.drop_last());
        assert(walls.drop_last().take(1) =~= walls.take(1));
    }
}

/// A command to reset is safe to repeat: a second one, whenever it comes,
/// changes nothing that the first has left.
pub proof fn law_reset_rate_idempotent(pre: ControllerView, first_wall: nat, second_wall: nat)
    ensures
        after_command(
            after_command(pre, AuxToMainInterop::ResetRate, first_wall).0,
            AuxToMainInterop::ResetRate,
            second_wall,
        ) == after_command(pre, AuxToMainInterop::ResetRate, first_wall),
{
}

} // verus!
