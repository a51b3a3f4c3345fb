//! The presenter's surface, and what the two surfaces say to each other.
//!
//! The main surface, which shows the video, pushes its status and the text
//! around the cue being read to the presenter's surface. The presenter's
//! surface keeps the latest of each for display and sends commands back.
//! Every message stands on its own: it may be lost, repeated or overtaken by
//! another without harm.

use vstd::prelude::*;
use crate::cue::{CueList, CueView};
use crate::rate::Rate;

verus! {

/// How many earlier cues the presenter is shown.
pub const CONTEXT_BEFORE: usize = 2;

/// How many later cues the presenter is shown.
pub const CONTEXT_AFTER: usize = 4;

/// What a cue context holds, mathematically.
pub struct CueContextView {
    pub prev: Seq<Seq<char>>,
    pub current: Seq<char>,
    pub current_idx: int,
    pub next: Seq<Seq<char>>,
}

/// The text around the cue being read: up to two cues before it, in script
/// order, the cue itself with its index, and up to four cues after it.
#[derive(Debug, Clone, PartialEq, Eq)]
pub struct CueContext {
    pub prev: Vec<String>,
    pub current: String,
    pub current_idx: i32,
    pub next: Vec<String>,
}

/// The texts that a vector of strings holds.
pub open spec fn string_views(strings: Seq<String>) -> Seq<Seq<char>> {
    strings.map_values(|s: String| s@)
}

/// The texts of the cues, in order.
pub open spec fn texts(cues: Seq<CueView>) -> Seq<Seq<char>> {
    cues.map_values(|c: CueView| c.text)
}

impl View for CueContext {
    type V = CueContextView;

    open spec fn view(&self) -> CueContextView {
        CueContextView {
            prev: string_views(self.prev@),
            current: self.current@,
            current_idx: self.current_idx as int,
            next: string_views(self.next@),
        }
    }
}

impl CueContext {
    /// The context before any has arrived: no text, index zero.
    pub open spec fn default_view() -> CueContextView {
        CueContextView {
            prev: Seq::empty(),
            current: Seq::empty(),
            current_idx: 0,
            next: Seq::empty(),
        }
    }
}

impl Default for CueContext {
    /// The context before any has arrived: no text, index zero.
    fn default() -> (ctx: CueContext)
        ensures
            ctx@ == CueContext::default_view(),
    {
        let ctx = CueContext {
            prev: Vec::new(),
            current: String::new(),
            current_idx: 0,
            next: Vec::new(),
        };
        assert(string_views(ctx.prev@) =~= Seq::empty());
        assert(string_views(ctx.next@) =~= Seq::empty());
        assert(ctx.current@ =~= Seq::empty());
        ctx
    }
}

/// A message from the main surface to the presenter's surface.
#[derive(Debug, Clone, PartialEq, Eq)]
pub enum MainToAuxInterop {
    /// Where the video stands: its position in nanoseconds, the speed it
    /// plays at, and whether it is playing.
    CurrentStatus { time: u64, rate: Rate, playing: bool },
    /// The text around the cue being read.
    CueContext(CueContext),
}

/// What a message to the presenter's surface holds, mathematically.
pub enum MainToAuxView {
    CurrentStatus { time: nat, rate: Rate, playing: bool },
    CueContext(CueContextView),
}

impl View for MainToAuxInterop {
    type V = MainToAuxView;

    open spec fn view(&self) -> MainToAuxView {
        match *self {
            MainToAuxInterop::CurrentStatus { time, rate, playing } => MainToAuxView::CurrentStatus {
                time: time as nat,
                rate,
                playing,
            },
            MainToAuxInterop::CueContext(ctx) => MainToAuxView::CueContext(ctx@),
        }
    }
}

/// A command from the presenter's surface to the main surface.
#[derive(Debug, Clone, Copy, PartialEq, Eq, Structural)]
pub enum AuxToMainInterop {
    /// The presenter has finished the cue being read: go on to the next.
    AdvanceDeadline,
    /// Play, or pause. This names the state wanted, not a change of state.
    SetIsPlaying(bool),
    /// Forget the learned pace.
    ResetRate,
}

/// The first cue of the context before cue `deadline`.
pub open spec fn context_start(deadline: int) -> int {
    if deadline >= CONTEXT_BEFORE {
        deadline - CONTEXT_BEFORE
    } else {
        0
    }
}

/// One past the last cue of the context after cue `deadline`, in a script of
/// `len` cues.
pub open spec fn context_stop(deadline: int, len: int) -> int {
    if deadline + 1 + CONTEXT_AFTER <= len {
        deadline + 1 + CONTEXT_AFTER
    } else {
        len
    }
}

/// The context of cue `deadline` in the script: the texts of the two cues
/// before it, as far as there are any, its own text, its index as a 32-bit
/// number, and the texts of the four cues after it, as far as there are any.
pub open spec fn context_of(cues: Seq<CueView>, deadline: usize) -> CueContextView {
    CueContextView {
        prev: texts(cues.subrange(context_start(deadline as int), deadline as int)),
        current: cues[deadline as int].text,
        current_idx: (deadline as i32) as int,
        next: texts(cues.subrange(deadline + 1, context_stop(deadline as int, cues.len() as int))),
    }
}

/// The texts of the cues from `from` up to, not including, `to`.
fn texts_between(cues: &CueList, from: usize, to: usize) -> (out: Vec<String>)
    requires
        from <= to <= cues@.len(),
    ensures
        string_views(out@) == texts(cues@.subrange(from as int, to as int)),
{
    let mut out: Vec<String> = Vec::new();
    let mut i: usize = from;
    while i < to
        invariant
            from <= i <= to <= cues@.len(),
            string_views(out@) =~= texts(cues@.subrange(from as int, i as int)),
        decreases to - i,
    {
        let text: String = cues.get(i).text().to_owned();
        let ghost before = out@;
        out.push(text);
        proof {
            let grown = cues@.subrange(from as int, i + 1);
            assert(grown =~= cues@.subrange(from as int, i as int).push(cues@[i as int]));
            assert(string_views(before).len() == i - from);
            assert forall|k: int| 0 <= k < out@.len() implies string_views(out@)[k] == texts(
                grown,
            )[k] by {
                if k < before.len() {
                    assert(string_views(before)[k] == texts(
                        cues@.subrange(from as int, i as int),
                    )[k]);
                }
            }
        }
        i = i + 1;
    }
    out
}

/// The text to show the presenter while cue `deadline_index` is being read.
pub fn cue_context(cues: &CueList, deadline_index: usize) -> (ctx: CueContext)
    requires
        deadline_index < cues@.len(),
    ensures
        ctx@ == context_of(cues@, deadline_index),
{
    let n: usize = cues.len();
    let start: usize = if deadline_index >= CONTEXT_BEFORE {
        deadline_index - CONTEXT_BEFORE
    } else {
        0
    };
    let stop: usize = if n - deadline_index > CONTEXT_AFTER {
        deadline_index + 1 + CONTEXT_AFTER
    } else {
        n
    };
    let prev = texts_between(cues, start, deadline_index);
    let next = texts_between(cues, deadline_index + 1, stop);
    let current: String = cues.get(deadline_index).text().to_owned();
    let current_idx: i32 = #[verifier::truncate]
    (deadline_index as i32);
    CueContext { prev, current, current_idx, next }
}

/// Something that happens on the presenter's surface.
#[derive(Debug, Clone, PartialEq, Eq)]
pub enum AuxAppMsg {
    /// A message from the main surface has arrived.
    ReceivedMessage(MainToAuxInterop),
    /// The presenter has asked for a command to be sent.
    WantingToSend(AuxToMainInterop),
}

/// What the presenter's surface knows: the latest status of the video and
/// the latest text around the cue being read.
#[derive(Debug, PartialEq, Eq)]
pub struct AuxApp {
    pub current_video_time: u64,
    pub context: CueContext,
    pub current_video_rate: Rate,
    pub is_playing: bool,
}

impl Default for AuxApp {
    /// The surface before any message has arrived.
    fn default() -> (app: AuxApp)
        ensures
            app.current_video_time == 0,
            app.current_video_rate.millionths == 0,
            !app.is_playing,
            app.context@ == CueContext::default_view(),
    {
        AuxApp {
            current_video_time: 0,
            context: CueContext::default(),
            current_video_rate: Rate::zero(),
            is_playing: false,
        }
    }
}

/// The surface after a message from the main surface: a status replaces the
/// status kept, a context replaces the context kept.
pub open spec fn after_message(pre: AuxApp, message: MainToAuxInterop) -> AuxApp {
    match message {
        MainToAuxInterop::CurrentStatus { time, rate, playing } => AuxApp {
            current_video_time: time,
            current_video_rate: rate,
            is_playing: playing,
            context: pre.context,
        },
        MainToAuxInterop::CueContext(context) => AuxApp { context, ..pre },
    }
}

impl AuxApp {
    /// The surface before any message has arrived.
    pub fn create() -> (app: AuxApp)
        ensures
            app.current_video_time == 0,
            app.current_video_rate.millionths == 0,
            !app.is_playing,
            app.context@ == CueContext::default_view(),
    {
        AuxApp::default()
    }

    /// Takes in one event and says which command, if any, is to be sent to
    /// the main surface.
    ///
    /// A message from the main surface replaces what is kept of its kind
    /// and sends nothing. A wish to send changes nothing and hands the
    /// command on.
    pub fn update(&mut self, msg: AuxAppMsg) -> (outgoing: Option<AuxToMainInterop>)
        ensures
            match msg {
                AuxAppMsg::ReceivedMessage(message) => {
                    &&& outgoing is None
                    &&& *final(self) == after_message(*old(self), message)
                },
                AuxAppMsg::WantingToSend(command) => {
                    &&& outgoing == Some(command)
                    &&& *final(self) == *old(self)
                },
            },
    {
        match msg {
            AuxAppMsg::ReceivedMessage(value) => {
                match value {
                    MainToAuxInterop::CurrentStatus { time, rate, playing } => {
                        self.current_video_time = time;
                        self.current_video_rate = rate;
                        self.is_playing = playing;
                    },
                    MainToAuxInterop::CueContext(ctx) => {
                        self.context = ctx;
                    },
                }
                None
            },
            AuxAppMsg::WantingToSend(value) => Some(value),
        }
    }

    /// Takes in what has arrived from the main surface: a message, or
    /// nothing where the payload could not be read. A payload that could
    /// not be read is a lost message and changes nothing.
    pub fn receive(&mut self, payload: Option<MainToAuxInterop>)
        ensures
            match payload {
                Some(message) => *final(self) == after_message(*old(self), message),
                None => *final(self) == *old(self),
            },
    {
        match payload {
            Some(message) => {
                self.update(AuxAppMsg::ReceivedMessage(message));
            },
            None => {},
        }
    }
}

} // verus!
