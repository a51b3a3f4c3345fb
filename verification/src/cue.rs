//! The cue model: a timed span of text, and the non-empty list of cues that
//! makes up a presentation's script.

use vstd::prelude::*;

verus! {

/// What a cue is, mathematically: a closed interval of playback time, in
/// nanoseconds, and the text shown during it.
pub struct CueView {
    pub start: nat,
    pub end: nat,
    pub text: Seq<char>,
}

impl CueView {
    /// A cue never ends before it starts.
    pub open spec fn wf(self) -> bool {
        self.start <= self.end
    }

    /// The nominal time the cue is given, in nanoseconds.
    pub open spec fn duration(self) -> int {
        self.end - self.start
    }

    /// `now` lies within the cue, both ends included.
    pub open spec fn contains(self, now: nat) -> bool {
        self.start <= now <= self.end
    }

    /// The cue lies wholly before `now`.
    pub open spec fn passed(self, now: nat) -> bool {
        self.end < now
    }
}

/// A timed span of text. Times are nanoseconds from the start of the video.
#[derive(Debug)]
pub struct Cue {
    start: u64,
    end: u64,
    text: String,
}

impl View for Cue {
    type V = CueView;

    closed spec fn view(&self) -> CueView {
        CueView { start: self.start as nat, end: self.end as nat, text: self.text@ }
    }
}

impl Cue {
    /// Every cue value is well formed: it never ends before it starts.
    #[verifier::type_invariant]
    pub open spec fn wf(&self) -> bool {
        self@.wf()
    }

    /// Makes a cue, or nothing when `end` lies before `start`.
    pub fn new(start: u64, end: u64, text: String) -> (r: Option<Cue>)
        ensures
            r is Some <==> start <= end,
            r matches Some(c) ==> c.wf() && c@ == (CueView {
                start: start as nat,
                end: end as nat,
                text: text@,
            }),
    {
        if start <= end {
            Some(Cue { start, end, text })
        } else {
            None
        }
    }

    pub fn start(&self) -> (t: u64)
        ensures
            t == self@.start,
            t <= self@.end,
    {
        proof {
            use_type_invariant(self);
        }
        self.start
    }

    pub fn end(&self) -> (t: u64)
        ensures
            t == self@.end,
    {
        self.end
    }

    pub fn text(&self) -> (s: &str)
        ensures
            s@ == self@.text,
    {
        self.text.as_str()
    }

    /// The nominal time the cue is given.
    pub fn duration(&self) -> (d: u64)
        ensures
            d == self@.duration(),
    {
        proof {
            use_type_invariant(self);
        }
        self.end - self.start
    }

    /// Whether `now` lies within the cue, both ends included.
    pub fn fits(&self, now: u64) -> (b: bool)
        ensures
            b == self@.contains(now as nat),
    {
        self.start <= now && now <= self.end
    }

    /// A copy of the cue.
    pub fn duplicate(&self) -> (c: Cue)
        ensures
            c@ == self@,
    {
        proof {
            use_type_invariant(self);
        }
        Cue { start: self.start, end: self.end, text: self.text.clone() }
    }
}

/// The script of a presentation: its cues, in the order they are shown.
/// A list always holds at least one cue.
#[derive(Debug)]
pub struct CueList {
    cues: Vec<Cue>,
}

impl View for CueList {
    type V = Seq<CueView>;

    closed spec fn view(&self) -> Seq<CueView> {
        views_of(self.cues@)
    }
}

spec fn views_of(cues: Seq<Cue>) -> Seq<CueView> {
    cues.map_values(|c: Cue| c@)
}

/// A sequence of cue views that can be a script: not empty, every cue well
/// formed.
pub open spec fn script_wf(cues: Seq<CueView>) -> bool {
    &&& cues.len() > 0
    &&& forall|i: int| 0 <= i < cues.len() ==> (#[trigger] cues[i]).wf()
}

impl CueList {
    #[verifier::type_invariant]
    pub open spec fn wf(&self) -> bool {
        script_wf(self@)
    }

    /// A list of one cue.
    pub fn new(first: Cue) -> (list: CueList)
        ensures
            list@ == seq![first@],
    {
        proof {
            use_type_invariant(&first);
        }
        let mut cues: Vec<Cue> = Vec::new();
        cues.push(first);
        assert(views_of(cues@) =~= seq![first@]);
        CueList { cues }
    }

    /// The list with one more cue at the end.
    pub fn with(self, cue: Cue) -> (list: CueList)
        ensures
            list@ == self@.push(cue@),
    {
        proof {
            use_type_invariant(&self);
            use_type_invariant(&cue);
        }
        let ghost before = self@;
        let mut cues = self.cues;
        cues.push(cue);
        assert(views_of(cues@) =~= before.push(cue@));
        CueList { cues }
    }

    /// The number of cues, never zero.
    pub fn len(&self) -> (n: usize)
        ensures
            n == self@.len(),
            n > 0,
    {
        proof {
            use_type_invariant(self);
        }
        self.cues.len()
    }

    /// The cue at `index`.
    pub fn get(&self, index: usize) -> (cue: &Cue)
        requires
            index < self@.len(),
        ensures
            cue@ == self@[index as int],
    {
        &self.cues[index]
    }
}

} // verus!
