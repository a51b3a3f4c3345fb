//! Deadline-paced playback control for a narrated video presentation.
//!
//! A presentation is a video plus a list of timed cues. The presenter reads
//! each cue aloud and signals when one is finished; the controller follows
//! the video position through the cue list, steers the playback speed so the
//! picture arrives at the end of the cue being read just as the presenter
//! does, and learns the presenter's pace from the cues already read.
//!
//! All times are whole nanoseconds and all speeds are whole millionths, so
//! every rule in this crate is exact integer arithmetic.

pub mod aux;
pub mod common;
pub mod controller;
pub mod cue;
pub mod deadline;
pub mod pace;
pub mod rate;
pub mod tracker;
pub mod vtt;

