use cue_pacer::cue::{Cue, CueList};
use cue_pacer::deadline::DeadlineState;
use cue_pacer::rate::Rate;

const SEC: u64 = 1_000_000_000;

fn rate(millionths: u32) -> Rate {
    Rate { millionths }
}

fn script(count: u64) -> CueList {
    let mut list = CueList::new(Cue::new(0, 6 * SEC, String::from("cue 0")).unwrap());
    for i in 1..count {
        list = list.with(Cue::new(10 * i * SEC, (10 * i + 4) * SEC, format!("cue {i}")).unwrap());
    }
    list
}

#[test]
fn deadline_starts_at_the_first_cue() {
    let state = DeadlineState::new();
    assert_eq!(state.deadline_index(), 0);
    assert_eq!(state.started_at(), 0);
    assert_eq!(state.target_rate(), rate(1_000_000));
    assert!(state.history().is_empty());
}

#[test]
fn advance_moves_on_by_one_each_time() {
    let cues = script(6);
    let mut state = DeadlineState::new();
    for presses in 1..6 {
        assert!(state.advance(&cues, presses as u64 * SEC));
        assert_eq!(state.deadline_index(), presses);
    }
}

#[test]
fn advance_stays_on_the_last_cue() {
    let cues = script(3);
    let mut state = DeadlineState::new();
    assert!(state.advance(&cues, 5 * SEC));
    assert!(state.advance(&cues, 10 * SEC));
    assert_eq!(state.deadline_index(), 2);
    let learned = state.history().clone();
    for presses in 0..4 {
        assert!(!state.advance(&cues, (20 + presses) * SEC));
        assert_eq!(state.deadline_index(), 2);
        assert_eq!(state.started_at(), 10 * SEC);
        assert_eq!(state.history(), &learned);
    }
}

#[test]
fn advance_in_a_script_of_one_cue_does_nothing() {
    let cues = script(1);
    let mut state = DeadlineState::new();
    assert!(!state.advance(&cues, 5 * SEC));
    assert_eq!(state.deadline_index(), 0);
    assert_eq!(state.started_at(), 0);
    assert!(state.history().is_empty());
}

#[test]
fn advance_learns_from_the_cue_just_read() {
    let cues = script(4);
    let mut state = DeadlineState::new();
    state.restart_clock(100 * SEC);
    assert!(state.advance(&cues, 105 * SEC));
    assert_eq!(state.history(), &vec![rate(1_200_000)]);
    assert_eq!(state.target_rate(), rate(1_200_000));
    assert_eq!(state.started_at(), 105 * SEC);
    assert!(state.advance(&cues, 110 * SEC));
    assert_eq!(state.history(), &vec![rate(1_200_000), rate(800_000)]);
    assert_eq!(state.target_rate(), rate(1_000_000));
}

#[test]
fn advance_without_time_passed_learns_nothing() {
    let cues = script(4);
    let mut state = DeadlineState::new();
    state.restart_clock(100 * SEC);
    assert!(state.advance(&cues, 100 * SEC));
    assert!(state.history().is_empty());
    assert_eq!(state.deadline_index(), 1);
    assert!(state.advance(&cues, 90 * SEC));
    assert!(state.history().is_empty());
    assert_eq!(state.deadline_index(), 2);
    assert_eq!(state.started_at(), 90 * SEC);
    assert_eq!(state.target_rate(), rate(1_000_000));
}

#[test]
fn current_deadline_cue_follows_the_cursor() {
    let cues = script(3);
    let mut state = DeadlineState::new();
    assert_eq!(state.current_deadline_cue(&cues).text(), "cue 0");
    state.advance(&cues, SEC);
    assert_eq!(state.current_deadline_cue(&cues).text(), "cue 1");
}

#[test]
fn reset_rate_keeps_cursor_and_clock() {
    let cues = script(3);
    let mut state = DeadlineState::new();
    state.advance(&cues, 3 * SEC);
    state.reset_rate();
    assert_eq!(state.deadline_index(), 1);
    assert_eq!(state.started_at(), 3 * SEC);
    assert_eq!(state.target_rate(), rate(1_000_000));
    assert!(state.history().is_empty());
}
