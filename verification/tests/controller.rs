use cue_pacer::aux::{AuxToMainInterop, CueContext, MainToAuxInterop};
use cue_pacer::controller::{Controller, Effect, Msg, PlaybackState, Reading};
use cue_pacer::cue::{Cue, CueList};
use cue_pacer::rate::Rate;
use cue_pacer::tracker::TrackerState;

const SEC: u64 = 1_000_000_000;

fn rate(millionths: u32) -> Rate {
    Rate { millionths }
}

/// Cue `i` runs from `10 * i` to `10 * i + 5` seconds.
fn script(count: u64) -> CueList {
    let mut list = CueList::new(Cue::new(0, 5 * SEC, String::from("cue 0")).unwrap());
    for i in 1..count {
        list = list.with(Cue::new(10 * i * SEC, (10 * i + 5) * SEC, format!("cue {i}")).unwrap());
    }
    list
}

fn reading(time: u64) -> Option<Reading> {
    Some(Reading { time, rate: rate(900_000), paused: false })
}

fn snapshot(controller: &Controller) -> (TrackerState, PlaybackState, usize, u64, Vec<Rate>, Rate, u32) {
    (
        controller.tracker(),
        controller.playback(),
        controller.deadline().deadline_index(),
        controller.deadline().started_at(),
        controller.deadline().history().clone(),
        controller.deadline().target_rate(),
        controller.slow_threshold(),
    )
}

#[test]
fn controller_starts_at_the_first_cue() {
    let controller = Controller::create(script(3));
    assert_eq!(controller.cues().len(), 3);
    assert_eq!(controller.tracker(), TrackerState { current_block: 0, visible: false });
    assert_eq!(
        controller.playback(),
        PlaybackState { current_time: 0, rate: rate(1_000_000), is_playing: false }
    );
    assert_eq!(controller.deadline().deadline_index(), 0);
    assert_eq!(controller.deadline().target_rate(), rate(1_000_000));
    assert!(controller.deadline().history().is_empty());
    assert_eq!(controller.slow_threshold(), 100_000);
}

#[test]
fn tick_without_a_video_does_nothing() {
    let mut controller = Controller::create(script(3));
    let before = snapshot(&controller);
    assert_eq!(controller.update(Msg::Periodic(None), 7 * SEC), vec![]);
    assert_eq!(controller.periodic(None), vec![]);
    assert_eq!(snapshot(&controller), before);
}

#[test]
fn tick_reports_status_context_and_rate() {
    let mut controller = Controller::create(script(8));
    controller.set_slow_threshold(200_000);
    let effects = controller.update(Msg::Periodic(reading(4 * SEC + SEC / 2)), 0);
    assert_eq!(
        effects,
        vec![
            Effect::SendToChild(MainToAuxInterop::CurrentStatus {
                time: 4 * SEC + SEC / 2,
                rate: rate(900_000),
                playing: true,
            }),
            Effect::SendToChild(MainToAuxInterop::CueContext(CueContext {
                prev: vec![],
                current: String::from("cue 0"),
                current_idx: 0,
                next: vec![
                    String::from("cue 1"),
                    String::from("cue 2"),
                    String::from("cue 3"),
                    String::from("cue 4"),
                ],
            })),
            Effect::SetPlaybackRate(rate(500_000)),
        ]
    );
    assert_eq!(controller.tracker(), TrackerState { current_block: 0, visible: true });
    assert_eq!(controller.playback().current_time, 4 * SEC + SEC / 2);
    assert_eq!(controller.playback().rate, rate(1_000_000));
    assert!(!controller.playback().is_playing);
}

#[test]
fn tick_follows_the_video_through_the_script() {
    let mut controller = Controller::create(script(4));
    controller.periodic(reading(12 * SEC));
    assert_eq!(controller.tracker(), TrackerState { current_block: 1, visible: true });
    controller.periodic(reading(17 * SEC));
    assert_eq!(controller.tracker(), TrackerState { current_block: 1, visible: false });
    controller.periodic(reading(2 * SEC));
    assert_eq!(controller.tracker(), TrackerState { current_block: 0, visible: true });
    assert_eq!(controller.deadline().deadline_index(), 0);
}

#[test]
fn tick_speeds_up_while_the_video_is_behind_the_deadline() {
    let mut controller = Controller::create(script(4));
    controller.update(Msg::NextDeadline, 5 * SEC);
    assert_eq!(controller.deadline().target_rate(), rate(1_000_000));
    let effects = controller.periodic(reading(5 * SEC));
    assert_eq!(controller.tracker(), TrackerState { current_block: 0, visible: true });
    assert_eq!(effects[2], Effect::SetPlaybackRate(rate(4_000_000)));
    let effects = controller.periodic(reading(12 * SEC + SEC / 2));
    assert_eq!(controller.tracker(), TrackerState { current_block: 1, visible: true });
    assert_eq!(effects[2], Effect::SetPlaybackRate(rate(1_000_000)));
}

#[test]
fn tick_stops_the_video_past_the_deadline() {
    let mut controller = Controller::create(script(4));
    controller.periodic(reading(3 * SEC));
    let effects = controller.periodic(reading(5 * SEC + 1));
    assert_eq!(controller.tracker(), TrackerState { current_block: 0, visible: false });
    assert_eq!(effects[2], Effect::SetPlaybackRate(rate(0)));
}

#[test]
fn tick_context_follows_the_deadline_not_the_video() {
    let mut controller = Controller::create(script(9));
    for press in 0..3 {
        controller.update(Msg::NextDeadline, press * SEC);
    }
    let effects = controller.periodic(reading(82 * SEC));
    assert_eq!(controller.tracker().current_block, 8);
    match &effects[1] {
        Effect::SendToChild(MainToAuxInterop::CueContext(context)) => {
            assert_eq!(context.prev, vec![String::from("cue 1"), String::from("cue 2")]);
            assert_eq!(context.current, "cue 3");
            assert_eq!(context.current_idx, 3);
            assert_eq!(context.next.len(), 4);
        }
        other => panic!("no context: {other:?}"),
    }
}

#[test]
fn playing_starts_the_clock() {
    let mut controller = Controller::create(script(3));
    assert_eq!(controller.update(Msg::Playing(true), 50 * SEC), vec![]);
    assert!(controller.playback().is_playing);
    assert_eq!(controller.deadline().started_at(), 50 * SEC);
    assert_eq!(controller.update(Msg::Playing(false), 60 * SEC), vec![]);
    assert!(!controller.playback().is_playing);
    assert_eq!(controller.deadline().started_at(), 50 * SEC);
}

#[test]
fn rate_change_is_noted() {
    let mut controller = Controller::create(script(3));
    assert_eq!(controller.update(Msg::RateChange(rate(1_750_000)), 0), vec![]);
    assert_eq!(controller.playback().rate, rate(1_750_000));
    assert_eq!(controller.deadline().target_rate(), rate(1_000_000));
}

#[test]
fn next_deadline_advances_and_learns() {
    let mut controller = Controller::create(script(3));
    controller.update(Msg::Playing(true), 100 * SEC);
    assert_eq!(controller.update(Msg::NextDeadline, 104 * SEC), vec![]);
    assert_eq!(controller.deadline().deadline_index(), 1);
    assert_eq!(controller.deadline().history(), &vec![rate(1_250_000)]);
    assert_eq!(controller.deadline().target_rate(), rate(1_250_000));
    let effects = controller.periodic(reading(10 * SEC));
    assert_eq!(effects[2], Effect::SetPlaybackRate(rate(1_250_000)));
}

#[test]
fn advance_command_is_the_same_as_next_deadline() {
    let mut by_command = Controller::create(script(3));
    let mut by_event = Controller::create(script(3));
    for wall in [3 * SEC, 9 * SEC, 11 * SEC, 12 * SEC] {
        let command = Msg::ReceivedFromChild(AuxToMainInterop::AdvanceDeadline);
        assert_eq!(by_command.update(command, wall), vec![]);
        assert_eq!(by_event.update(Msg::NextDeadline, wall), vec![]);
        assert_eq!(snapshot(&by_command), snapshot(&by_event));
    }
    assert_eq!(by_command.deadline().deadline_index(), 2);
}

#[test]
fn advancing_n_times_leads_to_cue_n() {
    for presses in 0..12 {
        let mut controller = Controller::create(script(8));
        for press in 0..presses {
            controller.next_deadline(press as u64 * SEC);
        }
        assert_eq!(controller.deadline().deadline_index(), presses.min(7));
    }
}

#[test]
fn set_is_playing_is_handed_to_the_video() {
    let mut controller = Controller::create(script(3));
    let before = snapshot(&controller);
    let play = Msg::ReceivedFromChild(AuxToMainInterop::SetIsPlaying(true));
    let pause = Msg::ReceivedFromChild(AuxToMainInterop::SetIsPlaying(false));
    assert_eq!(controller.update(play, SEC), vec![Effect::Play]);
    assert_eq!(controller.update(pause, 2 * SEC), vec![Effect::Pause]);
    assert_eq!(snapshot(&controller), before);
}

#[test]
fn set_is_playing_can_be_replayed() {
    let mut controller = Controller::create(script(3));
    controller.update(Msg::NextDeadline, 4 * SEC);
    let play = Msg::ReceivedFromChild(AuxToMainInterop::SetIsPlaying(true));
    let mut video_playing = false;
    assert_eq!(controller.update(play, 5 * SEC), vec![Effect::Play]);
    video_playing = video_playing || true;
    let after_first = (snapshot(&controller), video_playing);
    for replay in 0..5 {
        for effect in controller.update(play, (6 + replay) * SEC) {
            match effect {
                Effect::Play => video_playing = true,
                Effect::Pause => video_playing = false,
                _ => {}
            }
        }
        assert_eq!((snapshot(&controller), video_playing), after_first);
    }
}

#[test]
fn reset_rate_forgets_the_learned_pace() {
    let mut controller = Controller::create(script(4));
    controller.update(Msg::Playing(true), 100 * SEC);
    controller.update(Msg::NextDeadline, 104 * SEC);
    controller.update(Msg::RateChange(rate(1_250_000)), 104 * SEC);
    let reset = Msg::ReceivedFromChild(AuxToMainInterop::ResetRate);
    assert_eq!(controller.update(reset, 105 * SEC), vec![Effect::SetPlaybackRate(rate(1_000_000))]);
    assert_eq!(controller.deadline().target_rate(), rate(1_000_000));
    assert!(controller.deadline().history().is_empty());
    assert_eq!(controller.deadline().deadline_index(), 1);
    assert_eq!(controller.deadline().started_at(), 104 * SEC);
    assert_eq!(controller.playback().rate, rate(1_250_000));
    let after_first = snapshot(&controller);
    assert_eq!(controller.update(reset, 106 * SEC), vec![Effect::SetPlaybackRate(rate(1_000_000))]);
    assert_eq!(snapshot(&controller), after_first);
}

#[test]
fn slow_threshold_can_be_set() {
    let mut controller = Controller::create(script(3));
    controller.set_slow_threshold(500_000);
    assert_eq!(controller.slow_threshold(), 500_000);
    let effects = controller.periodic(reading(4 * SEC));
    assert_eq!(effects[2], Effect::SetPlaybackRate(rate(400_000)));
}

#[test]
fn a_payload_that_could_not_be_read_is_dropped() {
    let mut controller = Controller::create(script(3));
    controller.update(Msg::NextDeadline, 4 * SEC);
    let before = snapshot(&controller);
    assert_eq!(controller.receive(None, 9 * SEC), vec![]);
    assert_eq!(snapshot(&controller), before);
}

#[test]
fn a_payload_that_was_read_is_a_command() {
    let mut controller = Controller::create(script(3));
    assert_eq!(controller.receive(Some(AuxToMainInterop::SetIsPlaying(false)), SEC), vec![Effect::Pause]);
    assert_eq!(controller.receive(Some(AuxToMainInterop::AdvanceDeadline), 5 * SEC), vec![]);
    assert_eq!(controller.deadline().deadline_index(), 1);
    assert_eq!(
        controller.receive(Some(AuxToMainInterop::ResetRate), 6 * SEC),
        vec![Effect::SetPlaybackRate(rate(1_000_000))]
    );
    assert!(controller.deadline().history().is_empty());
}

#[test]
fn the_current_block_has_passed_once_the_video_is_beyond_it() {
    let mut controller = Controller::create(script(3));
    assert!(!controller.current_block_has_passed());
    controller.periodic(reading(3 * SEC));
    assert!(!controller.current_block_has_passed());
    controller.periodic(reading(5 * SEC));
    assert!(!controller.current_block_has_passed());
    controller.periodic(reading(7 * SEC));
    assert_eq!(controller.tracker(), TrackerState { current_block: 0, visible: false });
    assert!(controller.current_block_has_passed());
    controller.periodic(reading(12 * SEC));
    assert!(!controller.current_block_has_passed());
    controller.periodic(reading(99 * SEC));
    assert_eq!(controller.tracker(), TrackerState { current_block: 2, visible: false });
    assert!(controller.current_block_has_passed());
}

#[test]
fn the_current_block_has_not_passed_before_the_first_cue() {
    let first = Cue::new(10 * SEC, 15 * SEC, String::from("late start")).unwrap();
    let mut controller = Controller::create(CueList::new(first));
    controller.periodic(reading(2 * SEC));
    assert_eq!(controller.tracker(), TrackerState { current_block: 0, visible: false });
    assert!(!controller.current_block_has_passed());
}

#[test]
fn a_first_cue_finished_before_any_play_is_measured_from_the_start() {
    let mut controller = Controller::create(script(3));
    assert_eq!(controller.deadline().started_at(), 0);
    controller.update(Msg::NextDeadline, 4 * SEC);
    assert_eq!(controller.deadline().history(), &vec![rate(1_250_000)]);
}
