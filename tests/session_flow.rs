use attention_session::attention::{classify, AttentionState, FrameSignals};
use attention_session::events::{alarm_text, Alarm, EventKind};
use attention_session::protocol::StatusTag;
use attention_session::session::{Action, Inbound, Payload, Session};

fn frame(left: bool, right: bool, turned: bool, yawning: bool) -> FrameSignals {
    FrameSignals { left_eye_closed: left, right_eye_closed: right, head_turned: turned, yawning }
}

fn data(f: FrameSignals) -> Inbound {
    Inbound::Data(Some(f))
}

fn status(tag: StatusTag) -> Inbound {
    Inbound::StatusUpdate(Some(tag))
}

fn publishes(actions: &[Action]) -> Vec<(EventKind, Payload)> {
    actions
        .iter()
        .filter_map(|a| match a {
            Action::Publish(k, p) => Some((*k, *p)),
            _ => None,
        })
        .collect()
}

fn alarms(actions: &[Action]) -> Vec<Alarm> {
    actions
        .iter()
        .filter_map(|a| match a {
            Action::Alarm(al) => Some(*al),
            _ => None,
        })
        .collect()
}

#[test]
fn closed_eyes_are_drowsy_even_with_turned_head() {
    assert_eq!(classify(&frame(true, true, true, false)), AttentionState::Drowsy);
    assert_eq!(classify(&frame(true, true, false, true)), AttentionState::Drowsy);
}

#[test]
fn one_open_eye_and_turned_head_is_distracted() {
    assert_eq!(classify(&frame(true, false, true, false)), AttentionState::Distracted);
    assert_eq!(classify(&frame(false, true, true, false)), AttentionState::Distracted);
    assert_eq!(classify(&frame(false, false, true, false)), AttentionState::Distracted);
}

#[test]
fn otherwise_focused() {
    assert_eq!(classify(&frame(true, false, false, false)), AttentionState::Focused);
    assert_eq!(classify(&frame(false, false, false, true)), AttentionState::Focused);
}

#[test]
fn new_session_is_focused_without_yawns() {
    let s = Session::new(42);
    assert_eq!(s.state(), AttentionState::Focused);
    assert_eq!(s.state_changed_at_ms(), 42);
    assert_eq!(s.yawn_count(), 0);
    assert!(!s.has_ended());
}

#[test]
fn drowsy_transition_publishes_duration_and_alarm() {
    let mut s = Session::new(1000);
    let acts = s.handle(data(frame(true, true, false, false)), 1750);
    assert_eq!(
        acts,
        vec![
            Action::Relay,
            Action::Publish(EventKind::DrowsinessStarted, Payload::PreviousStateDuration(750)),
            Action::Alarm(Alarm::Drowsiness),
        ]
    );
    assert_eq!(s.state(), AttentionState::Drowsy);
    assert_eq!(s.state_changed_at_ms(), 1750);
}

#[test]
fn duration_is_zero_when_clock_reads_earlier() {
    let mut s = Session::new(500);
    let acts = s.handle(data(frame(false, false, true, false)), 400);
    assert_eq!(
        publishes(&acts),
        vec![(EventKind::DistractionStarted, Payload::PreviousStateDuration(0))]
    );
}

#[test]
fn same_classification_twice_emits_once() {
    let mut s = Session::new(0);
    let first = s.handle(data(frame(false, false, true, false)), 10);
    assert_eq!(publishes(&first).len(), 1);
    assert_eq!(alarms(&first), vec![Alarm::Distraction]);
    let second = s.handle(data(frame(false, false, true, false)), 20);
    assert_eq!(second, vec![Action::Relay]);
    assert_eq!(s.state_changed_at_ms(), 10);
}

#[test]
fn same_status_twice_emits_once() {
    let mut s = Session::new(0);
    let first = s.handle(status(StatusTag::NoFaceDetected), 5);
    assert_eq!(
        first,
        vec![
            Action::Relay,
            Action::Publish(EventKind::UserLeft, Payload::PreviousStateDuration(5)),
            Action::Alarm(Alarm::Absence),
        ]
    );
    let second = s.handle(status(StatusTag::NoFaceDetected), 9);
    assert_eq!(second, vec![Action::Relay]);
}

#[test]
fn focused_frame_on_focused_session_only_relays() {
    let mut s = Session::new(0);
    assert_eq!(s.handle(data(frame(false, false, false, false)), 3), vec![Action::Relay]);
}

#[test]
fn paused_session_bypasses_data_frames() {
    let mut s = Session::new(0);
    let acts = s.handle(status(StatusTag::Paused), 100);
    assert_eq!(
        acts,
        vec![Action::Relay, Action::Publish(EventKind::SessionPaused, Payload::PreviousStateDuration(100))]
    );
    for f in [frame(true, true, false, true), frame(false, false, true, false)] {
        assert_eq!(s.handle(data(f), 200), vec![Action::Relay]);
    }
    assert_eq!(s.handle(Inbound::Data(None), 210), vec![Action::Relay]);
    assert_eq!(s.state(), AttentionState::Paused);
    assert_eq!(s.yawn_count(), 0);
    assert_eq!(s.state_changed_at_ms(), 100);
}

#[test]
fn yawn_alarms_at_five_and_ten() {
    let mut s = Session::new(0);
    let mut yawn_alarms: Vec<(u64, String)> = Vec::new();
    let mut yawn_events = 0;
    let mut t: u64 = 0;
    for i in 0..10 {
        t += 10;
        let acts = s.handle(data(frame(false, false, false, true)), t);
        yawn_events += publishes(&acts).iter().filter(|p| p.0 == EventKind::YawnDetected).count();
        for a in alarms(&acts) {
            if let Alarm::Yawns(n) = a {
                yawn_alarms.push((n, alarm_text(&a)));
            }
        }
        if i == 4 {
            assert_eq!(yawn_alarms.len(), 1);
        }
        t += 10;
        let quiet = s.handle(data(frame(false, false, false, false)), t);
        assert_eq!(quiet, vec![Action::Relay]);
    }
    assert_eq!(yawn_events, 10);
    assert_eq!(s.yawn_count(), 10);
    assert_eq!(yawn_alarms.len(), 2);
    assert_eq!(yawn_alarms[0].0, 5);
    assert!(yawn_alarms[0].1.contains('5'));
    assert_eq!(yawn_alarms[1].0, 10);
    assert!(yawn_alarms[1].1.contains("10"));
}

#[test]
fn yawn_comes_before_transition() {
    let mut s = Session::new(0);
    let acts = s.handle(data(frame(true, true, false, true)), 30);
    assert_eq!(
        acts,
        vec![
            Action::Relay,
            Action::Publish(EventKind::YawnDetected, Payload::Empty),
            Action::Publish(EventKind::DrowsinessStarted, Payload::PreviousStateDuration(30)),
            Action::Alarm(Alarm::Drowsiness),
        ]
    );
}

#[test]
fn start_publishes_session_start_without_state_change() {
    let mut s = Session::new(0);
    s.handle(status(StatusTag::Paused), 5);
    let acts = s.handle(Inbound::Start, 50);
    assert_eq!(acts, vec![Action::Relay, Action::Publish(EventKind::SessionStart, Payload::Inbound)]);
    assert_eq!(s.state(), AttentionState::Paused);
    assert_eq!(s.state_changed_at_ms(), 5);
}

#[test]
fn end_publishes_session_end_and_stops() {
    let mut s = Session::new(0);
    let acts = s.handle(Inbound::End, 60);
    assert_eq!(
        acts,
        vec![Action::Relay, Action::Publish(EventKind::SessionEnd, Payload::Inbound), Action::Close]
    );
    assert!(s.has_ended());
    assert_eq!(s.handle(data(frame(true, true, false, true)), 70), Vec::<Action>::new());
    assert_eq!(s.handle(Inbound::Start, 80), Vec::<Action>::new());
    assert_eq!(s.state(), AttentionState::Focused);
    assert_eq!(s.yawn_count(), 0);
}

#[test]
fn resume_from_pause_and_restore_from_drowsy() {
    let mut s = Session::new(0);
    s.handle(status(StatusTag::Paused), 100);
    let acts = s.handle(status(StatusTag::Resumed), 400);
    assert_eq!(
        acts,
        vec![Action::Relay, Action::Publish(EventKind::SessionResumed, Payload::PreviousStateDuration(300))]
    );
    s.handle(data(frame(true, true, false, false)), 500);
    let acts = s.handle(data(frame(false, false, false, false)), 900);
    assert_eq!(
        acts,
        vec![Action::Relay, Action::Publish(EventKind::FocusRestored, Payload::PreviousStateDuration(400))]
    );
}

#[test]
fn ignored_messages_only_relay() {
    let mut s = Session::new(0);
    assert_eq!(s.handle(Inbound::Other, 1), vec![Action::Relay]);
    assert_eq!(s.handle(Inbound::Malformed, 2), vec![Action::Relay]);
    assert_eq!(s.handle(Inbound::StatusUpdate(None), 3), vec![Action::Relay]);
    assert_eq!(s.handle(status(StatusTag::Other), 4), vec![Action::Relay]);
    assert_eq!(s.handle(Inbound::Data(None), 5), vec![Action::Relay]);
    assert_eq!(s.state(), AttentionState::Focused);
    assert_eq!(s.state_changed_at_ms(), 0);
}
