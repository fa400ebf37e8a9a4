use vstd::prelude::*;
use crate::attention::AttentionState;

verus! {

/// The kinds of event published on the meaningful-events channel.
#[derive(Clone, Copy, Debug, PartialEq, Eq, Structural)]
pub enum EventKind {
    SessionStart,
    SessionEnd,
    YawnDetected,
    SessionResumed,
    FocusRestored,
    SessionPaused,
    DrowsinessStarted,
    DistractionStarted,
    UserLeft,
}

/// The name under which an event kind travels on the bus.
pub open spec fn event_name(k: EventKind) -> Seq<char> {
    match k {
        EventKind::SessionStart => "SESSION_START"@,
        EventKind::SessionEnd => "SESSION_END"@,
        EventKind::YawnDetected => "YAWN_DETECTED"@,
        EventKind::SessionResumed => "SESSION_RESUMED"@,
        EventKind::FocusRestored => "FOCUS_RESTORED"@,
        EventKind::SessionPaused => "SESSION_PAUSED"@,
        EventKind::DrowsinessStarted => "DROWSINESS_STARTED"@,
        EventKind::DistractionStarted => "DISTRACTION_STARTED"@,
        EventKind::UserLeft => "USER_LEFT"@,
    }
}

impl EventKind {
    /// The event type string of this kind.
    pub fn name(&self) -> (r: &'static str)
        ensures
            r@ == event_name(*self),
    {
        match self {
            EventKind::SessionStart => "SESSION_START",
            EventKind::SessionEnd => "SESSION_END",
            EventKind::YawnDetected => "YAWN_DETECTED",
            EventKind::SessionResumed => "SESSION_RESUMED",
            EventKind::FocusRestored => "FOCUS_RESTORED",
            EventKind::SessionPaused => "SESSION_PAUSED",
            EventKind::DrowsinessStarted => "DROWSINESS_STARTED",
            EventKind::DistractionStarted => "DISTRACTION_STARTED",
            EventKind::UserLeft => "USER_LEFT",
        }
    }
}

/// The event that a change of state from `from` to `to` emits. Leaving
/// `Paused` for `Focused` is a resumption; any other way into `Focused` is
/// a restoration of focus.
pub open spec fn transition_kind(from: AttentionState, to: AttentionState) -> EventKind {
    if from == AttentionState::Paused && to == AttentionState::Focused {
        EventKind::SessionResumed
    } else {
        match to {
            AttentionState::Focused => EventKind::FocusRestored,
            AttentionState::Paused => EventKind::SessionPaused,
            AttentionState::Drowsy => EventKind::DrowsinessStarted,
            AttentionState::Distracted => EventKind::DistractionStarted,
            AttentionState::UserLeft => EventKind::UserLeft,
        }
    }
}

/// Names the event for a change of state from `from` to `to`.
pub fn transition_event(from: AttentionState, to: AttentionState) -> (r: EventKind)
    ensures
        r == transition_kind(from, to),
        from == AttentionState::Paused && to == AttentionState::Focused ==> r
            == EventKind::SessionResumed,
        from != AttentionState::Paused && to == AttentionState::Focused ==> r
            == EventKind::FocusRestored,
{
    match (from, to) {
        (AttentionState::Paused, AttentionState::Focused) => EventKind::SessionResumed,
        (_, AttentionState::Focused) => EventKind::FocusRestored,
        (_, AttentionState::Paused) => EventKind::SessionPaused,
        (_, AttentionState::Drowsy) => EventKind::DrowsinessStarted,
        (_, AttentionState::Distracted) => EventKind::DistractionStarted,
        (_, AttentionState::UserLeft) => EventKind::UserLeft,
    }
}

/// A message pushed straight to the client.
#[derive(Clone, Copy, Debug, PartialEq, Eq, Structural)]
pub enum Alarm {
    Drowsiness,
    Distraction,
    Absence,
    /// The session's yawn count has reached this multiple of five.
    Yawns(u64),
}

/// The alarm that entering a state raises, if any.
pub open spec fn state_alarm(s: AttentionState) -> Option<Alarm> {
    match s {
        AttentionState::Drowsy => Some(Alarm::Drowsiness),
        AttentionState::Distracted => Some(Alarm::Distraction),
        AttentionState::UserLeft => Some(Alarm::Absence),
        _ => None,
    }
}

/// Picks the alarm raised on entering `s`: none for `Focused` or `Paused`.
pub fn alarm_for(s: AttentionState) -> (r: Option<Alarm>)
    ensures
        r == state_alarm(s),
{
    match s {
        AttentionState::Drowsy => Some(Alarm::Drowsiness),
        AttentionState::Distracted => Some(Alarm::Distraction),
        AttentionState::UserLeft => Some(Alarm::Absence),
        _ => None,
    }
}

pub open spec fn digit_char(d: nat) -> char {
    seq!['0', '1', '2', '3', '4', '5', '6', '7', '8', '9'][d as int]
}

/// The decimal digits of `n`, most significant first, without sign or padding.
pub open spec fn decimal(n: nat) -> Seq<char>
    decreases n,
{
    if n < 10 {
        seq![digit_char(n)]
    } else {
        decimal(n / 10).push(digit_char(n % 10))
    }
}

/// Relies on `ToString` for `u64` (through `Display`), which writes the
/// plain decimal digits of the value.
#[verifier::external_body]
fn decimal_string(n: u64) -> (r: String)
    ensures
        r@ == decimal(n as nat),
{
    n.to_string()
}

/// The text the client sees for an alarm.
pub open spec fn alarm_message(a: Alarm) -> Seq<char> {
    match a {
        Alarm::Drowsiness => "졸음이 감지되었습니다! 잠시 쉬어가는 건 어떨까요? ☕"@,
        Alarm::Distraction => "주의가 분산되었습니다! 다시 집중해볼까요? 💪"@,
        Alarm::Absence => "사용자가 자리를 비웠나요? 얼굴이 감지되지 않습니다. 🤔"@,
        Alarm::Yawns(n) => "하품 "@ + decimal(n as nat) + "회 감지! 스트레칭 한번 어떠세요? 🤸"@,
    }
}

/// Renders an alarm as the text pushed to the client.
pub fn alarm_text(alarm: &Alarm) -> (r: String)
    ensures
        r@ == alarm_message(*alarm),
{
    match alarm {
        Alarm::Drowsiness => String::from_str("졸음이 감지되었습니다! 잠시 쉬어가는 건 어떨까요? ☕"),
        Alarm::Distraction => String::from_str("주의가 분산되었습니다! 다시 집중해볼까요? 💪"),
        Alarm::Absence => String::from_str("사용자가 자리를 비웠나요? 얼굴이 감지되지 않습니다. 🤔"),
        Alarm::Yawns(n) => {
            let mut text = String::from_str("하품 ");
            let digits = decimal_string(*n);
            text.append(digits.as_str());
            text.append("회 감지! 스트레칭 한번 어떠세요? 🤸");
            text
        },
    }
}

} // verus!
