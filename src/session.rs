use vstd::prelude::*;
use crate::attention::{AttentionState, FrameSignals, classification, classify};
use crate::events::{Alarm, EventKind, alarm_for, state_alarm, transition_event, transition_kind};
use crate::protocol::StatusTag;

verus! {

/// One decoded inbound text message.
#[derive(Clone, Copy, Debug, PartialEq, Eq, Structural)]
pub enum Inbound {
    /// A `data` frame: its signals, or `None` where its payload did not decode.
    Data(Option<FrameSignals>),
    /// A `status_update`: its status, or `None` where its payload did not decode.
    StatusUpdate(Option<StatusTag>),
    Start,
    End,
    /// An envelope whose `eventType` is not known.
    Other,
    /// A text message that does not decode as an envelope.
    Malformed,
}

/// The payload of a published event.
#[derive(Clone, Copy, Debug, PartialEq, Eq, Structural)]
pub enum Payload {
    /// The inbound envelope's payload, unchanged.
    Inbound,
    /// An empty object.
    Empty,
    /// How long, in milliseconds, the state that was left had lasted.
    PreviousStateDuration(u64),
}

/// What the connection has to do in answer to a message, in order.
#[derive(Clone, Copy, Debug, PartialEq, Eq, Structural)]
pub enum Action {
    /// Forward the inbound text verbatim on the raw relay channel.
    Relay,
    /// Publish an event on the meaningful-events channel.
    Publish(EventKind, Payload),
    /// Push an alarm to the client.
    Alarm(Alarm),
    /// Close the connection.
    Close,
}

/// The abstract state of a session.
pub struct SessionModel {
    pub state: AttentionState,
    /// When, in milliseconds on the connection's clock, `state` was entered.
    pub changed_at: u64,
    pub yawns: nat,
    /// An `end` message has been handled.
    pub ended: bool,
}

/// The state that a status update asks for, if any.
pub open spec fn status_target(tag: StatusTag) -> Option<AttentionState> {
    match tag {
        StatusTag::NoFaceDetected => Some(AttentionState::UserLeft),
        StatusTag::Paused => Some(AttentionState::Paused),
        StatusTag::Resumed => Some(AttentionState::Focused),
        StatusTag::Other => None,
    }
}

/// Milliseconds from `since` to `now`; zero where the clock reads earlier.
pub open spec fn elapsed(since: u64, now: u64) -> u64 {
    if now >= since {
        (now - since) as u64
    } else {
        0
    }
}

pub open spec fn alarm_actions(s: AttentionState) -> Seq<Action> {
    match state_alarm(s) {
        Some(a) => seq![Action::Alarm(a)],
        None => Seq::empty(),
    }
}

/// Moving to state `to` at time `now`: nothing where the state does not
/// change; else the transition event with the duration of the state left,
/// then the new state's alarm.
pub open spec fn move_to(m: SessionModel, to: AttentionState, now: u64) -> (SessionModel, Seq<Action>) {
    if to == m.state {
        (m, Seq::empty())
    } else {
        (
            SessionModel { state: to, changed_at: now, ..m },
            seq![
                Action::Publish(
                    transition_kind(m.state, to),
                    Payload::PreviousStateDuration(elapsed(m.changed_at, now)),
                ),
            ] + alarm_actions(to),
        )
    }
}

/// What a yawn does once the count has become `count`: a yawn event, and an
/// alarm at every multiple of five.
pub open spec fn yawn_actions(count: nat) -> Seq<Action> {
    seq![Action::Publish(EventKind::YawnDetected, Payload::Empty)] + if count % 5 == 0 {
        seq![Action::Alarm(Alarm::Yawns(count as u64))]
    } else {
        Seq::<Action>::empty()
    }
}

/// A data frame's effect on a session that is not paused.
pub open spec fn on_frame(m: SessionModel, s: FrameSignals, now: u64) -> (SessionModel, Seq<Action>) {
    let m1 = if s.yawning {
        SessionModel { yawns: m.yawns + 1, ..m }
    } else {
        m
    };
    let y = if s.yawning {
        yawn_actions(m1.yawns)
    } else {
        Seq::empty()
    };
    let t = move_to(m1, classification(s), now);
    (t.0, seq![Action::Relay] + y + t.1)
}

/// The session's answer to one inbound message at time `now`: its next
/// state and the actions, in order.
pub open spec fn react(m: SessionModel, msg: Inbound, now: u64) -> (SessionModel, Seq<Action>) {
    if m.ended {
        (m, Seq::empty())
    } else {
        match msg {
            Inbound::Data(Some(s)) => {
                if m.state == AttentionState::Paused {
                    (m, seq![Action::Relay])
                } else {
                    on_frame(m, s, now)
                }
            },
            Inbound::StatusUpdate(Some(tag)) => match status_target(tag) {
                Some(to) => {
                    let t = move_to(m, to, now);
                    (t.0, seq![Action::Relay] + t.1)
                },
                None => (m, seq![Action::Relay]),
            },
            Inbound::Start => (
                m,
                seq![Action::Relay, Action::Publish(EventKind::SessionStart, Payload::Inbound)],
            ),
            Inbound::End => (
                SessionModel { ended: true, ..m },
                seq![
                    Action::Relay,
                    Action::Publish(EventKind::SessionEnd, Payload::Inbound),
                    Action::Close,
                ],
            ),
            _ => (m, seq![Action::Relay]),
        }
    }
}

/// The state of one connected client's session.
pub struct Session {
    state: AttentionState,
    changed_at_ms: u64,
    yawn_count: u64,
    ended: bool,
}

impl View for Session {
    type V = SessionModel;

    closed spec fn view(&self) -> SessionModel {
        SessionModel {
            state: self.state,
            changed_at: self.changed_at_ms,
            yawns: self.yawn_count as nat,
            ended: self.ended,
        }
    }
}

impl Session {
    /// A fresh session, `Focused` since `now_ms`, with no yawns.
    pub fn new(now_ms: u64) -> (r: Session)
        ensures
            r@ == (SessionModel {
                state: AttentionState::Focused,
                changed_at: now_ms,
                yawns: 0,
                ended: false,
            }),
    {
        Session { state: AttentionState::Focused, changed_at_ms: now_ms, yawn_count: 0, ended: false }
    }

    pub fn state(&self) -> (r: AttentionState)
        ensures
            r == self@.state,
    {
        self.state
    }

    pub fn state_changed_at_ms(&self) -> (r: u64)
        ensures
            r == self@.changed_at,
    {
        self.changed_at_ms
    }

    pub fn yawn_count(&self) -> (r: u64)
        ensures
            r == self@.yawns,
    {
        self.yawn_count
    }

    pub fn has_ended(&self) -> (r: bool)
        ensures
            r == self@.ended,
    {
        self.ended
    }

    fn enter(&mut self, to: AttentionState, now_ms: u64, actions: &mut Vec<Action>)
        ensures
            final(self)@ == move_to(old(self)@, to, now_ms).0,
            final(actions)@ == old(actions)@ + move_to(old(self)@, to, now_ms).1,
    {
        if to == self.state {
            proof {
                assert(old(actions)@ + Seq::<Action>::empty() =~= old(actions)@);
            }
            return;
        }
        let kind = transition_event(self.state, to);
        let duration = if now_ms >= self.changed_at_ms {
            now_ms - self.changed_at_ms
        } else {
            0
        };
        actions.push(Action::Publish(kind, Payload::PreviousStateDuration(duration)));
        match alarm_for(to) {
            Some(a) => actions.push(Action::Alarm(a)),
            None => {},
        }
        self.state = to;
        self.changed_at_ms = now_ms;
        proof {
            assert(final(actions)@ =~= old(actions)@ + move_to(old(self)@, to, now_ms).1);
        }
    }

    /// Handles one inbound text message at time `now_ms` and returns what the
    /// connection must do, in order.
    pub fn handle(&mut self, msg: Inbound, now_ms: u64) -> (actions: Vec<Action>)
        requires
            old(self)@.yawns < u64::MAX,
        ensures
            (final(self)@, actions@) == react(old(self)@, msg, now_ms),
    {
        let mut actions: Vec<Action> = Vec::new();
        if self.ended {
            return actions;
        }
        actions.push(Action::Relay);
        match msg {
            Inbound::Data(Some(s)) => {
                if self.state == AttentionState::Paused {
                    return actions;
                }
                if s.yawning {
                    self.yawn_count = self.yawn_count + 1;
                    actions.push(Action::Publish(EventKind::YawnDetected, Payload::Empty));
                    if self.yawn_count % 5 == 0 {
                        actions.push(Action::Alarm(Alarm::Yawns(self.yawn_count)));
                    }
                }
                proof {
                    let y = if s.yawning { yawn_actions(self@.yawns) } else { Seq::empty() };
                    assert(actions@ =~= seq![Action::Relay] + y);
                }
                let to = classify(&s);
                self.enter(to, now_ms, &mut actions);
            },
            Inbound::StatusUpdate(Some(tag)) => {
                let target = match tag {
                    StatusTag::NoFaceDetected => Some(AttentionState::UserLeft),
                    StatusTag::Paused => Some(AttentionState::Paused),
                    StatusTag::Resumed => Some(AttentionState::Focused),
                    StatusTag::Other => None,
                };
                match target {
                    Some(to) => self.enter(to, now_ms, &mut actions),
                    None => {},
                }
            },
            Inbound::Start => {
                actions.push(Action::Publish(EventKind::SessionStart, Payload::Inbound));
            },
            Inbound::End => {
                actions.push(Action::Publish(EventKind::SessionEnd, Payload::Inbound));
                actions.push(Action::Close);
                self.ended = true;
            },
            _ => {},
        }
        proof {
            assert(actions@ =~= react(old(self)@, msg, now_ms).1);
        }
        actions
    }
}

} // verus!
