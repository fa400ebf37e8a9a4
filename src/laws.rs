use vstd::prelude::*;
use crate::attention::{AttentionState, FrameSignals, classification};
use crate::events::{Alarm, EventKind, transition_kind};
use crate::protocol::StatusTag;
use crate::session::{
    Action, Inbound, Payload, SessionModel, alarm_actions, elapsed, react, yawn_actions,
};

verus! {

/// The states and actions of a session that handles `msgs` in order, each
/// message with the time it arrived.
pub open spec fn run(m: SessionModel, msgs: Seq<(Inbound, u64)>) -> (SessionModel, Seq<Action>)
    decreases msgs.len(),
{
    if msgs.len() == 0 {
        (m, Seq::empty())
    } else {
        let before = run(m, msgs.drop_last());
        let last = react(before.0, msgs.last().0, msgs.last().1);
        (last.0, before.1 + last.1)
    }
}

/// The counts carried by the yawn alarms among `acts`, in order.
pub open spec fn yawn_milestones(acts: Seq<Action>) -> Seq<u64>
    decreases acts.len(),
{
    if acts.len() == 0 {
        Seq::empty()
    } else {
        let rest = yawn_milestones(acts.drop_last());
        match acts.last() {
            Action::Alarm(Alarm::Yawns(n)) => rest.push(n),
            _ => rest,
        }
    }
}

/// How many of `msgs` are data frames that show a yawn.
pub open spec fn yawning_frames(msgs: Seq<(Inbound, u64)>) -> nat
    decreases msgs.len(),
{
    if msgs.len() == 0 {
        0
    } else {
        yawning_frames(msgs.drop_last()) + match msgs.last().0 {
            Inbound::Data(Some(s)) => if s.yawning {
                1nat
            } else {
                0nat
            },
            _ => 0nat,
        }
    }
}

/// Every message of `msgs` is a data frame whose payload decoded.
pub open spec fn all_frames(msgs: Seq<(Inbound, u64)>) -> bool {
    forall|i: int| 0 <= i < msgs.len() ==> (#[trigger] msgs[i]).0 matches Inbound::Data(Some(_))
}

/// The multiples of five from five up to `k`, in order.
pub open spec fn multiples_of_five(k: nat) -> Seq<u64> {
    Seq::new(k / 5, |i: int| (5 * (i + 1)) as u64)
}

/// A frame whose eyes are both closed is classified `Drowsy`, whatever the
/// head does; one with an open eye and a turned head is `Distracted`; any
/// other is `Focused`. A session that is neither paused nor ended takes the
/// frame's class as its state.
pub proof fn lemma_frame_classification(m: SessionModel, s: FrameSignals, now: u64)
    requires
        !m.ended,
        m.state != AttentionState::Paused,
    ensures
        s.left_eye_closed && s.right_eye_closed ==> classification(s) == AttentionState::Drowsy,
        !(s.left_eye_closed && s.right_eye_closed) && s.head_turned ==> classification(s)
            == AttentionState::Distracted,
        !(s.left_eye_closed && s.right_eye_closed) && !s.head_turned ==> classification(s)
            == AttentionState::Focused,
        react(m, Inbound::Data(Some(s)), now).0.state == classification(s),
{
}

/// A frame classified as the session already is causes no transition event
/// and no state alarm: only the relay and what a yawn brings.
pub proof fn lemma_repeated_frame(m: SessionModel, s: FrameSignals, t1: u64, t2: u64)
    requires
        !m.ended,
        m.state != AttentionState::Paused,
    ensures
        ({
            let first = react(m, Inbound::Data(Some(s)), t1);
            let second = react(first.0, Inbound::Data(Some(s)), t2);
            &&& second.0.state == first.0.state
            &&& second.0.changed_at == first.0.changed_at
            &&& second.1 == seq![Action::Relay] + if s.yawning {
                yawn_actions(second.0.yawns)
            } else {
                Seq::empty()
            }
        }),
{
    let first = react(m, Inbound::Data(Some(s)), t1);
    let second = react(first.0, Inbound::Data(Some(s)), t2);
    assert(second.1 =~= seq![Action::Relay] + if s.yawning {
        yawn_actions(second.0.yawns)
    } else {
        Seq::empty()
    });
}

/// The same status update twice in a row: the second only relays.
pub proof fn lemma_repeated_status(m: SessionModel, tag: StatusTag, t1: u64, t2: u64)
    requires
        !m.ended,
    ensures
        ({
            let first = react(m, Inbound::StatusUpdate(Some(tag)), t1);
            react(first.0, Inbound::StatusUpdate(Some(tag)), t2) == (first.0, seq![Action::Relay])
        }),
{
    let first = react(m, Inbound::StatusUpdate(Some(tag)), t1);
    assert(react(first.0, Inbound::StatusUpdate(Some(tag)), t2).1 =~= seq![Action::Relay]);
}

/// While paused, a data frame is relayed once and changes nothing: no
/// classification, no event, no alarm.
pub proof fn lemma_pause_bypass(m: SessionModel, frame: Option<FrameSignals>, now: u64)
    requires
        !m.ended,
        m.state == AttentionState::Paused,
    ensures
        react(m, Inbound::Data(frame), now) == (m, seq![Action::Relay]),
{
}

proof fn lemma_milestones_concat(a: Seq<Action>, b: Seq<Action>)
    ensures
        yawn_milestones(a + b) == yawn_milestones(a) + yawn_milestones(b),
    decreases b.len(),
{
    if b.len() == 0 {
        assert(a + b =~= a);
        assert(yawn_milestones(a) + yawn_milestones(b) =~= yawn_milestones(a));
    } else {
        lemma_milestones_concat(a, b.drop_last());
        assert((a + b).drop_last() =~= a + b.drop_last());
        assert((a + b).last() == b.last());
        assert(yawn_milestones(a) + yawn_milestones(b.drop_last()).push(b.last()->Alarm_0->Yawns_0)
            =~= (yawn_milestones(a) + yawn_milestones(b.drop_last())).push(
            b.last()->Alarm_0->Yawns_0,
        ));
    }
}

proof fn lemma_milestones_single(a: Action)
    ensures
        yawn_milestones(seq![a]) == match a {
            Action::Alarm(Alarm::Yawns(n)) => seq![n],
            _ => Seq::<u64>::empty(),
        },
{
    reveal_with_fuel(yawn_milestones, 2);
    assert(seq![a].drop_last() =~= Seq::<Action>::empty());
    assert(Seq::<u64>::empty().push(a->Alarm_0->Yawns_0) =~= seq![a->Alarm_0->Yawns_0]);
}

proof fn lemma_frame_milestones(m: SessionModel, s: FrameSignals, now: u64)
    requires
        !m.ended,
        m.state != AttentionState::Paused,
        m.yawns + 1 <= u64::MAX,
    ensures
        ({
            let r = react(m, Inbound::Data(Some(s)), now);
            &&& r.0.yawns == m.yawns + if s.yawning {
                1nat
            } else {
                0nat
            }
            &&& !r.0.ended
            &&& r.0.state != AttentionState::Paused
            &&& yawn_milestones(r.1) == if s.yawning && (m.yawns + 1) % 5 == 0 {
                seq![(m.yawns + 1) as u64]
            } else {
                Seq::<u64>::empty()
            }
        }),
{
    let m1 = if s.yawning {
        SessionModel { yawns: m.yawns + 1, ..m }
    } else {
        m
    };
    let cls = classification(s);
    let tail = if cls == m1.state {
        Seq::<Action>::empty()
    } else {
        seq![
            Action::Publish(
                transition_kind(m1.state, cls),
                Payload::PreviousStateDuration(elapsed(m1.changed_at, now)),
            ),
        ] + alarm_actions(cls)
    };
    assert(yawn_milestones(tail) =~= Seq::<u64>::empty()) by {
        if cls != m1.state {
            let p = Action::Publish(
                transition_kind(m1.state, cls),
                Payload::PreviousStateDuration(elapsed(m1.changed_at, now)),
            );
            lemma_milestones_concat(seq![p], alarm_actions(cls));
            lemma_milestones_single(p);
            let al = alarm_actions(cls);
            if al.len() > 0 {
                lemma_milestones_single(al[0]);
                assert(al =~= seq![al[0]]);
            } else {
                assert(al =~= Seq::<Action>::empty());
            }
        }
    }
    let relay = seq![Action::Relay];
    lemma_milestones_single(Action::Relay);
    let y = if s.yawning {
        yawn_actions(m1.yawns)
    } else {
        Seq::empty()
    };
    lemma_milestones_concat(relay, y);
    lemma_milestones_concat(relay + y, tail);
    if s.yawning {
        let p = Action::Publish(EventKind::YawnDetected, Payload::Empty);
        let q = if m1.yawns % 5 == 0 {
            seq![Action::Alarm(Alarm::Yawns(m1.yawns as u64))]
        } else {
            Seq::<Action>::empty()
        };
        lemma_milestones_concat(seq![p], q);
        lemma_milestones_single(p);
        if q.len() > 0 {
            lemma_milestones_single(q[0]);
            assert(q =~= seq![q[0]]);
        }
    }
    let r = react(m, Inbound::Data(Some(s)), now);
    assert(r.1 == relay + y + tail);
    assert(yawn_milestones(r.1) =~= if s.yawning && (m.yawns + 1) % 5 == 0 {
        seq![(m.yawns + 1) as u64]
    } else {
        Seq::<u64>::empty()
    });
}

/// A fresh count of yawns: after a run of frames of which `k` show a yawn,
/// the count is `k` and exactly one yawn alarm has been pushed for each
/// multiple of five up to `k`, carrying that multiple, in increasing order.
pub proof fn lemma_yawn_milestones(m: SessionModel, msgs: Seq<(Inbound, u64)>)
    requires
        !m.ended,
        m.state != AttentionState::Paused,
        m.yawns == 0,
        all_frames(msgs),
        msgs.len() < u64::MAX,
    ensures
        run(m, msgs).0.yawns == yawning_frames(msgs),
        yawn_milestones(run(m, msgs).1) == multiples_of_five(yawning_frames(msgs)),
{
    lemma_run_frames(m, msgs);
}

proof fn lemma_yawning_frames_bound(msgs: Seq<(Inbound, u64)>)
    ensures
        yawning_frames(msgs) <= msgs.len(),
    decreases msgs.len(),
{
    if msgs.len() > 0 {
        lemma_yawning_frames_bound(msgs.drop_last());
    }
}

proof fn lemma_run_frames(m: SessionModel, msgs: Seq<(Inbound, u64)>)
    requires
        !m.ended,
        m.state != AttentionState::Paused,
        m.yawns == 0,
        all_frames(msgs),
        msgs.len() < u64::MAX,
    ensures
        run(m, msgs).0.yawns == yawning_frames(msgs),
        !run(m, msgs).0.ended,
        run(m, msgs).0.state != AttentionState::Paused,
        yawn_milestones(run(m, msgs).1) == multiples_of_five(yawning_frames(msgs)),
    decreases msgs.len(),
{
    if msgs.len() == 0 {
        assert(multiples_of_five(0) =~= Seq::<u64>::empty());
    } else {
        let init = msgs.drop_last();
        assert forall|i: int| 0 <= i < init.len() implies (#[trigger] init[i]).0 matches Inbound::Data(
            Some(_),
        ) by {
            assert(init[i] == msgs[i]);
        }
        lemma_run_frames(m, init);
        lemma_yawning_frames_bound(init);
        let before = run(m, init);
        let last = msgs.last();
        assert(last == msgs[msgs.len() - 1]);
        let s = last.0->Data_0->Some_0;
        assert(last.0 == Inbound::Data(Some(s)));
        lemma_frame_milestones(before.0, s, last.1);
        let r = react(before.0, last.0, last.1);
        lemma_milestones_concat(before.1, r.1);
        let k = yawning_frames(init);
        if s.yawning && (k + 1) % 5 == 0 {
            assert(multiples_of_five(k + 1) =~= multiples_of_five(k).push((k + 1) as u64));
        } else if s.yawning {
            assert(multiples_of_five(k + 1) =~= multiples_of_five(k));
        } else {
            assert(multiples_of_five(k) + Seq::<u64>::empty() =~= multiples_of_five(k));
        }
    }
}

/// `start` publishes one `SESSION_START` carrying the inbound payload and
/// leaves the state alone; `end` publishes one `SESSION_END` carrying it and
/// closes the session.
pub proof fn lemma_session_bookends(m: SessionModel, now: u64)
    requires
        !m.ended,
    ensures
        react(m, Inbound::Start, now) == (m, seq![
            Action::Relay,
            Action::Publish(EventKind::SessionStart, Payload::Inbound),
        ]),
        react(m, Inbound::End, now) == (SessionModel { ended: true, ..m }, seq![
            Action::Relay,
            Action::Publish(EventKind::SessionEnd, Payload::Inbound),
            Action::Close,
        ]),
{
}

/// After `end`, no message is processed any more: whatever follows causes
/// no action and leaves the session as it is.
pub proof fn lemma_nothing_after_end(m: SessionModel, end_at: u64, msgs: Seq<(Inbound, u64)>)
    requires
        !m.ended,
    ensures
        ({
            let closed = react(m, Inbound::End, end_at).0;
            run(closed, msgs) == (closed, Seq::<Action>::empty())
        }),
    decreases msgs.len(),
{
    let closed = react(m, Inbound::End, end_at).0;
    if msgs.len() > 0 {
        lemma_nothing_after_end(m, end_at, msgs.drop_last());
        assert(Seq::<Action>::empty() + Seq::<Action>::empty() =~= Seq::<Action>::empty());
    }
}

/// A frame that moves a session out of its state at time `now` publishes the
/// transition with the time the state left had lasted, `now` less the time it
/// was entered, and the new state dates from `now`.
pub proof fn lemma_transition_duration(m: SessionModel, s: FrameSignals, now: u64)
    requires
        !m.ended,
        m.state != AttentionState::Paused,
        classification(s) != m.state,
        m.changed_at <= now,
    ensures
        ({
            let r = react(m, Inbound::Data(Some(s)), now);
            &&& r.1.contains(
                Action::Publish(
                    transition_kind(m.state, classification(s)),
                    Payload::PreviousStateDuration((now - m.changed_at) as u64),
                ),
            )
            &&& r.0.changed_at == now
        }),
{
    let r = react(m, Inbound::Data(Some(s)), now);
    let y = if s.yawning {
        yawn_actions((m.yawns + 1) as nat)
    } else {
        Seq::empty()
    };
    let i = 1 + y.len();
    assert(r.1[i as int] == Action::Publish(
        transition_kind(m.state, classification(s)),
        Payload::PreviousStateDuration((now - m.changed_at) as u64),
    ));
}

/// Entering `Focused` is named after where the session came from: from
/// `Paused` it is `SESSION_RESUMED`, from `Drowsy` it is `FOCUS_RESTORED`.
pub proof fn lemma_focus_naming(m: SessionModel, now: u64)
    requires
        !m.ended,
    ensures
        m.state == AttentionState::Paused ==> react(m, Inbound::StatusUpdate(Some(StatusTag::Resumed)), now).1
            == seq![
            Action::Relay,
            Action::Publish(
                EventKind::SessionResumed,
                Payload::PreviousStateDuration(elapsed(m.changed_at, now)),
            ),
        ],
        m.state == AttentionState::Drowsy ==> react(m, Inbound::StatusUpdate(Some(StatusTag::Resumed)), now).1
            == seq![
            Action::Relay,
            Action::Publish(
                EventKind::FocusRestored,
                Payload::PreviousStateDuration(elapsed(m.changed_at, now)),
            ),
        ],
        transition_kind(AttentionState::Paused, AttentionState::Focused) == EventKind::SessionResumed,
        transition_kind(AttentionState::Drowsy, AttentionState::Focused) == EventKind::FocusRestored,
{
    let r = react(m, Inbound::StatusUpdate(Some(StatusTag::Resumed)), now);
    assert(m.state != AttentionState::Focused ==> r.1 =~= seq![
        Action::Relay,
        Action::Publish(
            transition_kind(m.state, AttentionState::Focused),
            Payload::PreviousStateDuration(elapsed(m.changed_at, now)),
        ),
    ]) by {
        assert(alarm_actions(AttentionState::Focused) =~= Seq::<Action>::empty());
    }
}

} // verus!
