use vstd::prelude::*;

verus! {

/// The attention state of one session. A session starts out `Focused`.
#[derive(Clone, Copy, Debug, PartialEq, Eq, Structural)]
pub enum AttentionState {
    Focused,
    Drowsy,
    Distracted,
    UserLeft,
    Paused,
}

/// What one data frame shows once its features have been held against the
/// thresholds of the feature extractor.
#[derive(Clone, Copy, Debug, PartialEq, Eq, Structural)]
pub struct FrameSignals {
    /// The left eye's openness ratio is below the eye threshold.
    pub left_eye_closed: bool,
    /// The right eye's openness ratio is below the eye threshold.
    pub right_eye_closed: bool,
    /// The absolute head yaw ratio is above the yaw threshold.
    pub head_turned: bool,
    /// The mouth openness ratio is above the yawn threshold.
    pub yawning: bool,
}

/// The classifier's rule: closed eyes win over a turned head, and a frame
/// that shows neither is focused.
pub open spec fn classification(s: FrameSignals) -> AttentionState {
    if s.left_eye_closed && s.right_eye_closed {
        AttentionState::Drowsy
    } else if s.head_turned {
        AttentionState::Distracted
    } else {
        AttentionState::Focused
    }
}

/// Classifies one frame into `Drowsy`, `Distracted` or `Focused`.
pub fn classify(signals: &FrameSignals) -> (r: AttentionState)
    ensures
        r == classification(*signals),
        signals.left_eye_closed && signals.right_eye_closed ==> r == AttentionState::Drowsy,
        !(signals.left_eye_closed && signals.right_eye_closed) && signals.head_turned
            ==> r == AttentionState::Distracted,
        !(signals.left_eye_closed && signals.right_eye_closed) && !signals.head_turned
            ==> r == AttentionState::Focused,
{
    if signals.left_eye_closed && signals.right_eye_closed {
        AttentionState::Drowsy
    } else if signals.head_turned {
        AttentionState::Distracted
    } else {
        AttentionState::Focused
    }
}

} // verus!
