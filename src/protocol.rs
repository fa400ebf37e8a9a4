use vstd::prelude::*;

verus! {

/// Compares two strings character by character.
pub fn same_text(a: &str, b: &str) -> (r: bool)
    ensures
        r == (a@ == b@),
{
    let n = a.unicode_len();
    if n != b.unicode_len() {
        return false;
    }
    let mut i: usize = 0;
    while i < n
        invariant
            n == a@.len(),
            n == b@.len(),
            i <= n,
            a@.subrange(0, i as int) == b@.subrange(0, i as int),
        decreases n - i,
    {
        if a.get_char(i) != b.get_char(i) {
            return false;
        }
        proof {
            assert(a@.subrange(0, i + 1) == a@.subrange(0, i as int).push(a@[i as int]));
            assert(b@.subrange(0, i + 1) == b@.subrange(0, i as int).push(b@[i as int]));
        }
        i = i + 1;
    }
    proof {
        assert(a@ == a@.subrange(0, n as int));
        assert(b@ == b@.subrange(0, n as int));
    }
    true
}

/// The `eventType` of an inbound envelope.
#[derive(Clone, Copy, Debug, PartialEq, Eq, Structural)]
pub enum EventTag {
    Data,
    StatusUpdate,
    Start,
    End,
    /// Any other value; such an envelope is ignored.
    Other,
}

pub open spec fn event_tag_of(s: Seq<char>) -> EventTag {
    if s == "data"@ {
        EventTag::Data
    } else if s == "status_update"@ {
        EventTag::StatusUpdate
    } else if s == "start"@ {
        EventTag::Start
    } else if s == "end"@ {
        EventTag::End
    } else {
        EventTag::Other
    }
}

impl EventTag {
    /// Reads an `eventType` value; unknown values are `Other`.
    pub fn parse(s: &str) -> (r: EventTag)
        ensures
            r == event_tag_of(s@),
    {
        if same_text(s, "data") {
            EventTag::Data
        } else if same_text(s, "status_update") {
            EventTag::StatusUpdate
        } else if same_text(s, "start") {
            EventTag::Start
        } else if same_text(s, "end") {
            EventTag::End
        } else {
            EventTag::Other
        }
    }
}

/// The `status` of a `status_update` payload.
#[derive(Clone, Copy, Debug, PartialEq, Eq, Structural)]
pub enum StatusTag {
    NoFaceDetected,
    Paused,
    Resumed,
    /// Any other value; such an update is ignored.
    Other,
}

pub open spec fn status_tag_of(s: Seq<char>) -> StatusTag {
    if s == "no_face_detected"@ {
        StatusTag::NoFaceDetected
    } else if s == "paused"@ {
        StatusTag::Paused
    } else if s == "resumed"@ {
        StatusTag::Resumed
    } else {
        StatusTag::Other
    }
}

impl StatusTag {
    /// Reads a `status` value; unknown values are `Other`.
    pub fn parse(s: &str) -> (r: StatusTag)
        ensures
            r == status_tag_of(s@),
    {
        if same_text(s, "no_face_detected") {
            StatusTag::NoFaceDetected
        } else if same_text(s, "paused") {
            StatusTag::Paused
        } else if same_text(s, "resumed") {
            StatusTag::Resumed
        } else {
            StatusTag::Other
        }
    }
}

} // verus!
