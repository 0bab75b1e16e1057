//! The two states of a monitored website and their stored text.
use vstd::prelude::*;

verus! {

/// Whether a website answered its last check.
#[derive(Clone, Copy, Debug, PartialEq, Eq, Structural)]
pub enum Status {
    Up,
    Down,
}

/// The text under which a status is stored: `UP` or `DOWN`.
pub open spec fn status_text(status: Status) -> Seq<char> {
    match status {
        Status::Up => seq!['U', 'P'],
        Status::Down => seq!['D', 'O', 'W', 'N'],
    }
}

/// The status of a check that did (`true`) or did not answer.
pub open spec fn status_of(is_up: bool) -> Status {
    if is_up { Status::Up } else { Status::Down }
}

impl Status {
    /// The status of a check that did or did not answer.
    pub fn from_check(is_up: bool) -> (status: Status)
        ensures status == status_of(is_up),
    {
        if is_up { Status::Up } else { Status::Down }
    }

    /// The stored text of the status.
    pub fn as_str(&self) -> (text: &'static str)
        ensures text@ == status_text(*self),
    {
        proof {
            reveal_strlit("UP");
            reveal_strlit("DOWN");
        }
        match self {
            Status::Up => {
                let t = "UP";
                assert(t@ =~= status_text(*self));
                t
            },
            Status::Down => {
                let t = "DOWN";
                assert(t@ =~= status_text(*self));
                t
            },
        }
    }

    /// Whether `text` is exactly the stored text of this status.
    pub fn is_stored_as(&self, text: &str) -> (same: bool)
        ensures same == (text@ == status_text(*self)),
    {
        crate::text::text_eq(text, self.as_str())
    }
}

} // verus!
