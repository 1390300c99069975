//! A length of time a description states: how long a turn's grant lasts, or
//! how long a change waits for an answer. No time at all is refused, and so is
//! a week or more — an approval is never a session, and a configuration file
//! is not a way to make one — each by the key it was written under.

use vstd::prelude::*;

use crate::refusing::NotDescribed;

verus! {

/// A week, in seconds: the shortest length that is refused as too long.
pub const A_WEEK: u64 = 604_800u64;

/// A length of time, in whole seconds, that is some time.
#[derive(Debug, Clone, Copy, PartialEq, Eq, Structural)]
pub struct Lasting {
    /// How many seconds.
    seconds: u64,
}

impl Lasting {
    /// Some time.
    #[verifier::type_invariant]
    spec fn some_time(self) -> bool {
        0 < self.seconds < A_WEEK
    }

    /// How many seconds this lasts.
    pub closed spec fn spec_seconds(self) -> u64 {
        self.seconds
    }

    /// `seconds` seconds, written under the key `what` — or the refusal of no
    /// time at all, naming that key.
    pub fn of_seconds(seconds: u64, what: &'static str) -> (lasting: Result<Lasting, NotDescribed>)
        ensures
            seconds == 0 ==> lasting == Err::<Lasting, NotDescribed>(
                NotDescribed::NoTimeAtAll { what },
            ),
            seconds >= A_WEEK ==> lasting == Err::<Lasting, NotDescribed>(
                NotDescribed::TooLong { what },
            ),
            0 < seconds < A_WEEK ==> (lasting matches Ok(l) && l.spec_seconds() == seconds),
    {
        if seconds == 0 {
            return Err(NotDescribed::NoTimeAtAll { what });
        }
        if seconds >= A_WEEK {
            return Err(NotDescribed::TooLong { what });
        }
        Ok(Lasting { seconds })
    }

    /// How many seconds this lasts: some, and less than a week.
    pub fn seconds(&self) -> (seconds: u64)
        ensures
            seconds == self.spec_seconds(),
            0 < seconds < A_WEEK,
    {
        proof {
            use_type_invariant(self);
        }
        self.seconds
    }
}

} // verus!
