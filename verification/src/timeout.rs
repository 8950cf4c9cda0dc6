//! The shared timeout model: how long a blocking operation is willing to
//! wait, and the absolute deadline derived from it at the moment blocking
//! begins.

use vstd::prelude::*;

verus! {

/// How long a blocking operation is willing to wait.  Immutable once
/// constructed; passed by value into blocking operations.
#[derive(Clone, Copy, Debug, PartialEq, Eq, Structural)]
pub enum Timeout {
    /// Never expires: the caller waits until the operation is satisfied
    /// or cancelled (purge/reset).
    Forever,
    /// Expires immediately: the operation never blocks.
    NoWait,
    /// Expires once the given duration (in ticks) has elapsed from the
    /// moment the caller blocked.
    After(u64),
}

/// The absolute time at which a bounded wait expires, derived from a
/// `Timeout` at the moment blocking begins.
#[derive(Clone, Copy, Debug, PartialEq, Eq, Structural)]
pub enum Deadline {
    /// The wait never expires on its own.
    Never,
    /// The wait expires once the current time reaches this tick.
    At(u64),
}

impl Timeout {
    /// True exactly for `NoWait`, the only timeout under which an
    /// operation refuses to block.
    pub open spec fn is_no_wait(self) -> bool {
        self is NoWait
    }

    /// The deadline a wait beginning at `now` carries: `Forever` never
    /// expires, `NoWait` has already expired, and `After(d)` expires at
    /// `now + d`, clamped to the largest representable tick.
    pub open spec fn deadline_spec(self, now: u64) -> Deadline {
        match self {
            Timeout::Forever => Deadline::Never,
            Timeout::NoWait => Deadline::At(now),
            Timeout::After(d) => if d > u64::MAX - now {
                Deadline::At(u64::MAX)
            } else {
                Deadline::At((now + d) as u64)
            },
        }
    }

    /// Computes the absolute deadline for a wait that begins at `now`.
    pub fn deadline(self, now: u64) -> (r: Deadline)
        ensures
            r == self.deadline_spec(now),
    {
        match self {
            Timeout::Forever => Deadline::Never,
            Timeout::NoWait => Deadline::At(now),
            Timeout::After(d) => if d > u64::MAX - now {
                Deadline::At(u64::MAX)
            } else {
                Deadline::At(now + d)
            },
        }
    }
}

impl Deadline {
    /// Whether this deadline has passed at time `now`.  `Never` never
    /// expires.
    pub open spec fn expired(self, now: u64) -> bool {
        match self {
            Deadline::Never => false,
            Deadline::At(t) => t <= now,
        }
    }

    /// Checks whether the deadline has passed at time `now`.
    pub fn is_expired(self, now: u64) -> (r: bool)
        ensures
            r == self.expired(now),
    {
        match self {
            Deadline::Never => false,
            Deadline::At(t) => t <= now,
        }
    }
}

} // verus!
