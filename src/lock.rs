use vstd::prelude::*;
use crate::animation::AnimationState;

verus! {

/// Nanoseconds in one second.
pub const NANOS_PER_SEC: u64 = 1_000_000_000;

/// How long a punch holds the character, in nanoseconds (0.6 s).
pub const PUNCH_LOCK_NS: u64 = 600_000_000;

/// How long a kick holds the character, in nanoseconds (1.0 s).
pub const KICK_LOCK_NS: u64 = 1_000_000_000;

/// The lock length of a locking state; zero for the others, which never lock.
pub open spec fn lock_duration(s: AnimationState) -> nat {
    match s {
        AnimationState::Punching => PUNCH_LOCK_NS as nat,
        AnimationState::Kicking => KICK_LOCK_NS as nat,
        _ => 0,
    }
}

/// Whether a state commits the character to a non-interruptible action.
pub open spec fn is_locking(s: AnimationState) -> bool {
    s == AnimationState::Punching || s == AnimationState::Kicking
}

/// A countdown that keeps a character committed to an action. It is only
/// held while time is left on it: a lock that runs out is dropped.
#[derive(Clone, Copy, Debug, PartialEq, Eq, Structural)]
pub struct ActionLock {
    pub remaining_ns: u64,
}

impl ActionLock {
    pub open spec fn wf(self) -> bool {
        self.remaining_ns > 0
    }

    /// Starts the countdown that a locking state calls for.
    pub fn for_state(s: AnimationState) -> (r: ActionLock)
        requires
            is_locking(s),
        ensures
            r.remaining_ns == lock_duration(s),
            r.wf(),
    {
        match s {
            AnimationState::Punching => ActionLock { remaining_ns: PUNCH_LOCK_NS },
            _ => ActionLock { remaining_ns: KICK_LOCK_NS },
        }
    }

    /// Advances the countdown by one frame's elapsed time. Returns whether the
    /// lock has run out; when it has not, the time left shrinks by `delta_ns`.
    pub fn tick(&mut self, delta_ns: u64) -> (finished: bool)
        requires
            old(self).wf(),
        ensures
            finished == (delta_ns >= old(self).remaining_ns),
            !finished ==> final(self).remaining_ns == old(self).remaining_ns - delta_ns,
            !finished ==> final(self).wf(),
            finished ==> *final(self) == *old(self),
    {
        if delta_ns >= self.remaining_ns {
            true
        } else {
            self.remaining_ns = self.remaining_ns - delta_ns;
            false
        }
    }
}

} // verus!
