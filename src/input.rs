use vstd::prelude::*;
use crate::animation::Intent;

verus! {

/// What the keyboard reported for one tick: whether the movement keys are
/// held and whether the attack keys went down on this tick.
#[derive(Clone, Copy, Debug, PartialEq, Eq, Structural)]
pub struct InputFrame {
    pub left_held: bool,
    pub right_held: bool,
    pub punch_pressed: bool,
    pub kick_pressed: bool,
}

/// The intent of a frame, by precedence: punch, kick, forward (right),
/// backward (left), and idle when no relevant key is active.
pub open spec fn intent_of(input: InputFrame) -> Intent {
    if input.punch_pressed {
        Intent::Punch
    } else if input.kick_pressed {
        Intent::Kick
    } else if input.right_held {
        Intent::MoveForward
    } else if input.left_held {
        Intent::MoveBackward
    } else {
        Intent::Idle
    }
}

/// A frame in which no relevant key is held or pressed.
pub open spec fn is_quiet(input: InputFrame) -> bool {
    !input.left_held && !input.right_held && !input.punch_pressed && !input.kick_pressed
}

impl InputFrame {
    /// A frame with no relevant key active.
    pub fn quiet() -> (r: InputFrame)
        ensures
            is_quiet(r),
    {
        InputFrame { left_held: false, right_held: false, punch_pressed: false, kick_pressed: false }
    }
}

/// Reduces a frame's keys to exactly one intent, following the precedence of
/// `intent_of`.
pub fn sample_intent(input: &InputFrame) -> (r: Intent)
    ensures
        r == intent_of(*input),
        is_quiet(*input) ==> r == Intent::Idle,
{
    if input.punch_pressed {
        Intent::Punch
    } else if input.kick_pressed {
        Intent::Kick
    } else if input.right_held {
        Intent::MoveForward
    } else if input.left_held {
        Intent::MoveBackward
    } else {
        Intent::Idle
    }
}

} // verus!
