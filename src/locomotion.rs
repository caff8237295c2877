use vstd::prelude::*;
use crate::animation::AnimationState;
use crate::lock::NANOS_PER_SEC;

verus! {

/// Forward running speed, in micrometres per second (4.0 units/s).
pub const RUN_FORWARD_SPEED: u64 = 4_000_000;

/// Backward walking speed, in micrometres per second (2.5 units/s); smaller
/// than the forward speed.
pub const RUN_BACKWARD_SPEED: u64 = 2_500_000;

/// Half the width of the arena, in micrometres: positions stay within
/// `[-ARENA_HALF_WIDTH, ARENA_HALF_WIDTH]`.
pub const ARENA_HALF_WIDTH: i64 = 4_000_000;

/// The displacement of one frame along the movement axis, in micrometres,
/// rounded toward zero: forward when running, backward when running
/// backwards, none in any other state.
pub open spec fn displacement(s: AnimationState, delta_ns: u64) -> int {
    match s {
        AnimationState::Running => (RUN_FORWARD_SPEED * delta_ns) as int / NANOS_PER_SEC as int,
        AnimationState::RunningBackwards => -((RUN_BACKWARD_SPEED * delta_ns) as int
            / NANOS_PER_SEC as int),
        _ => 0,
    }
}

/// The nearest position inside the arena.
pub open spec fn clamp_to_arena(x: int) -> int {
    if x < -ARENA_HALF_WIDTH {
        -ARENA_HALF_WIDTH as int
    } else if x > ARENA_HALF_WIDTH {
        ARENA_HALF_WIDTH as int
    } else {
        x
    }
}

/// Whether a position lies inside the arena.
pub open spec fn in_arena(x: int) -> bool {
    -ARENA_HALF_WIDTH <= x <= ARENA_HALF_WIDTH
}

/// Distance covered at `speed` micrometres per second in `delta_ns`
/// nanoseconds, rounded down.
fn distance(speed: u64, delta_ns: u64) -> (r: i64)
    requires
        speed <= RUN_FORWARD_SPEED,
    ensures
        r == (speed * delta_ns) as int / NANOS_PER_SEC as int,
        r >= 0,
{
    proof {
        assert(speed * delta_ns <= RUN_FORWARD_SPEED * 0xffff_ffff_ffff_ffffu64) by (nonlinear_arith)
            requires
                speed <= RUN_FORWARD_SPEED,
                delta_ns <= 0xffff_ffff_ffff_ffffu64,
        ;
    }
    let product: u128 = (speed as u128) * (delta_ns as u128);
    let q: u128 = product / (NANOS_PER_SEC as u128);
    q as i64
}

/// The displacement of one frame in a given state.
pub fn displacement_for(s: AnimationState, delta_ns: u64) -> (r: i64)
    ensures
        r == displacement(s, delta_ns),
{
    match s {
        AnimationState::Running => distance(RUN_FORWARD_SPEED, delta_ns),
        AnimationState::RunningBackwards => -distance(RUN_BACKWARD_SPEED, delta_ns),
        _ => 0,
    }
}

/// Clamps a position to the arena.
pub fn clamp_position(x: i128) -> (r: i64)
    ensures
        r == clamp_to_arena(x as int),
        in_arena(r as int),
{
    if x < -(ARENA_HALF_WIDTH as i128) {
        -ARENA_HALF_WIDTH
    } else if x > ARENA_HALF_WIDTH as i128 {
        ARENA_HALF_WIDTH
    } else {
        x as i64
    }
}

/// Moves a character at position `x` by one frame's displacement for its
/// state and keeps it inside the arena.
pub fn process_movement(s: AnimationState, x: i64, delta_ns: u64) -> (r: i64)
    ensures
        r == clamp_to_arena(x + displacement(s, delta_ns)),
        in_arena(r as int),
{
    let d = displacement_for(s, delta_ns);
    clamp_position(x as i128 + d as i128)
}

} // verus!
