use vstd::prelude::*;
use crate::animation::{AnimationState, Clip, SoundCue, request_spec};
use crate::character::{CharacterState, Transition};
use crate::input::{InputFrame, is_quiet};
use crate::lock::{ActionLock, PUNCH_LOCK_NS};
use crate::locomotion::{ARENA_HALF_WIDTH, clamp_to_arena, displacement, in_arena};

verus! {

/// The state step reports `Entered` exactly on the ticks whose dispatch
/// issues an animation request.
pub proof fn lemma_entered_iff_dispatch(c: CharacterState, input: InputFrame, delta_ns: u64)
    requires
        c.wf(),
    ensures
        (c.transition_of(input, delta_ns) is Entered) <==> (c.tick_dispatch(input, delta_ns) is Some),
{
}

/// An unlocked character given a frame with no relevant key is idle after
/// that one tick.
pub proof fn lemma_quiet_frame_goes_idle(c: CharacterState, input: InputFrame, delta_ns: u64)
    requires
        c.wf(),
        c.action_lock is None,
        is_quiet(input),
    ensures
        c.after_tick(input, delta_ns).current_state == AnimationState::Idle,
{
}

/// A punch from an idle, unlocked character enters `Punching`, plays the
/// punch clip with its sound, and arms a 0.6 s lock.
pub proof fn lemma_punch_from_idle(c: CharacterState, input: InputFrame, delta_ns: u64)
    requires
        c.wf(),
        c.action_lock is None,
        c.current_state == AnimationState::Idle,
        input.punch_pressed,
    ensures
        c.after_tick(input, delta_ns).current_state == AnimationState::Punching,
        c.after_tick(input, delta_ns).action_lock == Some(ActionLock { remaining_ns: PUNCH_LOCK_NS }),
        c.tick_dispatch(input, delta_ns) == Some(request_spec(AnimationState::Punching)),
        request_spec(AnimationState::Punching).clip == Clip::Punch,
        request_spec(AnimationState::Punching).sound == Some(SoundCue::Punch),
{
}

/// While a lock outlasts the frame, every input is ignored: the states stay
/// as they are, nothing is dispatched, and only the countdown advances.
pub proof fn lemma_locked_ignores_input(c: CharacterState, input: InputFrame, delta_ns: u64)
    requires
        c.wf(),
        c.held_over(delta_ns),
    ensures
        c.after_tick(input, delta_ns).current_state == c.current_state,
        c.after_tick(input, delta_ns).previous_state == c.previous_state,
        c.after_tick(input, delta_ns).action_lock == Some(
            ActionLock { remaining_ns: (c.action_lock.unwrap().remaining_ns - delta_ns) as u64 },
        ),
        c.tick_dispatch(input, delta_ns) is None,
        c.transition_of(input, delta_ns) == Transition::Sustained(c.current_state),
{
}

/// When a punch's lock runs out on a tick with no input, that tick enters
/// `Idle` and dispatches the idle clip; a further quiet tick dispatches
/// nothing and stays idle.
pub proof fn lemma_lock_expiry_goes_idle_once(
    c: CharacterState,
    first: InputFrame,
    first_ns: u64,
    second: InputFrame,
    second_ns: u64,
)
    requires
        c.wf(),
        c.action_lock is Some,
        c.current_state == AnimationState::Punching,
        !c.held_over(first_ns),
        is_quiet(first),
        is_quiet(second),
    ensures
        c.after_tick(first, first_ns).current_state == AnimationState::Idle,
        c.after_tick(first, first_ns).action_lock is None,
        c.tick_dispatch(first, first_ns) == Some(request_spec(AnimationState::Idle)),
        c.after_tick(first, first_ns).after_tick(second, second_ns).current_state
            == AnimationState::Idle,
        c.after_tick(first, first_ns).tick_dispatch(second, second_ns) is None,
{
}

/// Holding forward over three ticks from an unlocked character that is not
/// already running dispatches the run clip on the first tick only.
pub proof fn lemma_held_forward_dispatches_once(
    c: CharacterState,
    i1: InputFrame,
    d1: u64,
    i2: InputFrame,
    d2: u64,
    i3: InputFrame,
    d3: u64,
)
    requires
        c.wf(),
        c.action_lock is None,
        c.current_state != AnimationState::Running,
        i1.right_held && !i1.punch_pressed && !i1.kick_pressed,
        i2.right_held && !i2.punch_pressed && !i2.kick_pressed,
        i3.right_held && !i3.punch_pressed && !i3.kick_pressed,
    ensures
        c.tick_dispatch(i1, d1) == Some(request_spec(AnimationState::Running)),
        c.after_tick(i1, d1).tick_dispatch(i2, d2) is None,
        c.after_tick(i1, d1).after_tick(i2, d2).tick_dispatch(i3, d3) is None,
        c.after_tick(i1, d1).after_tick(i2, d2).after_tick(i3, d3).current_state
            == AnimationState::Running,
{
}

/// A punch wins over a held forward key: an unlocked character enters
/// `Punching`, never `Running`.
pub proof fn lemma_punch_beats_forward(c: CharacterState, input: InputFrame, delta_ns: u64)
    requires
        c.wf(),
        c.action_lock is None,
        input.punch_pressed,
        input.right_held,
    ensures
        c.after_tick(input, delta_ns).current_state == AnimationState::Punching,
{
}

/// Clamping to the arena is idempotent and leaves positions inside the arena
/// where they are.
pub proof fn lemma_clamp_idempotent(x: int)
    ensures
        in_arena(clamp_to_arena(x)),
        clamp_to_arena(clamp_to_arena(x)) == clamp_to_arena(x),
        in_arena(x) ==> clamp_to_arena(x) == x,
{
}

/// A character at the arena's edge that keeps moving outward stays at the
/// edge, however many frames it moves.
pub proof fn lemma_edge_holds(s: AnimationState, delta_ns: u64)
    ensures
        s == AnimationState::Running ==> clamp_to_arena(ARENA_HALF_WIDTH + displacement(s, delta_ns))
            == ARENA_HALF_WIDTH,
        s == AnimationState::RunningBackwards ==> clamp_to_arena(
            -ARENA_HALF_WIDTH + displacement(s, delta_ns),
        ) == -ARENA_HALF_WIDTH,
{
}

/// The position after `n` frames of `delta_ns` each in state `s`, starting
/// from `x`.
pub open spec fn moved(s: AnimationState, x: int, delta_ns: u64, n: nat) -> int
    decreases n,
{
    if n == 0 {
        x
    } else {
        clamp_to_arena(moved(s, x, delta_ns, (n - 1) as nat) + displacement(s, delta_ns))
    }
}

/// However often movement is applied, the position ends inside the arena; a
/// character that starts at the edge it runs toward never leaves that edge.
pub proof fn lemma_repeated_movement_bounded(s: AnimationState, x: int, delta_ns: u64, n: nat)
    requires
        n >= 1,
    ensures
        in_arena(moved(s, x, delta_ns, n)),
        s == AnimationState::Running && x == ARENA_HALF_WIDTH ==> moved(s, x, delta_ns, n)
            == ARENA_HALF_WIDTH,
        s == AnimationState::RunningBackwards && x == -ARENA_HALF_WIDTH ==> moved(
            s,
            x,
            delta_ns,
            n,
        ) == -ARENA_HALF_WIDTH,
    decreases n,
{
    if n > 1 {
        lemma_repeated_movement_bounded(s, x, delta_ns, (n - 1) as nat);
    }
    lemma_edge_holds(s, delta_ns);
    assert(moved(s, x, delta_ns, n) == clamp_to_arena(
        moved(s, x, delta_ns, (n - 1) as nat) + displacement(s, delta_ns),
    ));
}

} // verus!
