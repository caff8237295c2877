use vstd::prelude::*;
use crate::animation::{AnimationRequest, AnimationState, intent_state, request_for, request_spec, state_for};
use crate::input::{InputFrame, intent_of, sample_intent};
use crate::lock::{ActionLock, is_locking, lock_duration};

verus! {

/// How a tick's state step left the character: it entered a new state, or it
/// kept the one it had (unchanged input, or held by a lock).
#[derive(Clone, Copy, Debug, PartialEq, Eq, Structural)]
pub enum Transition {
    Entered(AnimationState),
    Sustained(AnimationState),
}

/// The control record of one character.
#[derive(Clone, Copy, Debug, PartialEq, Eq, Structural)]
pub struct CharacterState {
    /// The state decided by the latest step.
    pub current_state: AnimationState,
    /// The state before the latest step that ran; compared with
    /// `current_state` to detect that a state was entered.
    pub previous_state: AnimationState,
    /// The countdown of the action in progress, if any.
    pub action_lock: Option<ActionLock>,
}

impl CharacterState {
    /// A lock is only held by a locking state that was just entered, and never
    /// holds more time than that state's action lasts.
    pub open spec fn wf(self) -> bool {
        match self.action_lock {
            None => true,
            Some(l) => {
                &&& l.wf()
                &&& is_locking(self.current_state)
                &&& l.remaining_ns <= lock_duration(self.current_state)
                &&& self.current_state != self.previous_state
            },
        }
    }

    /// Whether a lock is held and outlasts a frame of `delta_ns`.
    pub open spec fn held_over(self, delta_ns: u64) -> bool {
        match self.action_lock {
            Some(l) => delta_ns < l.remaining_ns,
            None => false,
        }
    }

    /// The record after the state step of one tick. While a lock outlasts the
    /// frame, only the lock counts down. Otherwise the lock is dropped and the
    /// state requested by the frame's intent is applied, the old one becoming
    /// the previous state.
    pub open spec fn after_input(self, input: InputFrame, delta_ns: u64) -> CharacterState {
        if self.held_over(delta_ns) {
            CharacterState {
                action_lock: Some(
                    ActionLock { remaining_ns: (self.action_lock.unwrap().remaining_ns - delta_ns) as u64 },
                ),
                ..self
            }
        } else {
            CharacterState {
                current_state: state_for(intent_of(input)),
                previous_state: self.current_state,
                action_lock: None,
            }
        }
    }

    /// Whether the record has entered a state that no dispatch has answered yet.
    pub open spec fn entered(self) -> bool {
        self.current_state != self.previous_state && self.action_lock is None
    }

    /// How the state step of one tick is reported.
    pub open spec fn transition_of(self, input: InputFrame, delta_ns: u64) -> Transition {
        let next = self.after_input(input, delta_ns);
        if next.entered() {
            Transition::Entered(next.current_state)
        } else {
            Transition::Sustained(next.current_state)
        }
    }

    /// The animation request that the record calls for: one on entering a
    /// state, none otherwise.
    pub open spec fn dispatch_of(self) -> Option<AnimationRequest> {
        if self.entered() {
            Some(request_spec(self.current_state))
        } else {
            None
        }
    }

    /// The record after dispatch: entering a locking state arms its lock.
    pub open spec fn after_dispatch(self) -> CharacterState {
        if self.entered() && is_locking(self.current_state) {
            CharacterState {
                action_lock: Some(ActionLock { remaining_ns: lock_duration(self.current_state) as u64 }),
                ..self
            }
        } else {
            self
        }
    }

    /// The record after a whole tick: state step, then dispatch.
    pub open spec fn after_tick(self, input: InputFrame, delta_ns: u64) -> CharacterState {
        self.after_input(input, delta_ns).after_dispatch()
    }

    /// The animation request of a whole tick.
    pub open spec fn tick_dispatch(self, input: InputFrame, delta_ns: u64) -> Option<AnimationRequest> {
        self.after_input(input, delta_ns).dispatch_of()
    }

    /// A character as it spawns: idle, with no lock.
    pub fn new() -> (r: CharacterState)
        ensures
            r.current_state == AnimationState::Idle,
            r.previous_state == AnimationState::Idle,
            r.action_lock is None,
            r.wf(),
    {
        CharacterState {
            current_state: AnimationState::Idle,
            previous_state: AnimationState::Idle,
            action_lock: None,
        }
    }

    /// Applies a new state, keeping the current one as the previous state.
    pub fn update_player_state(&mut self, new_state: AnimationState)
        ensures
            final(self).current_state == new_state,
            final(self).previous_state == old(self).current_state,
            final(self).action_lock == old(self).action_lock,
    {
        self.previous_state = self.current_state;
        self.current_state = new_state;
    }

    /// The state step of one tick: counts the lock down by the frame's elapsed
    /// time and, unless the lock still holds, applies the frame's intent. A lock
    /// that runs out in this frame lets the intent through in the same frame.
    pub fn process_input(&mut self, input: &InputFrame, delta_ns: u64) -> (t: Transition)
        requires
            old(self).wf(),
        ensures
            *final(self) == old(self).after_input(*input, delta_ns),
            t == old(self).transition_of(*input, delta_ns),
            final(self).wf(),
    {
        if let Some(mut lock) = self.action_lock {
            if !lock.tick(delta_ns) {
                self.action_lock = Some(lock);
                return Transition::Sustained(self.current_state);
            }
            self.action_lock = None;
        }
        let new_state = intent_state(sample_intent(input));
        self.update_player_state(new_state);
        if self.current_state != self.previous_state {
            Transition::Entered(self.current_state)
        } else {
            Transition::Sustained(self.current_state)
        }
    }

    /// The dispatch step of one tick: on entering a state, returns the
    /// animation request for it and, for an attack, arms the attack's lock.
    /// A state that is merely kept asks for nothing.
    pub fn process_animation(&mut self) -> (r: Option<AnimationRequest>)
        requires
            old(self).wf(),
        ensures
            *final(self) == old(self).after_dispatch(),
            r == old(self).dispatch_of(),
            final(self).wf(),
    {
        if self.current_state == self.previous_state || self.action_lock.is_some() {
            return None;
        }
        let state = self.current_state;
        match state {
            AnimationState::Punching | AnimationState::Kicking => {
                self.action_lock = Some(ActionLock::for_state(state));
            },
            _ => {},
        }
        Some(request_for(state))
    }

    /// One whole tick of control: the state step followed by dispatch.
    pub fn tick(&mut self, input: &InputFrame, delta_ns: u64) -> (r: Option<AnimationRequest>)
        requires
            old(self).wf(),
        ensures
            *final(self) == old(self).after_tick(*input, delta_ns),
            r == old(self).tick_dispatch(*input, delta_ns),
            final(self).wf(),
    {
        self.process_input(input, delta_ns);
        self.process_animation()
    }
}

} // verus!
