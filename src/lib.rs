//! Character control core of a small fighting game: input sampling, a
//! finite state machine with timed action locks, edge-triggered animation
//! dispatch and bounded locomotion along the arena axis.
//!
//! Time is measured in whole nanoseconds and positions in micrometres along
//! the movement axis, so every rule here is exact integer arithmetic. A
//! separate rule names the hitboxes that a rig's joints carry.

pub mod animation;
pub mod input;
pub mod lock;
pub mod character;
pub mod locomotion;
pub mod laws;
pub mod hitbox;
