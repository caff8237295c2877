use vstd::prelude::*;

verus! {

/// The discrete state of a character; it selects the animation clip that
/// plays and how the character moves.
#[derive(Clone, Copy, Debug, PartialEq, Eq, Structural)]
pub enum AnimationState {
    Idle,
    Punching,
    Kicking,
    Running,
    RunningBackwards,
}

/// The single action requested by input for one tick.
#[derive(Clone, Copy, Debug, PartialEq, Eq, Structural)]
pub enum Intent {
    Idle,
    Punch,
    Kick,
    MoveForward,
    MoveBackward,
}

/// The state that an intent asks for.
pub open spec fn state_for(intent: Intent) -> AnimationState {
    match intent {
        Intent::Punch => AnimationState::Punching,
        Intent::Kick => AnimationState::Kicking,
        Intent::MoveForward => AnimationState::Running,
        Intent::MoveBackward => AnimationState::RunningBackwards,
        Intent::Idle => AnimationState::Idle,
    }
}

/// Maps an intent to the state it requests.
pub fn intent_state(intent: Intent) -> (r: AnimationState)
    ensures
        r == state_for(intent),
{
    match intent {
        Intent::Punch => AnimationState::Punching,
        Intent::Kick => AnimationState::Kicking,
        Intent::MoveForward => AnimationState::Running,
        Intent::MoveBackward => AnimationState::RunningBackwards,
        Intent::Idle => AnimationState::Idle,
    }
}

/// The clips of a character rig, referred to symbolically.
#[derive(Clone, Copy, Debug, PartialEq, Eq, Structural)]
pub enum Clip {
    Idle,
    RunForwards,
    WalkBackwards,
    Punch,
    Kick,
}

/// Sound cues that an attack fires when it starts.
#[derive(Clone, Copy, Debug, PartialEq, Eq, Structural)]
pub enum SoundCue {
    Punch,
    Kick,
}

/// Blend-in time of every clip change, in nanoseconds (0.2 s).
pub const BLEND_NS: u64 = 200_000_000;

/// Playback speed of movement and idle clips, in percent (1.0x).
pub const NORMAL_SPEED_PERCENT: u64 = 100;

/// Playback speed of attack clips, in percent (1.5x).
pub const ATTACK_SPEED_PERCENT: u64 = 150;

/// A command for the animation player of one character, with the sound cue
/// that goes with it.
#[derive(Clone, Copy, Debug, PartialEq, Eq, Structural)]
pub struct AnimationRequest {
    pub clip: Clip,
    pub blend_ns: u64,
    pub speed_percent: u64,
    pub looping: bool,
    pub sound: Option<SoundCue>,
}

/// What entering a state asks of the animation player: attacks play once at
/// 1.5x with their sound, the other states loop at normal speed.
pub open spec fn request_spec(s: AnimationState) -> AnimationRequest {
    match s {
        AnimationState::Idle => AnimationRequest {
            clip: Clip::Idle,
            blend_ns: BLEND_NS,
            speed_percent: NORMAL_SPEED_PERCENT,
            looping: true,
            sound: None,
        },
        AnimationState::Running => AnimationRequest {
            clip: Clip::RunForwards,
            blend_ns: BLEND_NS,
            speed_percent: NORMAL_SPEED_PERCENT,
            looping: true,
            sound: None,
        },
        AnimationState::RunningBackwards => AnimationRequest {
            clip: Clip::WalkBackwards,
            blend_ns: BLEND_NS,
            speed_percent: NORMAL_SPEED_PERCENT,
            looping: true,
            sound: None,
        },
        AnimationState::Punching => AnimationRequest {
            clip: Clip::Punch,
            blend_ns: BLEND_NS,
            speed_percent: ATTACK_SPEED_PERCENT,
            looping: false,
            sound: Some(SoundCue::Punch),
        },
        AnimationState::Kicking => AnimationRequest {
            clip: Clip::Kick,
            blend_ns: BLEND_NS,
            speed_percent: ATTACK_SPEED_PERCENT,
            looping: false,
            sound: Some(SoundCue::Kick),
        },
    }
}

/// Builds the request for entering a state.
pub fn request_for(s: AnimationState) -> (r: AnimationRequest)
    ensures
        r == request_spec(s),
{
    let (clip, speed_percent, looping, sound) = match s {
        AnimationState::Idle => (Clip::Idle, NORMAL_SPEED_PERCENT, true, None),
        AnimationState::Running => (Clip::RunForwards, NORMAL_SPEED_PERCENT, true, None),
        AnimationState::RunningBackwards => (
            Clip::WalkBackwards,
            NORMAL_SPEED_PERCENT,
            true,
            None,
        ),
        AnimationState::Punching => (
            Clip::Punch,
            ATTACK_SPEED_PERCENT,
            false,
            Some(SoundCue::Punch),
        ),
        AnimationState::Kicking => (Clip::Kick, ATTACK_SPEED_PERCENT, false, Some(SoundCue::Kick)),
    };
    AnimationRequest { clip, blend_ns: BLEND_NS, speed_percent, looping, sound }
}

} // verus!
