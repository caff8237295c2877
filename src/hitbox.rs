use vstd::prelude::*;

verus! {

/// Collision group of hand hitboxes.
pub const HANDS_COLLISION_GROUP: u32 = 1;

/// Collision group of foot hitboxes.
pub const FEET_COLLISION_GROUP: u32 = 2;

/// Collision group of torso hitboxes.
pub const BODY_COLLISION_GROUP: u32 = 4;

/// Radius of a hand or foot hitbox, in millimetres (0.15 units).
pub const LIMB_RADIUS_MM: u32 = 150;

/// Radius of a torso hitbox, in millimetres (0.4 units).
pub const TORSO_RADIUS_MM: u32 = 400;

/// What a joint of a rig can do in a fight.
#[derive(Clone, Copy, Debug, PartialEq, Eq, Structural)]
pub enum BodyPart {
    Hand,
    Foot,
    Torso,
}

/// Colour in which the physics debug view draws a hitbox.
#[derive(Clone, Copy, Debug, PartialEq, Eq, Structural)]
pub enum DebugColor {
    Blue,
    Red,
}

/// A ball collider attached to a named joint.
#[derive(Clone, Copy, Debug, PartialEq, Eq, Structural)]
pub struct Hitbox {
    pub part: BodyPart,
    pub group: u32,
    pub radius_mm: u32,
    pub color: DebugColor,
}

/// The hitbox of a body part.
pub open spec fn hitbox_of_part(part: BodyPart) -> Hitbox {
    match part {
        BodyPart::Hand => Hitbox {
            part,
            group: HANDS_COLLISION_GROUP,
            radius_mm: LIMB_RADIUS_MM,
            color: DebugColor::Blue,
        },
        BodyPart::Foot => Hitbox {
            part,
            group: FEET_COLLISION_GROUP,
            radius_mm: LIMB_RADIUS_MM,
            color: DebugColor::Blue,
        },
        BodyPart::Torso => Hitbox {
            part,
            group: BODY_COLLISION_GROUP,
            radius_mm: TORSO_RADIUS_MM,
            color: DebugColor::Red,
        },
    }
}

/// The body part a joint stands for, by the start of its name: `hand`,
/// `foot`, or `spine_02` for the torso; other joints carry no hitbox.
pub open spec fn part_of_joint(name: Seq<char>) -> Option<BodyPart> {
    if "hand"@.is_prefix_of(name) {
        Some(BodyPart::Hand)
    } else if "foot"@.is_prefix_of(name) {
        Some(BodyPart::Foot)
    } else if "spine_02"@.is_prefix_of(name) {
        Some(BodyPart::Torso)
    } else {
        None
    }
}

/// Relies on `str::starts_with` with a `&str` pattern: true exactly when
/// `prefix` is a prefix of `s`.
#[verifier::external_body]
fn starts_with(s: &str, prefix: &str) -> (r: bool)
    ensures
        r == prefix@.is_prefix_of(s@),
{
    s.starts_with(prefix)
}

/// The body part of a joint, by its name.
pub fn joint_part(name: &str) -> (r: Option<BodyPart>)
    ensures
        r == part_of_joint(name@),
{
    if starts_with(name, "hand") {
        Some(BodyPart::Hand)
    } else if starts_with(name, "foot") {
        Some(BodyPart::Foot)
    } else if starts_with(name, "spine_02") {
        Some(BodyPart::Torso)
    } else {
        None
    }
}

/// The hitbox to attach to a joint of a rig, if its name marks it as a hand,
/// a foot or the torso.
pub fn hitbox_for(name: &str) -> (r: Option<Hitbox>)
    ensures
        r == (match part_of_joint(name@) {
            Some(p) => Some(hitbox_of_part(p)),
            None => None,
        }),
{
    match joint_part(name) {
        Some(BodyPart::Hand) => Some(
            Hitbox {
                part: BodyPart::Hand,
                group: HANDS_COLLISION_GROUP,
                radius_mm: LIMB_RADIUS_MM,
                color: DebugColor::Blue,
            },
        ),
        Some(BodyPart::Foot) => Some(
            Hitbox {
                part: BodyPart::Foot,
                group: FEET_COLLISION_GROUP,
                radius_mm: LIMB_RADIUS_MM,
                color: DebugColor::Blue,
            },
        ),
        Some(BodyPart::Torso) => Some(
            Hitbox {
                part: BodyPart::Torso,
                group: BODY_COLLISION_GROUP,
                radius_mm: TORSO_RADIUS_MM,
                color: DebugColor::Red,
            },
        ),
        None => None,
    }
}

} // verus!
