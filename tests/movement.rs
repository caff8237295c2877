use fighter::animation::AnimationState;
use fighter::hitbox::{hitbox_for, joint_part, BodyPart, DebugColor, Hitbox};
use fighter::locomotion::{clamp_position, displacement_for, process_movement, ARENA_HALF_WIDTH};

#[test]
fn running_tenth_second_moves_point_four() {
    assert_eq!(displacement_for(AnimationState::Running, 100_000_000), 400_000);
    assert_eq!(process_movement(AnimationState::Running, 0, 100_000_000), 400_000);
}

#[test]
fn running_backwards_is_slower_and_negative() {
    assert_eq!(displacement_for(AnimationState::RunningBackwards, 100_000_000), -250_000);
    assert_eq!(process_movement(AnimationState::RunningBackwards, 1_000_000, 100_000_000), 750_000);
}

#[test]
fn other_states_do_not_move() {
    for s in [AnimationState::Idle, AnimationState::Punching, AnimationState::Kicking] {
        assert_eq!(displacement_for(s, 100_000_000), 0);
        assert_eq!(process_movement(s, -1_234_567, 100_000_000), -1_234_567);
    }
}

#[test]
fn displacement_rounds_toward_zero() {
    assert_eq!(displacement_for(AnimationState::Running, 1), 0);
    assert_eq!(displacement_for(AnimationState::Running, 16_000_000), 64_000);
    assert_eq!(displacement_for(AnimationState::RunningBackwards, 1_000), -2);
}

#[test]
fn largest_delta_does_not_overflow() {
    assert_eq!(displacement_for(AnimationState::Running, u64::MAX), 73_786_976_294_838_206);
    assert_eq!(process_movement(AnimationState::Running, i64::MAX, u64::MAX), ARENA_HALF_WIDTH);
    assert_eq!(
        process_movement(AnimationState::RunningBackwards, i64::MIN, u64::MAX),
        -ARENA_HALF_WIDTH
    );
}

#[test]
fn movement_at_the_edge_stays_clamped() {
    let mut x: i64 = 3_900_000;
    for _ in 0..20 {
        x = process_movement(AnimationState::Running, x, 100_000_000);
        assert!(x <= ARENA_HALF_WIDTH);
    }
    assert_eq!(x, ARENA_HALF_WIDTH);
    let mut y: i64 = -ARENA_HALF_WIDTH;
    for _ in 0..20 {
        y = process_movement(AnimationState::RunningBackwards, y, 100_000_000);
        assert_eq!(y, -ARENA_HALF_WIDTH);
    }
}

#[test]
fn clamping_is_idempotent() {
    assert_eq!(clamp_position(9_000_000), ARENA_HALF_WIDTH);
    assert_eq!(clamp_position(-9_000_000), -ARENA_HALF_WIDTH);
    assert_eq!(clamp_position(ARENA_HALF_WIDTH as i128), ARENA_HALF_WIDTH);
    assert_eq!(clamp_position(clamp_position(9_000_000) as i128), ARENA_HALF_WIDTH);
    assert_eq!(clamp_position(123), 123);
}

#[test]
fn joints_map_to_body_parts_by_name() {
    assert_eq!(joint_part("hand_l"), Some(BodyPart::Hand));
    assert_eq!(joint_part("hand"), Some(BodyPart::Hand));
    assert_eq!(joint_part("foot_r"), Some(BodyPart::Foot));
    assert_eq!(joint_part("spine_02"), Some(BodyPart::Torso));
    assert_eq!(joint_part("spine_01"), None);
    assert_eq!(joint_part("han"), None);
    assert_eq!(joint_part("left_hand"), None);
    assert_eq!(joint_part(""), None);
}

#[test]
fn hitboxes_per_body_part() {
    assert_eq!(
        hitbox_for("hand_r"),
        Some(Hitbox { part: BodyPart::Hand, group: 1, radius_mm: 150, color: DebugColor::Blue })
    );
    assert_eq!(
        hitbox_for("foot_l"),
        Some(Hitbox { part: BodyPart::Foot, group: 2, radius_mm: 150, color: DebugColor::Blue })
    );
    assert_eq!(
        hitbox_for("spine_02_end"),
        Some(Hitbox { part: BodyPart::Torso, group: 4, radius_mm: 400, color: DebugColor::Red })
    );
    assert_eq!(hitbox_for("head"), None);
}
