use platformer::geometry::{Aabb, Vector, UNITS_PER_PIXEL};
use platformer::player::{
    check_collision, Platform, Player, GRAVITY, GROUND_LEVEL, JUMP_FORCE, MOVE_SPEED,
    PLAYER_HALF_SIZE,
};

const PX: i64 = UNITS_PER_PIXEL;

fn platform(x_px: i64, y_px: i64, half_w_px: i64, half_h_px: i64) -> Platform {
    Platform::new(Vector::new(x_px * PX, y_px * PX), Vector::new(half_w_px * PX, half_h_px * PX))
}

fn player_at(x_px: i64, y_px: i64, vy: i64) -> Player {
    let mut p = Player::new(Vector::new(x_px * PX, y_px * PX));
    p.velocity.y = vy;
    p
}

#[test]
fn constants_are_whole_numbers_of_units() {
    assert_eq!(UNITS_PER_PIXEL, 10_000_000);
    assert_eq!(GRAVITY, -208);
    assert_eq!(MOVE_SPEED, 100 * PX / 1000);
    assert_eq!(JUMP_FORCE, 10_000 * PX / 1000);
    assert_eq!(GROUND_LEVEL, -100 * PX);
    assert_eq!(PLAYER_HALF_SIZE, 25 * PX);
}

#[test]
fn vector_constructors() {
    assert_eq!(Vector::new(3, -4), Vector { x: 3, y: -4 });
    assert_eq!(Vector::zero(), Vector { x: 0, y: 0 });
}

#[test]
fn overlap_is_symmetric() {
    let a = Aabb::new(Vector::new(0, 0), Vector::new(10, 10));
    let cases = [
        Aabb::new(Vector::new(5, 5), Vector::new(10, 10)),
        Aabb::new(Vector::new(20, 0), Vector::new(10, 10)),
        Aabb::new(Vector::new(100, 100), Vector::new(1, 1)),
        Aabb::new(Vector::new(0, 0), Vector::new(1, 1)),
        Aabb::new(Vector::new(0, 19), Vector::new(3, 10)),
        Aabb::new(Vector::new(i64::MAX, i64::MIN), Vector::new(i64::MAX, i64::MAX)),
    ];
    let expected = [true, false, false, true, true, true];
    for (b, want) in cases.iter().zip(expected.iter()) {
        assert_eq!(a.overlaps(b), *want);
        assert_eq!(b.overlaps(&a), *want);
    }
}

#[test]
fn touching_boxes_do_not_overlap() {
    let a = Aabb::new(Vector::new(0, 0), Vector::new(10, 10));
    assert!(!a.overlaps(&Aabb::new(Vector::new(20, 0), Vector::new(10, 10))));
    assert!(!a.overlaps(&Aabb::new(Vector::new(0, 20), Vector::new(10, 10))));
    assert!(!a.overlaps(&Aabb::new(Vector::new(-20, -20), Vector::new(10, 10))));
    assert!(a.overlaps(&Aabb::new(Vector::new(19, 19), Vector::new(10, 10))));
}

#[test]
fn overlap_needs_both_axes() {
    let a = Aabb::new(Vector::new(0, 0), Vector::new(10, 10));
    assert!(!a.overlaps(&Aabb::new(Vector::new(0, 50), Vector::new(10, 10))));
    assert!(!a.overlaps(&Aabb::new(Vector::new(50, 0), Vector::new(10, 10))));
}

#[test]
fn overlap_at_the_limits_of_the_coordinates() {
    let a = Aabb::new(Vector::new(i64::MAX, i64::MAX), Vector::new(i64::MAX, i64::MAX));
    let b = Aabb::new(Vector::new(i64::MIN, i64::MIN), Vector::new(i64::MAX, i64::MAX));
    assert!(!a.overlaps(&b));
    assert!(!b.overlaps(&a));
    assert!(a.overlaps(&a));
}

#[test]
fn check_collision_uses_the_player_box() {
    let p = platform(0, -150, 100, 10);
    assert!(check_collision(&Vector::new(0, -120 * PX), &p));
    assert!(!check_collision(&Vector::new(0, -115 * PX), &p));
    assert!(check_collision(&Vector::new(0, -115 * PX - 1), &p));
    assert!(!check_collision(&Vector::new(125 * PX, -120 * PX), &p));
    assert!(check_collision(&Vector::new(125 * PX - 1, -120 * PX), &p));
    assert!(!check_collision(&Vector::new(0, -185 * PX), &p));
}

#[test]
fn platform_bounds_and_resting_height() {
    let p = platform(3, -150, 100, 10);
    assert_eq!(p.bounds(), Aabb::new(Vector::new(3 * PX, -150 * PX), Vector::new(100 * PX, 10 * PX)));
    assert!(p.is_valid());
    assert_eq!(p.resting_height(), -115 * PX);
    let high = Platform::new(Vector::new(0, i64::MAX), Vector::new(1, 1));
    assert!(!high.is_valid());
    let edge = Platform::new(Vector::new(0, i64::MAX - PLAYER_HALF_SIZE), Vector::new(1, 0));
    assert!(edge.is_valid());
    assert_eq!(edge.resting_height(), i64::MAX);
}

#[test]
fn player_starts_at_rest() {
    let p = Player::new(Vector::new(7, 9));
    assert_eq!(p.position, Vector::new(7, 9));
    assert_eq!(p.velocity, Vector::zero());
    assert!(!p.is_jumping);
    assert_eq!(
        p.bounds(),
        Aabb::new(Vector::new(7, 9), Vector::new(PLAYER_HALF_SIZE, PLAYER_HALF_SIZE))
    );
}

#[test]
fn falling_player_lands_on_top_of_the_platform() {
    let platforms = vec![platform(0, -150, 100, 10)];
    let mut p = player_at(0, -120, -1);
    p.is_jumping = true;
    p.resolve_landing(&platforms);
    assert_eq!(p.position, Vector::new(0, -115 * PX));
    assert_eq!(p.velocity, Vector::zero());
    assert!(!p.is_jumping);
}

#[test]
fn falling_player_crossing_into_overlap_lands() {
    let platforms = vec![platform(0, -150, 100, 10)];
    let mut p = player_at(0, -114, -PX);
    p.is_jumping = true;
    assert!(!p.on_platform(&platforms));
    p.apply_gravity(&platforms, 2);
    assert_eq!(p.position.y, -115 * PX);
    assert_eq!(p.velocity.y, 0);
    assert!(!p.is_jumping);
}

#[test]
fn rising_player_passes_through() {
    let platforms = vec![platform(0, -150, 100, 10)];
    let mut p = player_at(0, -120, 5);
    p.is_jumping = true;
    let before = p;
    p.resolve_landing(&platforms);
    assert_eq!(p, before);
    let mut still = player_at(0, -120, 0);
    let before = still;
    still.resolve_landing(&platforms);
    assert_eq!(still, before);
}

#[test]
fn falling_player_clear_of_platforms_keeps_falling() {
    let platforms = vec![platform(0, -150, 100, 10), platform(200, -50, 100, 10)];
    let mut p = player_at(0, 0, -77);
    p.is_jumping = true;
    let before = p;
    p.resolve_landing(&platforms);
    assert_eq!(p, before);
    p.resolve_landing(&Vec::new());
    assert_eq!(p, before);
}

#[test]
fn last_overlapped_platform_decides() {
    let platforms =
        vec![platform(0, -150, 100, 10), platform(0, -140, 100, 10), platform(500, 0, 10, 10)];
    let mut p = player_at(0, -120, -1);
    p.is_jumping = true;
    p.resolve_landing(&platforms);
    assert_eq!(p.position, Vector::new(0, -105 * PX));
    assert_eq!(p.velocity.y, 0);
    assert!(!p.is_jumping);
    let swapped =
        vec![platform(0, -140, 100, 10), platform(0, -150, 100, 10), platform(500, 0, 10, 10)];
    let mut q = player_at(0, -120, -1);
    q.resolve_landing(&swapped);
    assert_eq!(q.position, Vector::new(0, -115 * PX));
    assert_eq!(q.velocity.y, 0);
}

#[test]
fn platforms_are_tested_against_the_player_before_landing() {
    // Resting on the first platform the player would overlap the second, which
    // it did not touch while falling: the second is not landed on.
    let platforms = vec![platform(0, -150, 100, 10), platform(0, -80, 100, 10)];
    let mut p = player_at(0, -120, -1);
    p.resolve_landing(&platforms);
    assert_eq!(p.position, Vector::new(0, -115 * PX));
    assert_eq!(p.velocity.y, 0);
    let reversed = vec![platform(0, -80, 100, 10), platform(0, -150, 100, 10)];
    let mut q = player_at(0, -120, -1);
    q.resolve_landing(&reversed);
    assert_eq!(q.position, Vector::new(0, -115 * PX));
}

#[test]
fn landing_twice_changes_nothing_more() {
    let platforms = vec![platform(0, -150, 100, 10), platform(0, -140, 100, 10)];
    let mut p = player_at(0, -120, -1);
    p.resolve_landing(&platforms);
    let once = p;
    p.resolve_landing(&platforms);
    assert_eq!(p, once);
    assert_eq!(p.position.y, -105 * PX);
    assert_eq!(p.velocity.y, 0);
}

#[test]
fn gravity_changes_velocity_before_position() {
    let mut p = player_at(0, 0, 0);
    p.velocity.x = 3;
    p.integrate(10);
    assert_eq!(p.velocity, Vector::new(3, -2080));
    assert_eq!(p.position, Vector::new(30, -20800));
    p.integrate(10);
    assert_eq!(p.velocity, Vector::new(3, -4160));
    assert_eq!(p.position, Vector::new(60, -62400));
    let before = p;
    p.integrate(0);
    assert_eq!(p, before);
}

#[test]
fn integration_limits() {
    let mut p = player_at(0, 0, 0);
    p.velocity.y = i64::MIN + 208;
    assert!(p.can_integrate(0));
    assert!(!p.can_integrate(2));
    p.velocity.y = 0;
    p.position.y = i64::MIN + 208;
    assert!(p.can_integrate(1));
    assert!(!p.can_integrate(2));
    p.position = Vector::new(i64::MAX, 0);
    p.velocity.x = 1;
    assert!(p.can_integrate(0));
    assert!(!p.can_integrate(1));
    p.velocity.x = i64::MAX;
    p.position.x = 0;
    assert!(p.can_integrate(1));
    assert!(!p.can_integrate(u32::MAX));
}

#[test]
fn movement_is_additive() {
    let mut p = player_at(3, 0, -5);
    let start = p;
    let dt: u32 = 16;
    for _ in 0..100 {
        p.player_movement(false, true, dt);
    }
    assert_eq!(p.position.x, start.position.x + 100 * MOVE_SPEED * 16);
    assert_eq!(p.position.x, 3 * PX + 1_600_000_000);
    assert_eq!(p.position.y, start.position.y);
    assert_eq!(p.velocity, start.velocity);
    assert_eq!(p.is_jumping, start.is_jumping);
}

#[test]
fn movement_left_and_both_keys() {
    let mut p = player_at(0, 0, 0);
    p.player_movement(true, false, 10);
    assert_eq!(p.position, Vector::new(-10_000_000, 0));
    p.player_movement(true, true, 10);
    assert_eq!(p.position, Vector::new(-10_000_000, 0));
    p.player_movement(false, false, 10);
    assert_eq!(p.position, Vector::new(-10_000_000, 0));
    p.player_movement(false, true, 0);
    assert_eq!(p.position, Vector::new(-10_000_000, 0));
}

#[test]
fn movement_limits() {
    let mut p = player_at(0, 0, 0);
    p.position.x = i64::MAX - MOVE_SPEED;
    assert!(p.can_move(false, true, 1));
    assert!(!p.can_move(false, true, 2));
    assert!(p.can_move(true, true, u32::MAX));
    assert!(p.can_move(true, false, u32::MAX));
    p.player_movement(false, true, 1);
    assert_eq!(p.position.x, i64::MAX);
    p.position.x = i64::MIN;
    assert!(!p.can_move(true, false, 1));
    assert!(p.can_move(true, false, 0));
}

#[test]
fn jump_in_the_air_does_nothing() {
    let platforms = vec![platform(0, -150, 100, 10)];
    let mut p = player_at(0, 0, -3);
    let before = p;
    p.jump(&platforms, true);
    assert_eq!(p, before);
    let mut resting = player_at(0, -115, 0);
    let before = resting;
    assert!(!resting.on_platform(&platforms));
    resting.jump(&platforms, true);
    assert_eq!(resting, before);
}

#[test]
fn jump_from_a_platform() {
    let platforms = vec![platform(200, -50, 100, 10), platform(0, -150, 100, 10)];
    let mut p = player_at(0, -120, -3);
    assert!(p.on_platform(&platforms));
    let before = p;
    p.jump(&platforms, false);
    assert_eq!(p, before);
    p.jump(&platforms, true);
    assert_eq!(p.velocity, Vector::new(0, JUMP_FORCE));
    assert!(p.is_jumping);
    assert_eq!(p.position, before.position);
}

#[test]
fn ground_line_is_only_observed() {
    let mut p = player_at(0, -100, 0);
    assert!(p.ground_collision());
    p.position.y = GROUND_LEVEL + 1;
    assert!(!p.ground_collision());
    p.position.y = GROUND_LEVEL - 1;
    assert!(p.ground_collision());
    assert_eq!(p.position.y, GROUND_LEVEL - 1);
}
