use boomerang_core::mathx::{div_trunc_i64, isqrt};
use boomerang_core::motion::{apply_friction, integrate, player_move};
use boomerang_core::vec2::Vec2i;

#[test]
fn isqrt_rounds_down() {
    assert_eq!(isqrt(0), 0);
    assert_eq!(isqrt(1), 1);
    assert_eq!(isqrt(15), 3);
    assert_eq!(isqrt(16), 4);
    assert_eq!(isqrt(99), 9);
    assert_eq!(isqrt(100), 10);
    assert_eq!(isqrt(1_000_000), 1000);
}

#[test]
fn div_trunc_rounds_toward_zero() {
    assert_eq!(div_trunc_i64(7, 2), 3);
    assert_eq!(div_trunc_i64(-7, 2), -3);
    assert_eq!(div_trunc_i64(6, 3), 2);
    assert_eq!(div_trunc_i64(-6, 3), -2);
    assert_eq!(div_trunc_i64(0, 5), 0);
}

#[test]
fn unit_vector_scales_to_unit() {
    let u = Vec2i::new(3, 4).unit_or_zero();
    assert_eq!((u.x, u.y), (600, 800));
    let u = Vec2i::new(-3, 4).unit_or_zero();
    assert_eq!((u.x, u.y), (-600, 800));
    let u = Vec2i::new(10, 0).unit_or_zero();
    assert_eq!((u.x, u.y), (1000, 0));
}

#[test]
fn unit_vector_of_zero_is_zero() {
    let u = Vec2i::new(0, 0).unit_or_zero();
    assert_eq!((u.x, u.y), (0, 0));
}

#[test]
fn move_towards_clamps_by_step() {
    let v = Vec2i::new(0, 0).move_towards(Vec2i::new(10, 0), 3);
    assert_eq!((v.x, v.y), (3, 0));
    let v = Vec2i::new(0, 0).move_towards(Vec2i::new(10, 0), 20);
    assert_eq!((v.x, v.y), (10, 0));
    let v = Vec2i::new(0, 0).move_towards(Vec2i::new(10, 0), 10);
    assert_eq!((v.x, v.y), (10, 0));
}

#[test]
fn distances_are_squared() {
    assert_eq!(Vec2i::new(0, 0).dist_sq(Vec2i::new(3, 4)), 25);
    assert_eq!(Vec2i::new(1, 1).dist_sq(Vec2i::new(1, 1)), 0);
    assert_eq!(Vec2i::new(-2, 0).len_sq(), 4);
}

#[test]
fn integrate_adds_velocity_over_time() {
    let p = integrate(Vec2i::new(10, 20), Vec2i::new(1000, -500), 500);
    assert_eq!((p.x, p.y), (510, -230));
    let p = integrate(Vec2i::new(0, 0), Vec2i::new(-3, 3), 100);
    assert_eq!((p.x, p.y), (0, 0));
}

#[test]
fn friction_pulls_velocity_to_zero() {
    let v = apply_friction(Vec2i::new(100, 0), 10, 1000);
    assert_eq!((v.x, v.y), (0, 0));
    let v = apply_friction(Vec2i::new(100, 0), 1, 1000);
    assert_eq!((v.x, v.y), (90, 0));
}

#[test]
fn player_control_steers_and_flags_moving() {
    let (v, moving) = player_move(Vec2i::new(0, 0), Vec2i::new(1000, 0), 96, 1000);
    assert!(moving);
    assert_eq!((v.x, v.y), (96, 0));
    let (v, moving) = player_move(Vec2i::new(7, 8), Vec2i::new(0, 0), 96, 1000);
    assert!(!moving);
    assert_eq!((v.x, v.y), (7, 8));
}
