use boomerang_core::projectile::{despawn_on_contact, roll_spread, wrap_position, Boomerang,
    Lifetime, ShootControl, WrapTracker};
use boomerang_core::vec2::Vec2i;

#[test]
fn wrap_teleports_and_mirrors_bottom_exit() {
    let (p, wraps) = wrap_position(Vec2i::new(30, -161), 168, 152);
    assert_eq!((p.x, p.y), (-30, 152));
    assert_eq!(wraps, 1);
}

#[test]
fn wrap_teleports_and_mirrors_top_exit() {
    let (p, wraps) = wrap_position(Vec2i::new(30, 161), 168, 152);
    assert_eq!((p.x, p.y), (-30, -152));
    assert_eq!(wraps, 1);
}

#[test]
fn wrap_teleports_and_mirrors_side_exits() {
    let (p, wraps) = wrap_position(Vec2i::new(-170, 40), 168, 152);
    assert_eq!((p.x, p.y), (168, -40));
    assert_eq!(wraps, 1);
    let (p, wraps) = wrap_position(Vec2i::new(170, 40), 168, 152);
    assert_eq!((p.x, p.y), (-168, -40));
    assert_eq!(wraps, 1);
}

#[test]
fn wrap_inside_field_changes_nothing() {
    let (p, wraps) = wrap_position(Vec2i::new(10, 20), 168, 152);
    assert_eq!((p.x, p.y), (10, 20));
    assert_eq!(wraps, 0);
}

#[test]
fn corner_exit_can_wrap_twice() {
    let (p, wraps) = wrap_position(Vec2i::new(170, -161), 168, 152);
    assert_eq!((p.x, p.y), (168, -152));
    assert_eq!(wraps, 2);
}

#[test]
fn lifetime_expires_below_zero() {
    let mut life = Lifetime::new(200);
    assert!(!life.tick(150));
    assert_eq!(life.remaining_ms, 50);
    assert!(life.tick(100));
    assert_eq!(life.remaining_ms, -50);
}

#[test]
fn max_wrap_one_despawns_after_second_wrap() {
    let mut t = WrapTracker::new(1);
    t.record_wraps(1);
    assert!(!t.should_despawn());
    t.record_wraps(1);
    assert!(t.should_despawn());
}

#[test]
fn boomerang_flies_straight_within_range() {
    let mut b = Boomerang::new(64);
    let v = b.fly(Vec2i::new(100, 0), Vec2i::new(0, 0), Vec2i::new(0, 0), 500);
    assert_eq!((v.x, v.y), (100, 0));
    assert_eq!(b.traveled, 50);
    assert!(!b.armed);
}

#[test]
fn boomerang_turns_back_and_arms_past_range() {
    let mut b = Boomerang::new(64);
    b.fly(Vec2i::new(100, 0), Vec2i::new(0, 0), Vec2i::new(0, 0), 500);
    let v = b.fly(Vec2i::new(100, 0), Vec2i::new(50, 0), Vec2i::new(0, 0), 500);
    assert_eq!(b.traveled, 100);
    assert!(b.armed);
    assert_eq!((v.x, v.y), (-100, 0));
}

#[test]
fn boomerang_arms_after_wrap_idempotently() {
    let mut b = Boomerang::new(64);
    b.arm_after_wraps(0);
    assert!(!b.armed);
    b.arm_after_wraps(2);
    assert!(b.armed);
    b.arm_after_wraps(0);
    assert!(b.armed);
}

#[test]
fn boomerang_returns_to_player_for_pickup() {
    let mut b = Boomerang::new(64);
    b.fly(Vec2i::new(200, 0), Vec2i::new(0, 0), Vec2i::new(0, 0), 500);
    assert!(b.back_at_player(Vec2i::new(10, 0), Vec2i::new(0, 0)));
    assert!(!b.back_at_player(Vec2i::new(16, 0), Vec2i::new(0, 0)));
    let fresh = Boomerang::new(64);
    assert!(!fresh.back_at_player(Vec2i::new(0, 0), Vec2i::new(0, 0)));
}

#[test]
fn armed_projectile_despawns_on_contact() {
    assert!(despawn_on_contact(true, 1));
    assert!(!despawn_on_contact(true, 0));
    assert!(!despawn_on_contact(false, 3));
}

#[test]
fn shoot_cadence_follows_the_rate() {
    let mut s = ShootControl::new(100);
    assert!(s.tick(true, 16));
    assert_eq!(s.cooldown_ms, 84);
    assert!(!s.tick(true, 16));
    assert!(!s.tick(true, 16));
    assert!(!s.tick(true, 16));
    assert!(!s.tick(true, 16));
    assert!(!s.tick(true, 16));
    assert!(s.tick(true, 16));
    assert_eq!(s.cooldown_ms, 88);
}

#[test]
fn releasing_the_trigger_clears_the_cooldown() {
    let mut s = ShootControl::new(100);
    s.tick(true, 16);
    assert!(!s.tick(false, 16));
    assert_eq!(s.cooldown_ms, 0);
    assert!(s.tick(true, 16));
}

#[test]
fn spread_rolls_stay_centered_on_the_aim() {
    assert_eq!(roll_spread(0), 0);
    let mut seen_nonzero = false;
    for _ in 0..200 {
        let r = roll_spread(5000);
        assert!((-2500..2500).contains(&r), "{}", r);
        if r != 0 {
            seen_nonzero = true;
        }
    }
    assert!(seen_nonzero);
}
