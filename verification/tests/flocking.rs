use boomerang_core::steering::{steer, steer_flock, update_separations, Boid, EnemyClass,
    EnemyMotion, SeparationClock, SeparationUpdateRate};
use boomerang_core::vec2::Vec2i;

#[test]
fn no_peers_in_range_gives_zero_separation() {
    let boid = Boid::new();
    let me = Vec2i::new(0, 0);
    let peers = vec![Vec2i::new(100, 0), Vec2i::new(0, -300)];
    let sep = boid.calculate_separation(me, &peers);
    assert_eq!((sep.x, sep.y), (0, 0));
}

#[test]
fn empty_flock_gives_zero_separation() {
    let boid = Boid::new();
    let sep = boid.calculate_separation(Vec2i::new(5, 5), &Vec::new());
    assert_eq!((sep.x, sep.y), (0, 0));
}

#[test]
fn coincident_peer_is_excluded() {
    let boid = Boid::new();
    let me = Vec2i::new(5, 5);
    let peers = vec![Vec2i::new(5, 5), Vec2i::new(5, 5)];
    let sep = boid.calculate_separation(me, &peers);
    assert_eq!((sep.x, sep.y), (0, 0));
}

#[test]
fn single_near_peer_repels_at_unit_length() {
    let boid = Boid::new();
    let me = Vec2i::new(0, 0);
    let peers = vec![Vec2i::new(10, 0)];
    let sep = boid.calculate_separation(me, &peers);
    assert_eq!((sep.x, sep.y), (-1000, 0));
}

#[test]
fn symmetric_peers_cancel_out() {
    let boid = Boid::new();
    let me = Vec2i::new(0, 0);
    let peers = vec![Vec2i::new(10, 0), Vec2i::new(-10, 0)];
    let sep = boid.calculate_separation(me, &peers);
    assert_eq!((sep.x, sep.y), (0, 0));
}

#[test]
fn peer_on_range_boundary_is_ignored() {
    let boid = Boid::new();
    let me = Vec2i::new(0, 0);
    let peers = vec![Vec2i::new(20, 0)];
    let sep = boid.calculate_separation(me, &peers);
    assert_eq!((sep.x, sep.y), (0, 0));
}

#[test]
fn flock_update_writes_each_separation() {
    let mut boids = vec![Boid::new(), Boid::new()];
    let positions = vec![Vec2i::new(0, 0), Vec2i::new(10, 0)];
    update_separations(&mut boids, &positions);
    assert_eq!((boids[0].separation.x, boids[0].separation.y), (-1000, 0));
    assert_eq!((boids[1].separation.x, boids[1].separation.y), (1000, 0));
}

#[test]
fn melee_seeks_player_at_full_speed() {
    let boid = Boid::new();
    let v = steer(
        Vec2i::new(0, 0),
        Vec2i::new(0, 0),
        Vec2i::new(100, 0),
        EnemyClass::Melee,
        &boid,
        64,
        1000,
    );
    assert_eq!((v.x, v.y), (64, 0));
}

#[test]
fn ranged_at_max_range_gets_no_seek() {
    let boid = Boid::new();
    let v = steer(
        Vec2i::new(5, 5),
        Vec2i::new(0, 0),
        Vec2i::new(64, 0),
        EnemyClass::Ranged { max_range: 64 },
        &boid,
        48,
        1000,
    );
    assert_eq!((v.x, v.y), (5, 5));
}

#[test]
fn ranged_inside_max_range_seeks() {
    let boid = Boid::new();
    let v = steer(
        Vec2i::new(0, 0),
        Vec2i::new(0, 0),
        Vec2i::new(63, 0),
        EnemyClass::Ranged { max_range: 64 },
        &boid,
        48,
        1000,
    );
    assert_eq!((v.x, v.y), (48, 0));
}

#[test]
fn separation_pushes_velocity() {
    let mut boid = Boid::new();
    boid.separation = Vec2i::new(1000, 0);
    let v = steer(
        Vec2i::new(0, 0),
        Vec2i::new(0, 0),
        Vec2i::new(0, 0),
        EnemyClass::Ranged { max_range: 0 },
        &boid,
        48,
        1000,
    );
    assert_eq!((v.x, v.y), (64, 0));
}

#[test]
fn per_frame_rate_is_always_due() {
    let mut clock = SeparationClock::new();
    assert!(clock.tick(SeparationUpdateRate::PerFrame, 16));
    assert!(clock.tick(SeparationUpdateRate::PerFrame, 16));
}

#[test]
fn interval_rate_fires_when_crossed() {
    let mut clock = SeparationClock::new();
    let rate = SeparationUpdateRate::EveryMs { interval_ms: 100 };
    assert!(!clock.tick(rate, 60));
    assert!(clock.tick(rate, 60));
    assert_eq!(clock.acc_ms, 20);
    assert!(!clock.tick(rate, 60));
}

#[test]
fn flock_movement_steers_each_class() {
    let mut enemies = vec![
        EnemyMotion {
            pos: Vec2i::new(0, 0),
            vel: Vec2i::new(0, 0),
            class: EnemyClass::Melee,
            speed: 64,
        },
        EnemyMotion {
            pos: Vec2i::new(200, 0),
            vel: Vec2i::new(5, 5),
            class: EnemyClass::Ranged { max_range: 64 },
            speed: 48,
        },
    ];
    let boids = vec![Boid::new(), Boid::new()];
    steer_flock(&mut enemies, &boids, Vec2i::new(100, 0), 1000);
    assert_eq!((enemies[0].vel.x, enemies[0].vel.y), (64, 0));
    assert_eq!((enemies[1].vel.x, enemies[1].vel.y), (5, 5));
    assert_eq!((enemies[0].pos.x, enemies[0].pos.y), (0, 0));
}
