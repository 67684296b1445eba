use boomerang_core::combat::{apply_damage_tick, dash_tick, enemies_take_damage, player_hits,
    player_take_hits, take_knockback, ContactPair, HitEvent, HitboxContact, HitboxInfo, Knockback,
    Vitals};
use boomerang_core::timer::{TickTimer, TimerMode};
use boomerang_core::vec2::Vec2i;

fn contact(damage: i64) -> HitboxContact {
    HitboxContact { damage, source: Vec2i::new(0, 0) }
}

#[test]
fn overlap_drains_health_by_each_damage() {
    let mut v = Vitals { health: 10, dead: false, iframes: false };
    let (hits, died) = apply_damage_tick(&mut v, &vec![contact(3), contact(4)]);
    assert_eq!(v.health, 3);
    assert!(!died);
    assert!(!v.dead);
    assert_eq!(hits.len(), 2);
    assert_eq!(hits[0].damage, 3);
    assert_eq!(hits[1].damage, 4);
}

#[test]
fn persistent_overlap_drains_every_tick() {
    let mut v = Vitals { health: 10, dead: false, iframes: false };
    apply_damage_tick(&mut v, &vec![contact(2)]);
    apply_damage_tick(&mut v, &vec![contact(2)]);
    apply_damage_tick(&mut v, &vec![contact(2)]);
    assert_eq!(v.health, 4);
}

#[test]
fn iframes_block_all_damage() {
    let mut v = Vitals { health: 10, dead: false, iframes: true };
    let (hits, died) = apply_damage_tick(&mut v, &vec![contact(3), contact(4)]);
    assert_eq!(v.health, 10);
    assert!(!died);
    assert!(hits.is_empty());
}

#[test]
fn death_fires_exactly_once() {
    let mut v = Vitals { health: 5, dead: false, iframes: false };
    let (_, died) = apply_damage_tick(&mut v, &vec![contact(3), contact(4)]);
    assert!(died);
    assert!(v.dead);
    assert_eq!(v.health, -2);
    let (hits, died_again) = apply_damage_tick(&mut v, &vec![contact(100)]);
    assert!(!died_again);
    assert!(hits.is_empty());
    assert_eq!(v.health, -2);
}

#[test]
fn simultaneous_killing_sources_report_one_death() {
    let mut v = Vitals { health: 1, dead: false, iframes: false };
    let (hits, died) = apply_damage_tick(&mut v, &vec![contact(9), contact(9), contact(9)]);
    assert!(died);
    assert_eq!(hits.len(), 3);
    let (_, died_again) = apply_damage_tick(&mut v, &vec![contact(1)]);
    assert!(!died_again);
}

#[test]
fn knockback_is_consumed_exactly_once() {
    let mut slot = Some(Knockback { dir: Vec2i::new(3, 4), strength: 100 });
    let v = take_knockback(&mut slot, Vec2i::new(1, 2));
    assert_eq!((v.x, v.y), (60, 80));
    assert!(slot.is_none());
    let v = take_knockback(&mut slot, Vec2i::new(1, 2));
    assert_eq!((v.x, v.y), (1, 2));
}

#[test]
fn knockback_from_coincident_source_is_zero() {
    let mut slot = Some(Knockback { dir: Vec2i::new(0, 0), strength: 100 });
    let v = take_knockback(&mut slot, Vec2i::new(9, 9));
    assert_eq!((v.x, v.y), (0, 0));
}

#[test]
fn contacts_route_to_player_hits() {
    let player = 1u64;
    let contacts = vec![
        ContactPair { a: 1, b: 2 },
        ContactPair { a: 3, b: 4 },
        ContactPair { a: 5, b: 1 },
    ];
    let hitboxes = vec![
        HitboxInfo { id: 2, damage: 7, pos: Vec2i::new(1, 1) },
        HitboxInfo { id: 9, damage: 3, pos: Vec2i::new(2, 2) },
    ];
    let hits = player_hits(&contacts, player, &hitboxes);
    assert_eq!(hits.len(), 1);
    assert_eq!(hits[0].damage, 7);
    assert_eq!((hits[0].source.x, hits[0].source.y), (1, 1));
}

#[test]
fn contact_with_removed_entity_is_skipped() {
    let hits = player_hits(
        &vec![ContactPair { a: 1, b: 77 }],
        1,
        &vec![HitboxInfo { id: 2, damage: 7, pos: Vec2i::new(0, 0) }],
    );
    assert!(hits.is_empty());
}

#[test]
fn dash_iframes_end_with_the_timer() {
    let mut v = Vitals { health: 1, dead: false, iframes: true };
    let mut dash = Some(TickTimer::new(100, TimerMode::Once));
    dash_tick(&mut v, &mut dash, 50);
    assert!(dash.is_some());
    assert!(v.iframes);
    dash_tick(&mut v, &mut dash, 60);
    assert!(dash.is_none());
    assert!(!v.iframes);
}

#[test]
fn population_resolves_in_one_tick() {
    let mut vitals = vec![
        Vitals { health: 2, dead: false, iframes: false },
        Vitals { health: 5, dead: false, iframes: false },
        Vitals { health: -1, dead: true, iframes: false },
    ];
    let overlaps = vec![
        vec![contact(1)],
        vec![contact(1), contact(1)],
        vec![contact(9)],
    ];
    let (hits, died) = enemies_take_damage(&mut vitals, &overlaps);
    assert_eq!(vitals[0].health, 1);
    assert_eq!(vitals[1].health, 3);
    assert_eq!(vitals[2].health, -1);
    assert_eq!(died, vec![false, false, false]);
    assert_eq!(hits[0].len(), 1);
    assert_eq!(hits[1].len(), 2);
    assert!(hits[2].is_empty());

    let killing = vec![vec![contact(1)], vec![contact(5)], vec![]];
    let (_, died) = enemies_take_damage(&mut vitals, &killing);
    assert_eq!(died, vec![true, true, false]);
    assert!(vitals[0].dead && vitals[1].dead);
}

#[test]
fn player_hits_drain_health_and_queue_knockback() {
    let mut v = Vitals { health: 20, dead: false, iframes: false };
    let hits = vec![
        HitEvent { damage: 3, source: Vec2i::new(10, 0) },
        HitEvent { damage: 2, source: Vec2i::new(0, 5) },
    ];
    let (kb, died) = player_take_hits(&mut v, &hits, Vec2i::new(0, 0), 128);
    assert_eq!(v.health, 15);
    assert!(!died);
    let kb = kb.expect("an unblocked hit queues knockback");
    assert_eq!((kb.dir.x, kb.dir.y), (0, -5));
    let mut slot = Some(kb);
    let vel = take_knockback(&mut slot, Vec2i::new(0, 0));
    assert_eq!((vel.x, vel.y), (0, -128));
}

#[test]
fn iframed_player_takes_no_hit_and_no_knockback() {
    let mut v = Vitals { health: 20, dead: false, iframes: true };
    let hits = vec![HitEvent { damage: 3, source: Vec2i::new(10, 0) }];
    let (kb, died) = player_take_hits(&mut v, &hits, Vec2i::new(0, 0), 128);
    assert_eq!(v.health, 20);
    assert!(!died);
    assert!(kb.is_none());
}

#[test]
fn lethal_player_hit_reports_death() {
    let mut v = Vitals { health: 1, dead: false, iframes: false };
    let hits = vec![HitEvent { damage: 1, source: Vec2i::new(4, 0) }];
    let (kb, died) = player_take_hits(&mut v, &hits, Vec2i::new(0, 0), 128);
    assert!(died);
    assert!(v.dead);
    assert!(kb.is_some());
}
