use boomerang_core::perimeter::spawn_point_on_outline;
use boomerang_core::spawn::{coffin_ghost_offset, default_waves, enemy_stats, player_stats,
    volley_indices, CoffinSpawner, HandShooter};
use boomerang_core::steering::EnemyClass;
use boomerang_core::vec2::Vec2i;
use boomerang_core::waves::{wave_spawns, EnemyKind, EnemySpawn, Wave, WaveScheduler};

fn outline_edge(p: &Vec2i) -> &'static str {
    let hw = (320 + 16) / 2;
    let hh = (288 + 16) / 2;
    if p.y == hh && p.x >= -hw && p.x < hw {
        "top"
    } else if p.x == hw && p.y > -hh && p.y <= hh {
        "right"
    } else if p.y == -hh && p.x > -hw && p.x <= hw {
        "bottom"
    } else if p.x == -hw && p.y >= -hh && p.y < hh {
        "left"
    } else {
        "off"
    }
}

#[test]
fn two_waves_fire_at_their_thresholds() {
    let table = vec![Wave::new(2000, 3, 0, 0), Wave::new(6000, 0, 1, 0)];
    let mut sched = WaveScheduler::new();
    let mut fired: Vec<(u64, usize)> = Vec::new();
    for step in 1..=7u64 {
        if let Some(idx) = sched.tick(&table, 1000) {
            fired.push((step, idx));
        }
    }
    assert_eq!(fired, vec![(3, 0), (7, 1)]);
    assert_eq!(sched.next_index, 2);
}

#[test]
fn overshooting_clock_emits_one_wave_per_tick() {
    let table = vec![Wave::new(1000, 1, 0, 0), Wave::new(2000, 1, 0, 0)];
    let mut sched = WaveScheduler::new();
    assert_eq!(sched.tick(&table, 5000), Some(0));
    assert_eq!(sched.tick(&table, 1000), Some(1));
    assert_eq!(sched.next_index, 2);
}

#[test]
fn exhausted_table_stops_the_clock() {
    let table = vec![Wave::new(1000, 1, 0, 0)];
    let mut sched = WaveScheduler::new();
    assert_eq!(sched.tick(&table, 2000), Some(0));
    let clock = sched.clock_ms;
    assert_eq!(sched.tick(&table, 2000), None);
    assert_eq!(sched.clock_ms, clock);
}

#[test]
fn reset_rewinds_clock_and_pointer() {
    let table = vec![Wave::new(1000, 1, 0, 0)];
    let mut sched = WaveScheduler::new();
    sched.tick(&table, 2000);
    sched.reset();
    assert_eq!(sched.clock_ms, 0);
    assert_eq!(sched.next_index, 0);
}

#[test]
fn clock_must_exceed_the_timestamp_strictly() {
    let table = vec![Wave::new(1000, 1, 0, 0)];
    let mut sched = WaveScheduler::new();
    assert_eq!(sched.tick(&table, 1000), None);
    assert_eq!(sched.tick(&table, 1), Some(0));
}

#[test]
fn default_table_is_sorted_and_complete() {
    let table = default_waves();
    assert_eq!(table.len(), 46);
    assert_eq!(table[0], Wave::new(2_000, 2, 0, 0));
    assert_eq!(table[10], Wave::new(32_000, 9, 3, 1));
    assert_eq!(table[45], Wave::new(137_000, 32, 15, 18));
    for w in table.windows(2) {
        assert!(w[0].timestamp_ms <= w[1].timestamp_ms);
    }
}

#[test]
fn wave_spawns_match_counts_and_land_on_the_outline() {
    let spawns: Vec<EnemySpawn> = wave_spawns(&Wave::new(0, 2, 1, 1));
    assert_eq!(spawns.len(), 4);
    assert_eq!(spawns[0].kind, EnemyKind::GhostEnemy);
    assert_eq!(spawns[1].kind, EnemyKind::GhostEnemy);
    assert_eq!(spawns[2].kind, EnemyKind::Coffin);
    assert_eq!(spawns[3].kind, EnemyKind::Hand);
    for s in &spawns {
        assert_ne!(outline_edge(&s.pos), "off");
    }
}

#[test]
fn perimeter_sampling_matches_edge_lengths() {
    let mut top = 0u32;
    let mut right = 0u32;
    let mut bottom = 0u32;
    let mut left = 0u32;
    for _ in 0..10_000 {
        let p = spawn_point_on_outline();
        match outline_edge(&p) {
            "top" => top += 1,
            "right" => right += 1,
            "bottom" => bottom += 1,
            "left" => left += 1,
            _ => panic!("sample off the outline: ({}, {})", p.x, p.y),
        }
    }
    // widths 336 and heights 304 of a 1280 perimeter: about 2625 samples per
    // horizontal edge and 2375 per vertical edge.
    assert!((2425..=2825).contains(&top), "top: {}", top);
    assert!((2425..=2825).contains(&bottom), "bottom: {}", bottom);
    assert!((2175..=2575).contains(&right), "right: {}", right);
    assert!((2175..=2575).contains(&left), "left: {}", left);
}

#[test]
fn archetype_stats_match_their_spawners() {
    let ghost = enemy_stats(EnemyKind::GhostEnemy);
    assert_eq!(ghost.health, 2);
    assert_eq!(ghost.speed, 64);
    assert_eq!(ghost.class, EnemyClass::Melee);
    assert_eq!(ghost.hitbox_damage, 1);
    let coffin = enemy_stats(EnemyKind::Coffin);
    assert_eq!(coffin.health, 15);
    assert_eq!(coffin.class, EnemyClass::Ranged { max_range: 64 });
    let hand = enemy_stats(EnemyKind::Hand);
    assert_eq!(hand.health, 20);
    assert_eq!(hand.class, EnemyClass::Ranged { max_range: 96 });
    let player = player_stats();
    assert_eq!(player.health, 1);
    assert_eq!(player.speed, 96);
}

#[test]
fn coffin_breeds_on_its_delay_then_its_period() {
    let mut c = CoffinSpawner::new();
    assert_eq!(c.tick(500), None);
    assert_eq!(c.tick(500), Some(5));
    for _ in 0..8 {
        assert_eq!(c.tick(500), None);
    }
    assert_eq!(c.tick(500), Some(5));
}

#[test]
fn coffin_ghosts_spread_within_the_spacing() {
    for _ in 0..100 {
        let off = coffin_ghost_offset(32);
        assert!(off.x.abs() <= 32 && off.y.abs() <= 32, "({}, {})", off.x, off.y);
    }
}

#[test]
fn hand_volleys_on_its_period() {
    let mut h = HandShooter::new();
    assert_eq!(h.tick(1000), None);
    assert_eq!(h.tick(500), Some(5));
    assert_eq!(h.tick(1499), None);
    assert_eq!(h.tick(1), Some(5));
}

#[test]
fn volley_indices_fan_around_the_aim() {
    assert_eq!(volley_indices(5), vec![-2, -1, 0, 1]);
    assert_eq!(volley_indices(4), vec![-2, -1, 0, 1]);
    assert_eq!(volley_indices(1), Vec::<i64>::new());
}
