use boomerang_core::effects::{TrailSpawner, TrailSpawnerKind};
use boomerang_core::phase::{next_phase, GamePhase, PhaseEvent};
use boomerang_core::smoothing::{decay_blend, fade_step, SpeedMod};
use boomerang_core::timer::{TickTimer, TimerMode};

#[test]
fn one_shot_timer_signals_exactly_once() {
    let mut t = TickTimer::new(1000, TimerMode::Once);
    assert!(!t.tick(600));
    assert!(!t.finished());
    assert!(t.tick(600));
    assert!(t.finished());
    assert!(!t.tick(600));
    assert!(t.finished());
    assert!(!t.just_finished());
}

#[test]
fn repeating_timer_keeps_its_phase() {
    let mut t = TickTimer::new(1000, TimerMode::Repeating);
    assert!(!t.tick(600));
    assert!(t.tick(600));
    assert_eq!(t.elapsed_ms, 200);
    assert!(t.finished());
    assert!(!t.tick(600));
    assert!(!t.finished());
}

#[test]
fn oversized_tick_signals_once_per_call() {
    let mut t = TickTimer::new(1000, TimerMode::Repeating);
    assert!(t.tick(2500));
    assert_eq!(t.elapsed_ms, 500);
    let mut once = TickTimer::new(1000, TimerMode::Once);
    assert!(once.tick(5000));
    assert!(!once.tick(5000));
}

#[test]
fn timer_reset_rewinds() {
    let mut t = TickTimer::new(1000, TimerMode::Once);
    t.tick(1500);
    t.reset();
    assert_eq!(t.elapsed_ms, 0);
    assert!(!t.finished());
}

#[test]
fn blend_keeps_the_retained_fraction_of_the_gap() {
    assert_eq!(decay_blend(1000, 0, 500), 500);
    assert_eq!(decay_blend(0, 1000, 250), 750);
    assert_eq!(decay_blend(700, 700, 900), 700);
    assert_eq!(decay_blend(500, 0, 1000), 500);
    assert_eq!(decay_blend(500, 0, 0), 0);
}

#[test]
fn two_half_steps_match_one_full_step() {
    // Frame-rate independence of the exponential decay: the retained
    // fraction of dt is the square of the retained fraction of dt / 2, so
    // two half-steps land within rounding of one full step.
    let decay = 3.0f64;
    let dt = 0.5f64;
    let retain_full = ((-decay * dt).exp() * 1000.0).round() as i64;
    let retain_half = ((-decay * dt / 2.0).exp() * 1000.0).round() as i64;
    let v = 800i64;
    let target = 100i64;
    let once = decay_blend(v, target, retain_full);
    let twice = decay_blend(decay_blend(v, target, retain_half), target, retain_half);
    assert!((once - twice).abs() <= 5, "once {} twice {}", once, twice);
}

#[test]
fn trail_fade_despawns_below_the_threshold() {
    let (alpha, gone) = fade_step(1000, 500);
    assert_eq!(alpha, 500);
    assert!(!gone);
    let (alpha, gone) = fade_step(1000, 4);
    assert_eq!(alpha, 4);
    assert!(gone);
}

#[test]
fn speed_mod_ramps_toward_full_speed() {
    let mut m = SpeedMod::new(0, 64);
    assert_eq!(m.current_speed(), 0);
    m.ramp_toward_full(500);
    assert_eq!(m.factor_milli, 500);
    assert_eq!(m.current_speed(), 32);
    m.ramp_toward_full(0);
    assert_eq!(m.current_speed(), 64);
    assert_eq!(m.restore(), 64);
}

#[test]
fn counted_trail_spawner_spends_its_copies() {
    let mut s = TrailSpawner::new(100, TrailSpawnerKind::Count { remaining: 2 });
    assert_eq!(s.tick(100), (true, false));
    assert_eq!(s.tick(50), (false, false));
    assert_eq!(s.tick(50), (true, true));
}

#[test]
fn windowed_trail_spawner_runs_out_of_time() {
    let mut s = TrailSpawner::new(100, TrailSpawnerKind::Window { remaining_ms: 250 });
    assert_eq!(s.tick(100), (true, false));
    assert_eq!(s.tick(100), (true, false));
    assert_eq!(s.tick(100), (true, true));
}

#[test]
fn infinite_trail_spawner_never_stops() {
    let mut s = TrailSpawner::new(100, TrailSpawnerKind::Infinite);
    for _ in 0..50 {
        let (_, done) = s.tick(100);
        assert!(!done);
    }
}

#[test]
fn phases_advance_through_the_session() {
    let p = next_phase(GamePhase::SplashFirst, PhaseEvent::LoadingDone);
    assert_eq!(p, GamePhase::SplashNext);
    let p = next_phase(p, PhaseEvent::SplashDelayElapsed);
    assert_eq!(p, GamePhase::Tutorial);
    let p = next_phase(p, PhaseEvent::TutorialDone);
    assert_eq!(p, GamePhase::Gameplay);
    let p = next_phase(p, PhaseEvent::DeathWindowElapsed);
    assert_eq!(p, GamePhase::AfterDeath);
    let p = next_phase(p, PhaseEvent::ContinuePressed);
    assert_eq!(p, GamePhase::Gameplay);
}

#[test]
fn unrelated_events_leave_the_phase_alone() {
    assert_eq!(
        next_phase(GamePhase::Gameplay, PhaseEvent::ContinuePressed),
        GamePhase::Gameplay
    );
    assert_eq!(
        next_phase(GamePhase::SplashFirst, PhaseEvent::TutorialDone),
        GamePhase::SplashFirst
    );
}
