//! The game phase the screen manager keeps, and what moves it: assets
//! finishing, the splash delay, the tutorial confirmation, the player's
//! death window, and the restart input. Systems run only in the phase they
//! belong to; entering gameplay resets the wave scheduler.

use vstd::prelude::*;

verus! {

/// The phase the game is in.
#[derive(Clone, Copy, Debug, PartialEq, Eq, Structural)]
pub enum GamePhase {
    SplashFirst,
    SplashNext,
    Tutorial,
    Gameplay,
    AfterDeath,
}

/// What can move the phase forward.
#[derive(Clone, Copy, Debug, PartialEq, Eq, Structural)]
pub enum PhaseEvent {
    LoadingDone,
    SplashDelayElapsed,
    TutorialDone,
    DeathWindowElapsed,
    ContinuePressed,
}

/// The phase after an event: loading leads to the second splash, the
/// splash delay to the tutorial, the confirmed tutorial to gameplay, the
/// elapsed death window to the post-death screen, and the restart input
/// back to gameplay. Any other pairing leaves the phase alone.
pub open spec fn next_phase_spec(phase: GamePhase, event: PhaseEvent) -> GamePhase {
    match (phase, event) {
        (GamePhase::SplashFirst, PhaseEvent::LoadingDone) => GamePhase::SplashNext,
        (GamePhase::SplashNext, PhaseEvent::SplashDelayElapsed) => GamePhase::Tutorial,
        (GamePhase::Tutorial, PhaseEvent::TutorialDone) => GamePhase::Gameplay,
        (GamePhase::Gameplay, PhaseEvent::DeathWindowElapsed) => GamePhase::AfterDeath,
        (GamePhase::AfterDeath, PhaseEvent::ContinuePressed) => GamePhase::Gameplay,
        _ => phase,
    }
}

/// Advances the phase by one event.
pub fn next_phase(phase: GamePhase, event: PhaseEvent) -> (r: GamePhase)
    ensures
        r == next_phase_spec(phase, event),
{
    match (phase, event) {
        (GamePhase::SplashFirst, PhaseEvent::LoadingDone) => GamePhase::SplashNext,
        (GamePhase::SplashNext, PhaseEvent::SplashDelayElapsed) => GamePhase::Tutorial,
        (GamePhase::Tutorial, PhaseEvent::TutorialDone) => GamePhase::Gameplay,
        (GamePhase::Gameplay, PhaseEvent::DeathWindowElapsed) => GamePhase::AfterDeath,
        (GamePhase::AfterDeath, PhaseEvent::ContinuePressed) => GamePhase::Gameplay,
        (p, _) => p,
    }
}

} // verus!
