//! The game phase state machine: which screen the game is on and how the
//! triggers of a run move it along.

use vstd::prelude::*;

verus! {

/// The phase the game is in. Exactly one is active at a time.
#[derive(Clone, Copy, Debug, PartialEq, Eq, Hash, Structural)]
pub enum GameState {
    /// Title screen; a wave drifts behind the title.
    Starting,
    /// The ship has just (re)spawned and a countdown runs.
    GetReady,
    /// The playable phase.
    Playing,
    /// The ship is gone; waiting for the player to try again.
    GameOver,
    /// A side-channel toggle that pauses the run and remembers the prior
    /// phase to restore on toggle-back.
    Boss,
}

/// The events that can move the phase machine.
#[derive(Clone, Copy, Debug, PartialEq, Eq, Structural)]
pub enum PhaseTrigger {
    /// The space key was pressed this tick.
    SpacePressed,
    /// The get-ready countdown ran out.
    CountdownFinished,
    /// No ship entity remains.
    ShipGone,
    /// No asteroid remains during play.
    WaveCleared,
    /// The boss key was pressed this tick.
    BossToggle,
}

/// The transition function of the phase machine: total and deterministic in
/// `(state, trigger)`. The second component is the phase that a later boss
/// toggle restores; it changes only when the boss phase is entered.
///
/// - `SpacePressed` starts a run from the title or the game-over screen.
/// - `CountdownFinished` moves GetReady into Playing.
/// - `ShipGone` ends play.
/// - `WaveCleared` sends play back to GetReady for the next wave.
/// - `BossToggle` swaps with the remembered phase, except during GetReady,
///   where it does nothing.
///
/// Every other pairing leaves the phase unchanged.
pub open spec fn spec_phase_step(
    state: GameState,
    before_boss: GameState,
    trigger: PhaseTrigger,
) -> (GameState, GameState) {
    match trigger {
        PhaseTrigger::SpacePressed => match state {
            GameState::Starting => (GameState::GetReady, before_boss),
            GameState::GameOver => (GameState::GetReady, before_boss),
            _ => (state, before_boss),
        },
        PhaseTrigger::CountdownFinished => match state {
            GameState::GetReady => (GameState::Playing, before_boss),
            _ => (state, before_boss),
        },
        PhaseTrigger::ShipGone => match state {
            GameState::Playing => (GameState::GameOver, before_boss),
            _ => (state, before_boss),
        },
        PhaseTrigger::WaveCleared => match state {
            GameState::Playing => (GameState::GetReady, before_boss),
            _ => (state, before_boss),
        },
        PhaseTrigger::BossToggle => match state {
            GameState::Boss => (before_boss, before_boss),
            GameState::GetReady => (GameState::GetReady, before_boss),
            _ => (GameState::Boss, state),
        },
    }
}

/// The edges a tick may move the phase along: every main progression step,
/// the boss toggle in either direction, or staying put.
pub open spec fn spec_phase_edge(from: GameState, to: GameState) -> bool {
    ||| to == from
    ||| (from == GameState::Starting && to == GameState::GetReady)
    ||| (from == GameState::GameOver && to == GameState::GetReady)
    ||| (from == GameState::GetReady && to == GameState::Playing)
    ||| (from == GameState::Playing && to == GameState::GameOver)
    ||| (from == GameState::Playing && to == GameState::GetReady)
    ||| (from != GameState::GetReady && from != GameState::Boss && to == GameState::Boss)
    ||| (from == GameState::Boss && to != GameState::Boss)
}

/// Step the phase machine. Defined on every `(state, trigger)` pair, with
/// the result pinned to `spec_phase_step`, so transitions are total and
/// deterministic.
pub fn phase_step(
    state: GameState,
    before_boss: GameState,
    trigger: PhaseTrigger,
) -> (r: (GameState, GameState))
    ensures
        r == spec_phase_step(state, before_boss, trigger),
        before_boss != GameState::Boss ==> r.1 != GameState::Boss,
        before_boss != GameState::GetReady ==> r.1 != GameState::GetReady,
{
    match trigger {
        PhaseTrigger::SpacePressed => match state {
            GameState::Starting => (GameState::GetReady, before_boss),
            GameState::GameOver => (GameState::GetReady, before_boss),
            _ => (state, before_boss),
        },
        PhaseTrigger::CountdownFinished => match state {
            GameState::GetReady => (GameState::Playing, before_boss),
            _ => (state, before_boss),
        },
        PhaseTrigger::ShipGone => match state {
            GameState::Playing => (GameState::GameOver, before_boss),
            _ => (state, before_boss),
        },
        PhaseTrigger::WaveCleared => match state {
            GameState::Playing => (GameState::GetReady, before_boss),
            _ => (state, before_boss),
        },
        PhaseTrigger::BossToggle => match state {
            GameState::Boss => (before_boss, before_boss),
            GameState::GetReady => (GameState::GetReady, before_boss),
            _ => (GameState::Boss, state),
        },
    }
}

} // verus!
