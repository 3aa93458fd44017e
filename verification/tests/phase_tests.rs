//! The phase machine: every listed transition, and the boss toggle.

use asteroids::states::{phase_step, GameState, PhaseTrigger};

#[test]
fn space_starts_a_run_from_the_title() {
    let (next, before) = phase_step(
        GameState::Starting,
        GameState::Starting,
        PhaseTrigger::SpacePressed,
    );
    assert_eq!(next, GameState::GetReady);
    assert_eq!(before, GameState::Starting);
}

#[test]
fn space_restarts_from_game_over() {
    let (next, _) = phase_step(
        GameState::GameOver,
        GameState::Starting,
        PhaseTrigger::SpacePressed,
    );
    assert_eq!(next, GameState::GetReady);
}

#[test]
fn space_changes_nothing_elsewhere() {
    let (next, _) = phase_step(
        GameState::Playing,
        GameState::Starting,
        PhaseTrigger::SpacePressed,
    );
    assert_eq!(next, GameState::Playing);
    let (next, _) = phase_step(
        GameState::GetReady,
        GameState::Starting,
        PhaseTrigger::SpacePressed,
    );
    assert_eq!(next, GameState::GetReady);
}

#[test]
fn countdown_finish_starts_play() {
    let (next, _) = phase_step(
        GameState::GetReady,
        GameState::Starting,
        PhaseTrigger::CountdownFinished,
    );
    assert_eq!(next, GameState::Playing);
    let (next, _) = phase_step(
        GameState::Playing,
        GameState::Starting,
        PhaseTrigger::CountdownFinished,
    );
    assert_eq!(next, GameState::Playing);
}

#[test]
fn losing_the_ship_ends_play() {
    let (next, _) = phase_step(GameState::Playing, GameState::Starting, PhaseTrigger::ShipGone);
    assert_eq!(next, GameState::GameOver);
    let (next, _) = phase_step(GameState::Starting, GameState::Starting, PhaseTrigger::ShipGone);
    assert_eq!(next, GameState::Starting);
}

#[test]
fn clearing_the_wave_returns_to_get_ready() {
    let (next, _) = phase_step(
        GameState::Playing,
        GameState::Starting,
        PhaseTrigger::WaveCleared,
    );
    assert_eq!(next, GameState::GetReady);
}

#[test]
fn boss_toggle_remembers_and_restores() {
    let (next, before) = phase_step(
        GameState::Playing,
        GameState::Starting,
        PhaseTrigger::BossToggle,
    );
    assert_eq!(next, GameState::Boss);
    assert_eq!(before, GameState::Playing);
    let (back, _) = phase_step(GameState::Boss, before, PhaseTrigger::BossToggle);
    assert_eq!(back, GameState::Playing);
}

#[test]
fn boss_toggle_is_ignored_during_get_ready() {
    let (next, before) = phase_step(
        GameState::GetReady,
        GameState::Starting,
        PhaseTrigger::BossToggle,
    );
    assert_eq!(next, GameState::GetReady);
    assert_eq!(before, GameState::Starting);
}
