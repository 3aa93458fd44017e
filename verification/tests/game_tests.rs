//! Whole ticks of the game: phase changes with their enter and exit
//! effects, and the actions a tick hands back.

use asteroids::game::{Game, InputFrame, TickActions};
use asteroids::resources::AsteroidCount;
use asteroids::states::GameState;

fn space() -> InputFrame {
    let mut f = InputFrame::idle();
    f.space_pressed = true;
    f
}

fn boss() -> InputFrame {
    let mut f = InputFrame::idle();
    f.boss_pressed = true;
    f
}

#[test]
fn a_fresh_game_sits_on_the_title_screen() {
    let game = Game::new();
    assert_eq!(game.state, GameState::Starting);
    assert_eq!(game.score.0, 0);
    assert_eq!(game.high_score.0, 0);
    assert_eq!(game.asteroid_count.0, 10);
    assert!(game.ship.is_none());
    assert!(game.ufo.is_none());
    assert_eq!(game.asteroids.len(), 0);
}

#[test]
fn space_on_the_title_screen_starts_a_run() {
    let mut game = Game::new();
    game.asteroid_count = AsteroidCount(3);
    let actions = game.tick(space(), 0, 1000, 16);
    assert_eq!(game.state, GameState::GetReady);
    assert_eq!(actions, TickActions { save_high_score: false, open_boss_page: false });
    // Entering GetReady spawns the ship and the next wave, rewinds the
    // countdown, and clears leftover bullets. Leaving the title had reset
    // the wave counter to one.
    assert!(game.ship.is_some());
    assert_eq!(game.asteroid_count.0, 1);
    assert_eq!(game.asteroids.len(), 1);
    assert_eq!(game.bullets.len(), 0);
    assert_eq!(game.countdown.0.elapsed, 0);
}

#[test]
fn an_idle_tick_changes_no_phase() {
    let mut game = Game::new();
    game.tick(InputFrame::idle(), 0, 1000, 16);
    assert_eq!(game.state, GameState::Starting);
}

#[test]
fn the_countdown_finishing_starts_play() {
    let mut game = Game::new();
    game.tick(space(), 0, 1000, 16);
    assert_eq!(game.state, GameState::GetReady);
    // 4 seconds of get-ready ticks.
    for _ in 0..4 {
        game.tick(InputFrame::idle(), 0, 1000, 1000);
    }
    assert_eq!(game.state, GameState::Playing);
}

#[test]
fn play_without_a_ship_ends_the_run_and_saves() {
    let mut game = Game::new();
    game.state = GameState::Playing;
    game.ship = None;
    game.asteroids.push(asteroids::components::Asteroid {
        pos: asteroids::components::Position { x: 5000, y: 5000 },
        vel: asteroids::components::Velocity { x: 0, y: 0 },
        scale: 20000,
        size: 1300,
    });
    let actions = game.tick(InputFrame::idle(), 0, 1000, 16);
    assert_eq!(game.state, GameState::GameOver);
    assert!(actions.save_high_score);
    assert!(!actions.open_boss_page);
}

#[test]
fn the_boss_key_hides_the_game_and_restores_it() {
    let mut game = Game::new();
    let actions = game.tick(boss(), 0, 1000, 16);
    assert_eq!(game.state, GameState::Boss);
    assert_eq!(game.before_boss.0, GameState::Starting);
    assert!(actions.open_boss_page);
    assert!(!actions.save_high_score);
    let actions = game.tick(boss(), 0, 1000, 16);
    assert_eq!(game.state, GameState::Starting);
    assert!(!actions.open_boss_page);
}

#[test]
fn the_boss_key_does_nothing_during_get_ready() {
    let mut game = Game::new();
    game.tick(space(), 0, 1000, 16);
    assert_eq!(game.state, GameState::GetReady);
    let actions = game.tick(boss(), 0, 1000, 16);
    assert_eq!(game.state, GameState::GetReady);
    assert!(!actions.open_boss_page);
}

#[test]
fn leaving_play_for_the_boss_page_also_saves() {
    let mut game = Game::new();
    game.state = GameState::Playing;
    asteroids::ship_systems::add_player(&mut game);
    // Keep an asteroid around so the wave is not cleared this tick.
    game.asteroids.push(asteroids::components::Asteroid {
        pos: asteroids::components::Position { x: 5000, y: 5000 },
        vel: asteroids::components::Velocity { x: 0, y: 0 },
        scale: 20000,
        size: 1300,
    });
    let actions = game.tick(boss(), 0, 1000, 16);
    assert_eq!(game.state, GameState::Boss);
    assert_eq!(game.before_boss.0, GameState::Playing);
    assert!(actions.save_high_score);
    assert!(actions.open_boss_page);
}

#[test]
fn a_cleared_wave_returns_play_to_get_ready() {
    let mut game = Game::new();
    game.state = GameState::Playing;
    asteroids::ship_systems::add_player(&mut game);
    game.asteroid_count = AsteroidCount(2);
    let actions = game.tick(InputFrame::idle(), 0, 1000, 16);
    assert_eq!(game.state, GameState::GetReady);
    assert!(actions.save_high_score);
    // The cleared wave grew the count, and entering GetReady spawned it.
    assert_eq!(game.asteroid_count.0, 3);
    assert_eq!(game.asteroids.len(), 3);
}

#[test]
fn a_whole_run_from_title_to_game_over() {
    let mut game = Game::new();
    game.tick(space(), 0, 1000, 16);
    assert_eq!(game.state, GameState::GetReady);
    for _ in 0..4 {
        game.tick(InputFrame::idle(), 0, 1000, 1000);
    }
    assert_eq!(game.state, GameState::Playing);
    // Park an asteroid on the ship: this tick the ship dies, an explosion
    // ring appears, play ends, and the high score is to be persisted.
    let ship_pos = game.ship.unwrap().pos;
    game.asteroids.push(asteroids::components::Asteroid {
        pos: ship_pos,
        vel: asteroids::components::Velocity { x: 0, y: 0 },
        scale: 20000,
        size: 1300,
    });
    let actions = game.tick(InputFrame::idle(), 0, 1000, 16);
    assert_eq!(game.state, GameState::GameOver);
    assert!(game.ship.is_none());
    assert!(actions.save_high_score);
    assert!(!game.explosions.is_empty());
}

#[test]
fn space_after_game_over_returns_to_get_ready() {
    let mut game = Game::new();
    game.state = GameState::GameOver;
    game.asteroid_count = AsteroidCount(7);
    let actions = game.tick(space(), 0, 1000, 16);
    assert_eq!(game.state, GameState::GetReady);
    assert!(!actions.save_high_score);
    // Leaving GameOver resets the run: the wave counter starts over.
    assert_eq!(game.asteroid_count.0, 1);
    assert!(game.ship.is_some());
}
