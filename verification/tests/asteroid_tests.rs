//! Asteroids: wave spawning, the collision sweep with splitting and
//! scoring, and the level progression.

use asteroids::asteroid_systems::{end_level, handle_collisions, spawn_asteroids};
use asteroids::components::{Asteroid, Bullet, Position, TickTimer, Velocity};
use asteroids::game::Game;
use asteroids::resources::AsteroidCount;
use asteroids::shared_systems::update_scores;
use asteroids::states::GameState;

fn bullet_at(x: i64, y: i64) -> Bullet {
    Bullet {
        pos: Position { x, y },
        vel: Velocity { x: 0, y: 0 },
        timer: TickTimer::new(1000),
        size: 75,
        from_ufo: false,
    }
}

fn asteroid_at(x: i64, y: i64, scale: u32, size: i64) -> Asteroid {
    Asteroid { pos: Position { x, y }, vel: Velocity { x: 0, y: 0 }, scale, size }
}

#[test]
fn a_wave_has_exactly_the_asked_count() {
    let mut game = Game::new();
    game.asteroid_count = AsteroidCount(5);
    spawn_asteroids(&mut game);
    assert_eq!(game.asteroids.len(), 5);
    for a in &game.asteroids {
        assert_eq!(a.scale, 20000);
        assert_eq!(a.size, 1300);
        assert!(-9600 <= a.pos.x && a.pos.x <= 9600);
        assert!(-5400 <= a.pos.y && a.pos.y <= 5400);
        // At scale 2.0 the sampled speed lies in [145,155) tenths per
        // second; the velocity stays between half of it and its bounds.
        assert!(-154 <= a.vel.x && a.vel.x <= 154);
        assert!(-154 <= a.vel.y && a.vel.y <= 154);
        assert!(a.vel.x * a.vel.x + a.vel.y * a.vel.y >= 72 * 72);
    }
}

#[test]
fn a_wave_spawns_clear_of_the_ship() {
    let mut game = Game::new();
    asteroids::ship_systems::add_player(&mut game);
    game.asteroid_count = AsteroidCount(8);
    spawn_asteroids(&mut game);
    let ship = game.ship.unwrap();
    for a in &game.asteroids {
        let dx = a.pos.x - ship.pos.x;
        let dy = a.pos.y - ship.pos.y;
        assert!(dx * dx + dy * dy >= 2600 * 2600);
    }
}

#[test]
fn a_hit_asteroid_splits_into_two_half_scale_fragments() {
    let mut game = Game::new();
    game.asteroids.push(asteroid_at(100, 200, 20000, 1300));
    game.bullets.push(bullet_at(100, 200));
    handle_collisions(&mut game);
    assert_eq!(game.bullets.len(), 0);
    assert_eq!(game.asteroids.len(), 2);
    assert_eq!(game.asteroids[0].scale, 10000);
    assert_eq!(game.asteroids[1].scale, 10000);
    assert_eq!(game.asteroids[0].pos.x, 100);
    assert_eq!(game.asteroids[0].pos.y, 200);
    for a in &game.asteroids {
        // Fragments at scale 1.0 move at a sampled speed in [290,310).
        assert!(-309 <= a.vel.x && a.vel.x <= 309);
        assert!(-309 <= a.vel.y && a.vel.y <= 309);
        assert!(a.vel.x * a.vel.x + a.vel.y * a.vel.y >= 145 * 145);
    }
    assert_eq!(game.score_events.len(), 1);
    assert_eq!(game.score_events[0].0, 1);
    assert_eq!(game.explosion_events.len(), 1);
    assert_eq!(game.explosion_events[0].0.x, 100);
}

#[test]
fn a_small_asteroid_is_removed_without_children() {
    // Scale 0.2: its half, 0.1, is not above the limit.
    let mut game = Game::new();
    game.asteroids.push(asteroid_at(0, 0, 2000, 130));
    game.bullets.push(bullet_at(0, 0));
    handle_collisions(&mut game);
    assert_eq!(game.asteroids.len(), 0);
    assert_eq!(game.bullets.len(), 0);
    assert_eq!(game.score_events.len(), 1);
}

#[test]
fn a_scale_just_above_the_threshold_still_splits() {
    // Scale 0.2002 halves to 0.1001, just above the 0.1 limit.
    let mut game = Game::new();
    game.asteroids.push(asteroid_at(0, 0, 2002, 130));
    game.bullets.push(bullet_at(0, 0));
    handle_collisions(&mut game);
    assert_eq!(game.asteroids.len(), 2);
    assert_eq!(game.asteroids[0].scale, 1001);
}

#[test]
fn each_bullet_resolves_at_most_one_asteroid() {
    let mut game = Game::new();
    game.asteroids.push(asteroid_at(0, 0, 20000, 1300));
    game.asteroids.push(asteroid_at(10, 0, 20000, 1300));
    game.bullets.push(bullet_at(0, 0));
    handle_collisions(&mut game);
    // One asteroid destroyed (two fragments), the overlapping second one
    // survives untouched ahead of the fragments.
    assert_eq!(game.score_events.len(), 1);
    assert_eq!(game.asteroids.len(), 3);
    assert_eq!(game.asteroids[0].pos.x, 10);
    assert_eq!(game.asteroids[0].scale, 20000);
}

#[test]
fn a_missing_bullet_survives_the_sweep() {
    let mut game = Game::new();
    game.asteroids.push(asteroid_at(5000, 5000, 20000, 1300));
    game.bullets.push(bullet_at(-5000, -5000));
    handle_collisions(&mut game);
    assert_eq!(game.bullets.len(), 1);
    assert_eq!(game.asteroids.len(), 1);
    assert_eq!(game.score_events.len(), 0);
}

#[test]
fn clearing_a_wave_advances_the_level() {
    let mut game = Game::new();
    game.state = GameState::Playing;
    game.asteroid_count = AsteroidCount(3);
    let next = end_level(&mut game);
    assert_eq!(next, Some(GameState::GetReady));
    assert_eq!(game.asteroid_count.0, 4);
}

#[test]
fn a_surviving_asteroid_blocks_the_level_end() {
    let mut game = Game::new();
    game.state = GameState::Playing;
    game.asteroid_count = AsteroidCount(3);
    game.asteroids.push(asteroid_at(0, 0, 20000, 1300));
    let next = end_level(&mut game);
    assert_eq!(next, None);
    assert_eq!(game.asteroid_count.0, 3);
}

#[test]
fn one_asteroid_shot_to_pieces_ends_the_level() {
    // The end-to-end run: a wave of one asteroid at scale 2.0 is shot until
    // nothing remains; each hit scores one point and leaves an explosion
    // event, fragments halve down to the limit, and the cleared wave moves
    // play back to GetReady with a grown count.
    let mut game = Game::new();
    game.state = GameState::Playing;
    game.asteroid_count = AsteroidCount(1);
    spawn_asteroids(&mut game);
    assert_eq!(game.asteroids.len(), 1);
    assert_eq!(game.asteroids[0].scale, 20000);

    // First shot: the asteroid despawns, the bullet despawns, two scale-1.0
    // fragments appear, one point is scored, one explosion event fires.
    let first = game.asteroids[0];
    game.bullets.push(bullet_at(first.pos.x, first.pos.y));
    handle_collisions(&mut game);
    assert_eq!(game.bullets.len(), 0);
    assert_eq!(game.asteroids.len(), 2);
    assert_eq!(game.asteroids[0].scale, 10000);
    assert_eq!(game.asteroids[1].scale, 10000);
    assert_eq!(game.explosion_events.len(), 1);
    assert_eq!(game.score_events.len(), 1);
    update_scores(&mut game);
    assert_eq!(game.score.0, 1);
    game.explosion_events.clear();

    // Keep shooting until no asteroid remains. The fragment chain from
    // scale 2.0 is 31 asteroids in all.
    let mut destroyed = 1;
    let mut guard = 0;
    while !game.asteroids.is_empty() {
        let target = game.asteroids[0];
        game.bullets.push(bullet_at(target.pos.x, target.pos.y));
        handle_collisions(&mut game);
        destroyed += 1;
        guard += 1;
        assert!(guard < 100);
    }
    assert_eq!(destroyed, 31);
    update_scores(&mut game);
    assert_eq!(game.score.0, 31);

    let next = end_level(&mut game);
    assert_eq!(next, Some(GameState::GetReady));
    assert_eq!(game.asteroid_count.0, 2);
}
