//! Motion: integration, wraparound at the world bounds, timers, and the
//! random draws staying within their ranges.

use asteroids::components::{Asteroid, Position, Ship, TickTimer, Velocity};
use asteroids::game::Game;
use asteroids::resources::WorldSize;
use asteroids::shared_systems::{apply_velocity, wraparound_entities};

fn ship_at(x: i64, y: i64) -> Ship {
    let mut game = Game::new();
    asteroids::ship_systems::add_player(&mut game);
    let mut s = game.ship.unwrap();
    s.pos = Position { x, y };
    s
}

#[test]
fn velocity_moves_a_position() {
    let mut game = Game::new();
    game.ship = Some(ship_at(0, 0));
    let mut s = game.ship.unwrap();
    s.vel = Velocity { x: 1000, y: -2000 };
    game.ship = Some(s);
    apply_velocity(&mut game, 500);
    let s = game.ship.unwrap();
    assert_eq!(s.pos.x, 500);
    assert_eq!(s.pos.y, -1000);
}

#[test]
fn a_position_past_the_right_edge_teleports_to_the_left_edge() {
    // Half the default world width is 9600; one step past it must land
    // exactly on the opposite edge, not be clamped.
    let mut game = Game::new();
    game.asteroids.push(Asteroid {
        pos: Position { x: 9601, y: 0 },
        vel: Velocity { x: 0, y: 0 },
        scale: 20000,
        size: 1300,
    });
    wraparound_entities(&mut game);
    assert_eq!(game.asteroids[0].pos.x, -9600);
    assert_eq!(game.asteroids[0].pos.y, 0);
}

#[test]
fn a_position_past_the_bottom_edge_teleports_to_the_top_edge() {
    let mut game = Game::new();
    game.ship = Some(ship_at(0, -5401));
    wraparound_entities(&mut game);
    assert_eq!(game.ship.unwrap().pos.y, 5400);
}

#[test]
fn a_position_inside_the_bounds_is_untouched() {
    let mut game = Game::new();
    game.ship = Some(ship_at(9600, -5400));
    wraparound_entities(&mut game);
    assert_eq!(game.ship.unwrap().pos.x, 9600);
    assert_eq!(game.ship.unwrap().pos.y, -5400);
}

#[test]
fn a_timer_clamps_and_reports_the_finishing_tick() {
    let mut t = TickTimer::new(1000);
    t.tick(400);
    assert!(!t.finished());
    assert!(!t.just_finished());
    assert_eq!(t.remaining_secs(), 0);
    t.tick(700);
    assert!(t.finished());
    assert!(t.just_finished());
    assert_eq!(t.elapsed, 1000);
    t.tick(100);
    assert!(t.finished());
    assert!(!t.just_finished());
    t.reset();
    assert!(!t.finished());
    assert_eq!(t.elapsed, 0);
}

#[test]
fn countdown_reports_whole_seconds_left() {
    let mut t = TickTimer::new(4000);
    assert_eq!(t.remaining_secs(), 4);
    t.tick(500);
    assert_eq!(t.remaining_secs(), 3);
    t.tick(500);
    assert_eq!(t.remaining_secs(), 3);
    t.tick(1000);
    assert_eq!(t.remaining_secs(), 2);
}

#[test]
fn random_interior_points_stay_on_the_playfield() {
    let ws = WorldSize { width: 19200, height: 10800 };
    for _ in 0..100 {
        let p = ws.get_random_coords();
        assert!(-9600 <= p.x && p.x <= 9600);
        assert!(-5400 <= p.y && p.y <= 5400);
    }
}

#[test]
fn random_edge_points_lie_on_an_edge() {
    let ws = WorldSize { width: 19200, height: 10800 };
    for _ in 0..100 {
        let p = ws.get_random_edge();
        assert!(-9600 <= p.x && p.x <= 9600);
        assert!(-5400 <= p.y && p.y <= 5400);
        assert!(p.x == -9600 || p.x == 9600 || p.y == -5400 || p.y == 5400);
    }
}

#[test]
fn a_random_edge_position_lies_on_an_edge() {
    let ws = WorldSize { width: 19200, height: 10800 };
    for _ in 0..50 {
        let p = Position::new_random_edge(&ws);
        assert!(p.x == -9600 || p.x == 9600 || p.y == -5400 || p.y == 5400);
        assert!(-9600 <= p.x && p.x <= 9600);
        assert!(-5400 <= p.y && p.y <= 5400);
    }
}

#[test]
fn a_randomised_position_lands_on_the_playfield() {
    let ws = WorldSize { width: 19200, height: 10800 };
    let mut p = Position { x: 999_999, y: 999_999 };
    p.set_random(&ws);
    assert!(-9600 <= p.x && p.x <= 9600);
    assert!(-5400 <= p.y && p.y <= 5400);
}

#[test]
fn rotation_wraps_within_a_full_turn() {
    let mut game = Game::new();
    asteroids::ship_systems::add_player(&mut game);
    let mut s = game.ship.unwrap();
    s.angle = 6000;
    s.rotate_speed = 5000;
    game.ship = Some(s);
    asteroids::ship_systems::rotate_ship(&mut game, 100);
    // 6000 + 500 wraps past 6283 to 217.
    assert_eq!(game.ship.unwrap().angle, 217);
}

#[test]
fn thrust_accelerates_along_the_facing_direction() {
    let mut game = Game::new();
    asteroids::ship_systems::add_player(&mut game);
    asteroids::ship_systems::input_thrust_ship(&mut game, true);
    asteroids::ship_systems::apply_thrust(&mut game, 0, 1000);
    let s = game.ship.unwrap();
    assert_eq!(s.vel.x, 0);
    assert_eq!(s.vel.y, 10);
}
