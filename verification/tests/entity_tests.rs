//! The ship's gun and fate, the UFO, bullets, and explosion rings.

use asteroids::bullet_systems::{
    delete_all_bullets, delete_expired_bullets, ship_fire_bullet, ufo_fire_bullet,
};
use asteroids::components::{Asteroid, Bullet, Position, TickTimer, Velocity, UFO};
use asteroids::events::ExplosionEvent;
use asteroids::explosion::{handle_explosion_event, remove_explosion, update_explosion};
use asteroids::game::Game;
use asteroids::ship_systems::{
    add_player, handle_ship_bullet_collisions, handle_ship_collisions, input_firing,
    teleport_ship,
};
use asteroids::ufo_systems::{handle_ufo_bullet_collisions, spawn_ufo, update_velocity};

fn playing_game_with_ship() -> Game {
    let mut game = Game::new();
    add_player(&mut game);
    game
}

#[test]
fn the_ship_spawns_once() {
    let mut game = Game::new();
    add_player(&mut game);
    let s = game.ship.unwrap();
    assert_eq!(s.pos, Position { x: 0, y: 0 });
    assert_eq!(s.size, 300);
    let mut s2 = s;
    s2.pos = Position { x: 5, y: 5 };
    game.ship = Some(s2);
    add_player(&mut game);
    // A second call does not replace the existing ship.
    assert_eq!(game.ship.unwrap().pos.x, 5);
}

#[test]
fn firing_spawns_a_bullet_inheriting_the_ship_velocity() {
    let mut game = playing_game_with_ship();
    let mut s = game.ship.unwrap();
    s.vel = Velocity { x: 100, y: 0 };
    s.firing_timer.elapsed = 250;
    game.ship = Some(s);
    input_firing(&mut game, true);
    ship_fire_bullet(&mut game, 0, 1000, 16);
    assert_eq!(game.bullets.len(), 1);
    let b = game.bullets[0];
    assert_eq!(b.pos, Position { x: 0, y: 0 });
    assert_eq!(b.vel, Velocity { x: 100, y: 10000 });
    assert_eq!(b.size, 75);
    assert!(!b.from_ufo);
    assert!(!game.ship.unwrap().firing.0);
}

#[test]
fn the_gun_respects_the_cooldown() {
    let mut game = playing_game_with_ship();
    input_firing(&mut game, true);
    // The cooldown has only just started running.
    ship_fire_bullet(&mut game, 0, 1000, 16);
    assert_eq!(game.bullets.len(), 0);
}

#[test]
fn three_bullets_cap_the_gun() {
    let mut game = playing_game_with_ship();
    let mut s = game.ship.unwrap();
    s.firing_timer.elapsed = 250;
    game.ship = Some(s);
    for _ in 0..3 {
        game.bullets.push(Bullet {
            pos: Position { x: 0, y: 0 },
            vel: Velocity { x: 0, y: 0 },
            timer: TickTimer::new(1000),
            size: 75,
            from_ufo: false,
        });
    }
    input_firing(&mut game, true);
    ship_fire_bullet(&mut game, 0, 1000, 16);
    assert_eq!(game.bullets.len(), 3);
    assert!(!game.ship.unwrap().firing.0);
}

#[test]
fn bullets_expire_after_their_lifetime() {
    let mut game = Game::new();
    game.bullets.push(Bullet {
        pos: Position { x: 0, y: 0 },
        vel: Velocity { x: 0, y: 0 },
        timer: TickTimer::new(1000),
        size: 75,
        from_ufo: false,
    });
    delete_expired_bullets(&mut game, 999);
    assert_eq!(game.bullets.len(), 1);
    delete_expired_bullets(&mut game, 1);
    assert_eq!(game.bullets.len(), 0);
}

#[test]
fn all_bullets_can_be_cleared() {
    let mut game = Game::new();
    for _ in 0..4 {
        game.bullets.push(Bullet {
            pos: Position { x: 0, y: 0 },
            vel: Velocity { x: 0, y: 0 },
            timer: TickTimer::new(1000),
            size: 75,
            from_ufo: false,
        });
    }
    delete_all_bullets(&mut game);
    assert_eq!(game.bullets.len(), 0);
}

#[test]
fn an_asteroid_strike_destroys_the_ship() {
    let mut game = playing_game_with_ship();
    game.asteroids.push(Asteroid {
        pos: Position { x: 100, y: 0 },
        vel: Velocity { x: 0, y: 0 },
        scale: 20000,
        size: 1300,
    });
    handle_ship_collisions(&mut game);
    assert!(game.ship.is_none());
    assert_eq!(game.explosion_events.len(), 1);
    assert_eq!(game.explosion_events[0].0, Position { x: 0, y: 0 });
    // The asteroid survives the impact.
    assert_eq!(game.asteroids.len(), 1);
}

#[test]
fn a_distant_asteroid_leaves_the_ship_alone() {
    let mut game = playing_game_with_ship();
    game.asteroids.push(Asteroid {
        pos: Position { x: 5000, y: 5000 },
        vel: Velocity { x: 0, y: 0 },
        scale: 20000,
        size: 1300,
    });
    handle_ship_collisions(&mut game);
    assert!(game.ship.is_some());
    assert_eq!(game.explosion_events.len(), 0);
}

#[test]
fn a_ufo_bullet_downs_the_ship() {
    let mut game = playing_game_with_ship();
    game.bullets.push(Bullet {
        pos: Position { x: 200, y: 0 },
        vel: Velocity { x: 0, y: 0 },
        timer: TickTimer::new(1000),
        size: 75,
        from_ufo: true,
    });
    handle_ship_bullet_collisions(&mut game);
    assert!(game.ship.is_none());
    assert_eq!(game.bullets.len(), 0);
    assert_eq!(game.explosion_events.len(), 1);
}

#[test]
fn the_ships_own_bullets_do_not_hurt_it() {
    let mut game = playing_game_with_ship();
    game.bullets.push(Bullet {
        pos: Position { x: 0, y: 0 },
        vel: Velocity { x: 0, y: 0 },
        timer: TickTimer::new(1000),
        size: 75,
        from_ufo: false,
    });
    handle_ship_bullet_collisions(&mut game);
    assert!(game.ship.is_some());
    assert_eq!(game.bullets.len(), 1);
}

#[test]
fn the_teleport_key_moves_the_ship_inside_the_playfield() {
    let mut game = playing_game_with_ship();
    teleport_ship(&mut game, true);
    let p = game.ship.unwrap().pos;
    assert!(-9600 <= p.x && p.x <= 9600);
    assert!(-5400 <= p.y && p.y <= 5400);
}

#[test]
fn the_ufo_appears_on_an_edge_when_its_timer_fires() {
    let mut game = Game::new();
    game.ufo_timer.0.tick(15000);
    assert!(game.ufo_timer.0.just_finished());
    spawn_ufo(&mut game);
    let u = game.ufo.unwrap();
    assert!(u.pos.x == -9600 || u.pos.x == 9600 || u.pos.y == -5400 || u.pos.y == 5400);
    assert_eq!(u.size, 500);
    assert_eq!(u.vel, Velocity { x: 0, y: 0 });
}

#[test]
fn no_second_ufo_appears() {
    let mut game = Game::new();
    game.ufo_timer.0.tick(15000);
    spawn_ufo(&mut game);
    let first = game.ufo.unwrap();
    spawn_ufo(&mut game);
    assert_eq!(game.ufo.unwrap().pos, first.pos);
}

#[test]
fn the_ufo_wanders_within_a_step() {
    let mut game = Game::new();
    game.ufo = Some(UFO {
        pos: Position { x: 0, y: 0 },
        vel: Velocity { x: 0, y: 0 },
        firing_timer: TickTimer::new(500),
        size: 500,
    });
    update_velocity(&mut game);
    let v = game.ufo.unwrap().vel;
    assert!(-10 <= v.x && v.x <= 10);
    assert!(-10 <= v.y && v.y <= 10);
}

#[test]
fn a_ship_bullet_downs_the_ufo_for_ten_points() {
    let mut game = Game::new();
    game.ufo = Some(UFO {
        pos: Position { x: 1000, y: 0 },
        vel: Velocity { x: 0, y: 0 },
        firing_timer: TickTimer::new(500),
        size: 500,
    });
    game.bullets.push(Bullet {
        pos: Position { x: 1200, y: 0 },
        vel: Velocity { x: 0, y: 0 },
        timer: TickTimer::new(1000),
        size: 75,
        from_ufo: false,
    });
    handle_ufo_bullet_collisions(&mut game);
    assert!(game.ufo.is_none());
    assert_eq!(game.bullets.len(), 0);
    assert_eq!(game.score_events.len(), 1);
    assert_eq!(game.score_events[0].0, 10);
    assert_eq!(game.explosion_events.len(), 1);
    assert_eq!(game.explosion_events[0].0, Position { x: 1000, y: 0 });
}

#[test]
fn the_ufos_own_bullets_do_not_hurt_it() {
    let mut game = Game::new();
    game.ufo = Some(UFO {
        pos: Position { x: 1000, y: 0 },
        vel: Velocity { x: 0, y: 0 },
        firing_timer: TickTimer::new(500),
        size: 500,
    });
    game.bullets.push(Bullet {
        pos: Position { x: 1000, y: 0 },
        vel: Velocity { x: 0, y: 0 },
        timer: TickTimer::new(1000),
        size: 75,
        from_ufo: true,
    });
    handle_ufo_bullet_collisions(&mut game);
    assert!(game.ufo.is_some());
    assert_eq!(game.bullets.len(), 1);
}

#[test]
fn the_ufo_fires_straight_at_the_ship() {
    let mut game = playing_game_with_ship();
    let mut s = game.ship.unwrap();
    s.pos = Position { x: 3000, y: 4000 };
    game.ship = Some(s);
    game.ufo = Some(UFO {
        pos: Position { x: 0, y: 0 },
        vel: Velocity { x: 0, y: 0 },
        firing_timer: TickTimer { elapsed: 500, duration: 500, just: false },
        size: 500,
    });
    ufo_fire_bullet(&mut game);
    assert_eq!(game.bullets.len(), 1);
    let b = game.bullets[0];
    assert!(b.from_ufo);
    assert_eq!(b.pos, Position { x: 0, y: 0 });
    // Distance 5000: the aimed velocity is the offset scaled to the bullet
    // speed.
    assert_eq!(b.vel, Velocity { x: 6000, y: 8000 });
    assert_eq!(game.ufo.unwrap().firing_timer.elapsed, 0);
}

#[test]
fn the_ufo_holds_fire_during_its_cooldown() {
    let mut game = playing_game_with_ship();
    game.ufo = Some(UFO {
        pos: Position { x: 0, y: 0 },
        vel: Velocity { x: 0, y: 0 },
        firing_timer: TickTimer::new(500),
        size: 500,
    });
    ufo_fire_bullet(&mut game);
    assert_eq!(game.bullets.len(), 0);
}

#[test]
fn explosion_events_become_rings_that_fade_and_vanish() {
    let mut game = Game::new();
    game.explosion_events.push(ExplosionEvent(Position { x: 40, y: -30 }));
    handle_explosion_event(&mut game);
    assert_eq!(game.explosion_events.len(), 0);
    assert_eq!(game.explosions.len(), 1);
    let e = game.explosions[0];
    assert_eq!(e.pos, Position { x: 40, y: -30 });
    assert_eq!(e.alpha, 1000);
    assert_eq!(e.width, 5000);
    assert_eq!(e.scale, 1000);

    update_explosion(&mut game);
    let e = game.explosions[0];
    assert_eq!(e.alpha, 970);
    assert_eq!(e.width, 4850);
    assert_eq!(e.scale, 1050);

    remove_explosion(&mut game);
    assert_eq!(game.explosions.len(), 1);
    // After enough ticks the ring is fully transparent and removed.
    for _ in 0..40 {
        update_explosion(&mut game);
    }
    assert_eq!(game.explosions[0].alpha, 0);
    remove_explosion(&mut game);
    assert_eq!(game.explosions.len(), 0);
}
