//! The ship: spawning a life, steering and thrust from held keys, the
//! collisions that end a life, and the panic teleport.
//!
//! Turning the ship's heading into a unit vector takes trigonometry, which
//! is left to the caller: the thrust system receives the facing direction as
//! a pair of milli-unit components.

use vstd::prelude::*;

verus! {

use crate::collision::{circles_collide, spec_collides};
use crate::components::{Asteroid, Bullet, Firing, Position, Ship, Thrust, TickTimer, Velocity};
use crate::events::ExplosionEvent;
use crate::game::Game;
use crate::shared_systems::{clamp_vel, spec_clamp_vel, spec_scaled};
use crate::{
    DT_LIMIT, FIRING_COOLDOWN_MS, ROTATE_LIMIT, ROTATE_RATE, SHIP_SIZE, TAU_MILLIRAD,
    THRUST_ACCEL,
};

/// The ship of a fresh life: at the origin, at rest, facing up, not firing.
pub open spec fn spec_new_ship() -> Ship {
    Ship {
        pos: Position { x: 0, y: 0 },
        vel: Velocity { x: 0, y: 0 },
        angle: 0,
        rotate_speed: 0,
        thrust: Thrust(false),
        firing: Firing(false),
        firing_timer: TickTimer { elapsed: 0, duration: FIRING_COOLDOWN_MS, just: false },
        size: SHIP_SIZE as i64,
    }
}

/// Spawn the ship for a new life, unless one already exists.
pub fn add_player(game: &mut Game)
    requires
        old(game).wf(),
    ensures
        final(game).wf(),
        old(game).ship is Some ==> *final(game) == *old(game),
        old(game).ship is None ==> final(game).ship == Some(spec_new_ship()),
        Game::same_resources(*final(game), *old(game)),
        Game::same_events(*final(game), *old(game)),
        final(game).asteroids@ == old(game).asteroids@,
        final(game).bullets@ == old(game).bullets@,
        final(game).ufo == old(game).ufo,
        final(game).explosions@ == old(game).explosions@,
{
    if game.ship.is_some() {
        return;
    }
    game.ship = Some(Ship {
        pos: Position { x: 0, y: 0 },
        vel: Velocity { x: 0, y: 0 },
        angle: 0,
        rotate_speed: 0,
        thrust: Thrust(false),
        firing: Firing(false),
        firing_timer: TickTimer::new(FIRING_COOLDOWN_MS),
        size: SHIP_SIZE,
    });
}

/// The rotation rate the held arrow keys ask for, clamped to the limit.
pub open spec fn spec_rotate_speed(left: bool, right: bool) -> int {
    if left {
        ROTATE_RATE as int
    } else if right {
        -ROTATE_RATE as int
    } else {
        0
    }
}

/// Set the ship's rotation rate from the held arrow keys: left turns
/// counter-clockwise, right clockwise, neither stops the turn.
pub fn input_rotate_ship(game: &mut Game, left: bool, right: bool)
    requires
        old(game).wf(),
    ensures
        final(game).wf(),
        final(game).ship == (match old(game).ship {
            Some(s) => Some(Ship { rotate_speed: spec_rotate_speed(left, right) as i64, ..s }),
            None => None::<Ship>,
        }),
        Game::same_resources(*final(game), *old(game)),
        Game::same_events(*final(game), *old(game)),
        final(game).asteroids@ == old(game).asteroids@,
        final(game).bullets@ == old(game).bullets@,
        final(game).ufo == old(game).ufo,
        final(game).explosions@ == old(game).explosions@,
{
    match &mut game.ship {
        Some(s) => {
            let rate: i64 = if left {
                ROTATE_RATE
            } else if right {
                -ROTATE_RATE
            } else {
                0
            };
            s.rotate_speed = if rate > ROTATE_LIMIT {
                ROTATE_LIMIT
            } else if rate < -ROTATE_LIMIT {
                -ROTATE_LIMIT
            } else {
                rate
            };
        },
        None => {},
    }
}

/// The heading after one tick of turning, kept within a full turn.
pub open spec fn spec_rotated_angle(angle: int, rotate_speed: int, dt: u32) -> int {
    let a = angle + spec_scaled(rotate_speed, dt as int);
    if a < 0 {
        a + TAU_MILLIRAD
    } else if a >= TAU_MILLIRAD {
        a - TAU_MILLIRAD
    } else {
        a
    }
}

/// Turn the ship by its rotation rate over one tick.
pub fn rotate_ship(game: &mut Game, dt: u32)
    requires
        old(game).wf(),
        dt <= DT_LIMIT,
    ensures
        final(game).wf(),
        final(game).ship == (match old(game).ship {
            Some(s) => Some(Ship {
                angle: spec_rotated_angle(s.angle as int, s.rotate_speed as int, dt) as i64,
                ..s
            }),
            None => None::<Ship>,
        }),
        Game::same_resources(*final(game), *old(game)),
        Game::same_events(*final(game), *old(game)),
        final(game).asteroids@ == old(game).asteroids@,
        final(game).bullets@ == old(game).bullets@,
        final(game).ufo == old(game).ufo,
        final(game).explosions@ == old(game).explosions@,
{
    match &mut game.ship {
        Some(s) => {
            let mag: u64 = if s.rotate_speed >= 0 {
                s.rotate_speed as u64
            } else {
                (-s.rotate_speed) as u64
            };
            proof {
                assert(mag * (dt as u64) <= 5_000_000) by (nonlinear_arith)
                    requires mag <= 5000, dt <= 1000;
            }
            let step: i64 = (mag * (dt as u64) / 1000) as i64;
            let step: i64 = if s.rotate_speed >= 0 {
                step
            } else {
                -step
            };
            let mut a: i64 = s.angle + step;
            if a < 0 {
                a = a + TAU_MILLIRAD;
            } else if a >= TAU_MILLIRAD {
                a = a - TAU_MILLIRAD;
            }
            s.angle = a;
        },
        None => {},
    }
}

/// Set the ship's thrust flag from the held up arrow.
pub fn input_thrust_ship(game: &mut Game, up: bool)
    requires
        old(game).wf(),
    ensures
        final(game).wf(),
        final(game).ship == (match old(game).ship {
            Some(s) => Some(Ship { thrust: Thrust(up), ..s }),
            None => None::<Ship>,
        }),
        Game::same_resources(*final(game), *old(game)),
        Game::same_events(*final(game), *old(game)),
        final(game).asteroids@ == old(game).asteroids@,
        final(game).bullets@ == old(game).bullets@,
        final(game).ufo == old(game).ufo,
        final(game).explosions@ == old(game).explosions@,
{
    match &mut game.ship {
        Some(s) => {
            s.thrust = Thrust(up);
        },
        None => {},
    }
}

/// Set the ship's firing flag from the held space key.
pub fn input_firing(game: &mut Game, space: bool)
    requires
        old(game).wf(),
    ensures
        final(game).wf(),
        final(game).ship == (match old(game).ship {
            Some(s) => Some(Ship { firing: Firing(space), ..s }),
            None => None::<Ship>,
        }),
        Game::same_resources(*final(game), *old(game)),
        Game::same_events(*final(game), *old(game)),
        final(game).asteroids@ == old(game).asteroids@,
        final(game).bullets@ == old(game).bullets@,
        final(game).ufo == old(game).ufo,
        final(game).explosions@ == old(game).explosions@,
{
    match &mut game.ship {
        Some(s) => {
            s.firing = Firing(space);
        },
        None => {},
    }
}

/// One thrusting tick's change to a velocity component, from a facing
/// component in milli-units.
pub open spec fn spec_accel(dir: int) -> int {
    if dir >= 0 {
        dir * THRUST_ACCEL / 1000
    } else {
        -((-dir) * THRUST_ACCEL / 1000)
    }
}

/// While the thrust flag is set, accelerate the ship along its facing
/// direction, handed in as milli-unit components; the velocity is clamped
/// to the limit.
pub fn apply_thrust(game: &mut Game, dir_x: i64, dir_y: i64)
    requires
        old(game).wf(),
        -1000 <= dir_x <= 1000,
        -1000 <= dir_y <= 1000,
    ensures
        final(game).wf(),
        final(game).ship == (match old(game).ship {
            Some(s) => Some(
                if s.thrust.0 {
                    Ship {
                        vel: Velocity {
                            x: spec_clamp_vel(s.vel.x + spec_accel(dir_x as int)) as i64,
                            y: spec_clamp_vel(s.vel.y + spec_accel(dir_y as int)) as i64,
                        },
                        ..s
                    }
                } else {
                    s
                },
            ),
            None => None::<Ship>,
        }),
        Game::same_resources(*final(game), *old(game)),
        Game::same_events(*final(game), *old(game)),
        final(game).asteroids@ == old(game).asteroids@,
        final(game).bullets@ == old(game).bullets@,
        final(game).ufo == old(game).ufo,
        final(game).explosions@ == old(game).explosions@,
{
    match &mut game.ship {
        Some(s) => {
            if s.thrust.0 {
                let ax: i64 = accel_component(dir_x);
                let ay: i64 = accel_component(dir_y);
                s.vel = Velocity {
                    x: clamp_vel(s.vel.x + ax),
                    y: clamp_vel(s.vel.y + ay),
                };
            }
        },
        None => {},
    }
}

/// Compute one thrusting tick's change to a velocity component.
fn accel_component(dir: i64) -> (r: i64)
    requires
        -1000 <= dir <= 1000,
    ensures
        r == spec_accel(dir as int),
        -THRUST_ACCEL <= r <= THRUST_ACCEL,
{
    let mag: u64 = if dir >= 0 {
        dir as u64
    } else {
        (-dir) as u64
    };
    proof {
        assert(mag * (THRUST_ACCEL as u64) <= 10_000) by (nonlinear_arith)
            requires mag <= 1000, THRUST_ACCEL == 10;
    }
    let m: u64 = mag * (THRUST_ACCEL as u64) / 1000;
    if dir >= 0 {
        m as i64
    } else {
        -(m as i64)
    }
}

/// Whether the ship overlaps any asteroid of the list.
pub open spec fn spec_ship_hit(s: Ship, asts: Seq<Asteroid>) -> bool {
    exists|j: int|
        0 <= j < asts.len() && spec_collides(
            s.pos,
            s.size as int,
            (#[trigger] asts[j]).pos,
            asts[j].size as int,
        )
}

/// Despawn the ship when it overlaps an asteroid, leaving an explosion at
/// the ship's position. The asteroid survives the impact.
pub fn handle_ship_collisions(game: &mut Game)
    requires
        old(game).wf(),
    ensures
        final(game).wf(),
        (match old(game).ship {
            Some(s) => {
                if spec_ship_hit(s, old(game).asteroids@) {
                    final(game).ship is None && final(game).explosion_events@ == old(
                        game,
                    ).explosion_events@.push(ExplosionEvent(s.pos))
                } else {
                    *final(game) == *old(game)
                }
            },
            None => *final(game) == *old(game),
        }),
        Game::same_resources(*final(game), *old(game)),
        final(game).asteroids@ == old(game).asteroids@,
        final(game).bullets@ == old(game).bullets@,
        final(game).ufo == old(game).ufo,
        final(game).explosions@ == old(game).explosions@,
        final(game).score_events@ == old(game).score_events@,
{
    let s: Ship = match &game.ship {
        Some(s) => *s,
        None => {
            return;
        },
    };
    if ship_overlaps_asteroid(&s, &game.asteroids) {
        game.ship = None;
        game.explosion_events.push(ExplosionEvent(s.pos));
    }
}

/// Check the ship against every asteroid of the list.
fn ship_overlaps_asteroid(s: &Ship, asts: &Vec<Asteroid>) -> (r: bool)
    requires
        s.wf(),
        forall|i: int| 0 <= i < asts@.len() ==> (#[trigger] asts@[i]).wf(),
    ensures
        r == spec_ship_hit(*s, asts@),
{
    let n: usize = asts.len();
    let mut i: usize = 0;
    while i < n
        invariant
            i <= n,
            n == asts@.len(),
            s.wf(),
            forall|k: int| 0 <= k < asts@.len() ==> (#[trigger] asts@[k]).wf(),
            forall|k: int|
                0 <= k < i ==> !spec_collides(
                    s.pos,
                    s.size as int,
                    (#[trigger] asts@[k]).pos,
                    asts@[k].size as int,
                ),
        decreases n - i,
    {
        let a = asts[i];
        if circles_collide(s.pos, s.size, a.pos, a.size) {
            return true;
        }
        i = i + 1;
    }
    false
}

/// On the teleport key, move the ship to a random interior point.
pub fn teleport_ship(game: &mut Game, enter_pressed: bool)
    requires
        old(game).wf(),
    ensures
        final(game).wf(),
        !enter_pressed ==> *final(game) == *old(game),
        enter_pressed ==> final(game).ship == (match old(game).ship {
            Some(s) => Some(Ship { pos: final(game).ship.unwrap().pos, ..s }),
            None => None::<Ship>,
        }),
        enter_pressed && old(game).ship is Some ==> final(game).world_size.contains(
            final(game).ship.unwrap().pos,
        ),
        Game::same_resources(*final(game), *old(game)),
        Game::same_events(*final(game), *old(game)),
        final(game).asteroids@ == old(game).asteroids@,
        final(game).bullets@ == old(game).bullets@,
        final(game).ufo == old(game).ufo,
        final(game).explosions@ == old(game).explosions@,
{
    if !enter_pressed {
        return;
    }
    let p: Position = game.world_size.get_random_coords();
    match &mut game.ship {
        Some(s) => {
            s.pos = p;
        },
        None => {},
    }
}

/// The index of the first UFO bullet, at or after `from`, that overlaps the
/// ship.
pub open spec fn spec_first_ufo_bullet_hit(s: Ship, bullets: Seq<Bullet>, from: int) -> Option<
    int,
>
    decreases bullets.len() - from,
{
    if from < 0 || from >= bullets.len() {
        None
    } else if bullets[from].from_ufo && spec_collides(
        bullets[from].pos,
        bullets[from].size as int,
        s.pos,
        s.size as int,
    ) {
        Some(from)
    } else {
        spec_first_ufo_bullet_hit(s, bullets, from + 1)
    }
}

/// Despawn the ship together with the first UFO bullet that overlaps it,
/// leaving an explosion at the ship's position.
pub fn handle_ship_bullet_collisions(game: &mut Game)
    requires
        old(game).wf(),
    ensures
        final(game).wf(),
        (match old(game).ship {
            Some(s) => {
                match spec_first_ufo_bullet_hit(s, old(game).bullets@, 0) {
                    Some(j) => final(game).ship is None && final(game).bullets@ == old(
                        game,
                    ).bullets@.remove(j) && final(game).explosion_events@ == old(
                        game,
                    ).explosion_events@.push(ExplosionEvent(s.pos)),
                    None => *final(game) == *old(game),
                }
            },
            None => *final(game) == *old(game),
        }),
        Game::same_resources(*final(game), *old(game)),
        final(game).asteroids@ == old(game).asteroids@,
        final(game).ufo == old(game).ufo,
        final(game).explosions@ == old(game).explosions@,
        final(game).score_events@ == old(game).score_events@,
{
    let s: Ship = match &game.ship {
        Some(s) => *s,
        None => {
            return;
        },
    };
    let hit: Option<usize> = first_ufo_bullet_hit(&s, &game.bullets);
    match hit {
        Some(j) => {
            game.bullets.remove(j);
            game.ship = None;
            game.explosion_events.push(ExplosionEvent(s.pos));
        },
        None => {},
    }
}

/// Find the first UFO bullet that overlaps the ship, if any.
fn first_ufo_bullet_hit(s: &Ship, bullets: &Vec<Bullet>) -> (r: Option<usize>)
    requires
        s.wf(),
        forall|i: int| 0 <= i < bullets@.len() ==> (#[trigger] bullets@[i]).wf(),
    ensures
        match r {
            Some(j) => j < bullets@.len() && spec_first_ufo_bullet_hit(*s, bullets@, 0) == Some(
                j as int,
            ),
            None => spec_first_ufo_bullet_hit(*s, bullets@, 0) is None,
        },
{
    let n: usize = bullets.len();
    let mut i: usize = 0;
    while i < n
        invariant
            i <= n,
            n == bullets@.len(),
            s.wf(),
            forall|k: int| 0 <= k < bullets@.len() ==> (#[trigger] bullets@[k]).wf(),
            spec_first_ufo_bullet_hit(*s, bullets@, 0) == spec_first_ufo_bullet_hit(
                *s,
                bullets@,
                i as int,
            ),
        decreases n - i,
    {
        let b = bullets[i];
        if b.from_ufo && circles_collide(b.pos, b.size, s.pos, s.size) {
            return Some(i);
        }
        proof {
            assert(spec_first_ufo_bullet_hit(*s, bullets@, i as int) == spec_first_ufo_bullet_hit(
                *s,
                bullets@,
                i + 1,
            ));
        }
        i = i + 1;
    }
    None
}

} // verus!
