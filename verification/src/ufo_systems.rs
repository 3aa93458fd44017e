//! The UFO: its spawn timer, its appearance at a random edge of the
//! playfield, its drunken wander, its shot cooldown, and the collisions
//! that destroy it.

use vstd::prelude::*;

verus! {

use crate::collision::{circles_collide, spec_collides};
use crate::components::{Bullet, TickTimer, Velocity, UFO};
use crate::events::{ExplosionEvent, ScoreEvent};
use crate::game::Game;
use crate::rng::random_in_range;
use crate::shared_systems::clamp_vel;
use crate::{DT_LIMIT, UFO_FIRING_MS, UFO_SIZE, UFO_WANDER, VEL_LIMIT};

/// Rewind the UFO spawn timer; done when a level starts.
pub fn set_ufo_spawn_timer(game: &mut Game)
    requires
        old(game).wf(),
    ensures
        final(game).wf(),
        final(game).ufo_timer.0 == (TickTimer {
            elapsed: 0,
            duration: old(game).ufo_timer.0.duration,
            just: false,
        }),
        final(game).state == old(game).state,
        final(game).before_boss == old(game).before_boss,
        final(game).world_size == old(game).world_size,
        final(game).score == old(game).score,
        final(game).high_score == old(game).high_score,
        final(game).asteroid_count == old(game).asteroid_count,
        final(game).countdown == old(game).countdown,
        Game::same_entities(*final(game), *old(game)),
        Game::same_events(*final(game), *old(game)),
{
    game.ufo_timer.0.reset();
}

/// Advance the UFO spawn timer by one tick.
pub fn ufo_spawn_timer_update(game: &mut Game, dt: u32)
    requires
        old(game).wf(),
        dt <= DT_LIMIT,
    ensures
        final(game).wf(),
        final(game).ufo_timer.0 == old(game).ufo_timer.0.spec_ticked(dt),
        final(game).state == old(game).state,
        final(game).before_boss == old(game).before_boss,
        final(game).world_size == old(game).world_size,
        final(game).score == old(game).score,
        final(game).high_score == old(game).high_score,
        final(game).asteroid_count == old(game).asteroid_count,
        final(game).countdown == old(game).countdown,
        Game::same_entities(*final(game), *old(game)),
        Game::same_events(*final(game), *old(game)),
{
    game.ufo_timer.0.tick(dt);
}

/// The moment the spawn timer runs out, a UFO appears at rest at a random
/// point on the edge of the playfield — at most one at a time.
pub fn spawn_ufo(game: &mut Game)
    requires
        old(game).wf(),
    ensures
        final(game).wf(),
        !(old(game).ufo_timer.0.just && old(game).ufo is None) ==> *final(game) == *old(game),
        old(game).ufo_timer.0.just && old(game).ufo is None ==> {
            &&& final(game).ufo matches Some(u)
            &&& final(game).world_size.on_edge(final(game).ufo.unwrap().pos)
            &&& final(game).ufo.unwrap().vel == (Velocity { x: 0, y: 0 })
            &&& final(game).ufo.unwrap().size == UFO_SIZE as i64
            &&& final(game).ufo.unwrap().firing_timer == (TickTimer {
                elapsed: 0,
                duration: UFO_FIRING_MS,
                just: false,
            })
            &&& Game::same_resources(*final(game), *old(game))
            &&& Game::same_events(*final(game), *old(game))
            &&& final(game).ship == old(game).ship
            &&& final(game).asteroids@ == old(game).asteroids@
            &&& final(game).bullets@ == old(game).bullets@
            &&& final(game).explosions@ == old(game).explosions@
        },
{
    if !game.ufo_timer.0.just_finished() {
        return;
    }
    if game.ufo.is_some() {
        return;
    }
    let pos = game.world_size.get_random_edge();
    game.ufo = Some(UFO {
        pos,
        vel: Velocity { x: 0, y: 0 },
        firing_timer: TickTimer::new(UFO_FIRING_MS),
        size: UFO_SIZE,
    });
}

/// Nudge the UFO's velocity by a random force, one wander step on each
/// axis, clamped to the velocity limit.
pub fn update_velocity(game: &mut Game)
    requires
        old(game).wf(),
    ensures
        final(game).wf(),
        old(game).ufo is None ==> *final(game) == *old(game),
        old(game).ufo matches Some(u) ==> {
            &&& final(game).ufo matches Some(w)
            &&& final(game).ufo.unwrap().pos == u.pos
            &&& final(game).ufo.unwrap().firing_timer == u.firing_timer
            &&& final(game).ufo.unwrap().size == u.size
            &&& u.vel.x - UFO_WANDER <= final(game).ufo.unwrap().vel.x <= u.vel.x + UFO_WANDER
            &&& u.vel.y - UFO_WANDER <= final(game).ufo.unwrap().vel.y <= u.vel.y + UFO_WANDER
            &&& -VEL_LIMIT <= final(game).ufo.unwrap().vel.x <= VEL_LIMIT
            &&& -VEL_LIMIT <= final(game).ufo.unwrap().vel.y <= VEL_LIMIT
        },
        Game::same_resources(*final(game), *old(game)),
        Game::same_events(*final(game), *old(game)),
        final(game).ship == old(game).ship,
        final(game).asteroids@ == old(game).asteroids@,
        final(game).bullets@ == old(game).bullets@,
        final(game).explosions@ == old(game).explosions@,
{
    let fx: i64 = random_in_range(-UFO_WANDER, UFO_WANDER + 1);
    let fy: i64 = random_in_range(-UFO_WANDER, UFO_WANDER + 1);
    match &mut game.ufo {
        Some(u) => {
            u.vel = Velocity { x: clamp_vel(u.vel.x + fx), y: clamp_vel(u.vel.y + fy) };
        },
        None => {},
    }
}

/// The index of the first ship bullet, at or after `from`, that overlaps
/// the UFO.
pub open spec fn spec_first_ship_bullet_hit(u: UFO, bullets: Seq<Bullet>, from: int) -> Option<
    int,
>
    decreases bullets.len() - from,
{
    if from < 0 || from >= bullets.len() {
        None
    } else if !bullets[from].from_ufo && spec_collides(
        bullets[from].pos,
        bullets[from].size as int,
        u.pos,
        u.size as int,
    ) {
        Some(from)
    } else {
        spec_first_ship_bullet_hit(u, bullets, from + 1)
    }
}

/// Despawn the UFO together with the first ship bullet that overlaps it,
/// leaving an explosion at the UFO's position and ten points.
pub fn handle_ufo_bullet_collisions(game: &mut Game)
    requires
        old(game).wf(),
    ensures
        final(game).wf(),
        (match old(game).ufo {
            Some(u) => {
                match spec_first_ship_bullet_hit(u, old(game).bullets@, 0) {
                    Some(j) => final(game).ufo is None && final(game).bullets@ == old(
                        game,
                    ).bullets@.remove(j) && final(game).explosion_events@ == old(
                        game,
                    ).explosion_events@.push(ExplosionEvent(u.pos)) && final(game).score_events@
                        == old(game).score_events@.push(ScoreEvent(10)),
                    None => *final(game) == *old(game),
                }
            },
            None => *final(game) == *old(game),
        }),
        Game::same_resources(*final(game), *old(game)),
        final(game).ship == old(game).ship,
        final(game).asteroids@ == old(game).asteroids@,
        final(game).explosions@ == old(game).explosions@,
{
    let u: UFO = match &game.ufo {
        Some(u) => *u,
        None => {
            return;
        },
    };
    let hit: Option<usize> = first_ship_bullet_hit(&u, &game.bullets);
    match hit {
        Some(j) => {
            game.bullets.remove(j);
            game.ufo = None;
            game.explosion_events.push(ExplosionEvent(u.pos));
            game.score_events.push(ScoreEvent(10));
        },
        None => {},
    }
}

/// Find the first ship bullet that overlaps the UFO, if any.
fn first_ship_bullet_hit(u: &UFO, bullets: &Vec<Bullet>) -> (r: Option<usize>)
    requires
        u.wf(),
        forall|i: int| 0 <= i < bullets@.len() ==> (#[trigger] bullets@[i]).wf(),
    ensures
        match r {
            Some(j) => j < bullets@.len() && spec_first_ship_bullet_hit(*u, bullets@, 0) == Some(
                j as int,
            ),
            None => spec_first_ship_bullet_hit(*u, bullets@, 0) is None,
        },
{
    let n: usize = bullets.len();
    let mut i: usize = 0;
    while i < n
        invariant
            i <= n,
            n == bullets@.len(),
            u.wf(),
            forall|k: int| 0 <= k < bullets@.len() ==> (#[trigger] bullets@[k]).wf(),
            spec_first_ship_bullet_hit(*u, bullets@, 0) == spec_first_ship_bullet_hit(
                *u,
                bullets@,
                i as int,
            ),
        decreases n - i,
    {
        let b = bullets[i];
        if !b.from_ufo && circles_collide(b.pos, b.size, u.pos, u.size) {
            return Some(i);
        }
        proof {
            assert(spec_first_ship_bullet_hit(*u, bullets@, i as int)
                == spec_first_ship_bullet_hit(*u, bullets@, i + 1));
        }
        i = i + 1;
    }
    None
}

/// Advance the UFO's shot cooldown by one tick.
pub fn update(game: &mut Game, dt: u32)
    requires
        old(game).wf(),
        dt <= DT_LIMIT,
    ensures
        final(game).wf(),
        final(game).ufo == (match old(game).ufo {
            Some(u) => Some(UFO { firing_timer: u.firing_timer.spec_ticked(dt), ..u }),
            None => None::<UFO>,
        }),
        Game::same_resources(*final(game), *old(game)),
        Game::same_events(*final(game), *old(game)),
        final(game).ship == old(game).ship,
        final(game).asteroids@ == old(game).asteroids@,
        final(game).bullets@ == old(game).bullets@,
        final(game).explosions@ == old(game).explosions@,
{
    match &mut game.ufo {
        Some(u) => {
            u.firing_timer.tick(dt);
        },
        None => {},
    }
}

} // verus!
