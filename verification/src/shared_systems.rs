//! Systems shared by several phases: the motion integrator, wraparound at the
//! world bounds, the score ledger, the countdown, and the phase transition
//! systems.

use vstd::prelude::*;

verus! {

use crate::components::{Asteroid, Bullet, Position, Ship, Velocity};
use crate::events::ScoreEvent;
use crate::game::Game;
use crate::resources::{HighScore, Score};
use crate::states::{spec_phase_step, GameState, PhaseTrigger};
use crate::{DT_LIMIT, POS_BOUND, VEL_LIMIT};

/// A velocity component scaled by a tick length in milliseconds, rounded
/// toward zero.
pub open spec fn spec_scaled(v: int, dt: int) -> int {
    if v >= 0 {
        v * dt / 1000
    } else {
        -((-v) * dt / 1000)
    }
}

/// A coordinate clamped to the loose world bound. Wraparound keeps every
/// live entity far inside the bound, so the clamp never moves a reachable
/// position; it only keeps the integrator total.
pub open spec fn spec_clamp_pos(x: int) -> int {
    if x > POS_BOUND {
        POS_BOUND as int
    } else if x < -POS_BOUND {
        -POS_BOUND as int
    } else {
        x
    }
}

/// A velocity component clamped to the velocity limit.
pub open spec fn spec_clamp_vel(x: int) -> int {
    if x > VEL_LIMIT {
        VEL_LIMIT as int
    } else if x < -VEL_LIMIT {
        -VEL_LIMIT as int
    } else {
        x
    }
}

/// Clamp a velocity component to the velocity limit.
pub fn clamp_vel(x: i64) -> (r: i64)
    requires
        -0x7000_0000_0000_0000 <= x <= 0x7000_0000_0000_0000,
    ensures
        r == spec_clamp_vel(x as int),
        -VEL_LIMIT <= r <= VEL_LIMIT,
{
    if x > VEL_LIMIT {
        VEL_LIMIT
    } else if x < -VEL_LIMIT {
        -VEL_LIMIT
    } else {
        x
    }
}

/// One Euler step of the motion integrator.
pub open spec fn spec_integrate(p: Position, v: Velocity, dt: u32) -> Position {
    Position {
        x: spec_clamp_pos(p.x + spec_scaled(v.x as int, dt as int)) as i64,
        y: spec_clamp_pos(p.y + spec_scaled(v.y as int, dt as int)) as i64,
    }
}

/// Scale one velocity component by the tick length.
fn scaled(v: i64, dt: u32) -> (r: i64)
    requires
        -VEL_LIMIT <= v <= VEL_LIMIT,
        dt <= DT_LIMIT,
    ensures
        r == spec_scaled(v as int, dt as int),
        -VEL_LIMIT <= r <= VEL_LIMIT,
{
    let mag: u64 = if v >= 0 {
        v as u64
    } else {
        (-v) as u64
    };
    let ticks: u64 = dt as u64;
    proof {
        assert(mag * ticks <= 100_000_000 && mag * ticks >= mag * 0) by (nonlinear_arith)
            requires mag <= 100_000, ticks <= 1000;
        assert(mag * ticks / 1000 <= 100_000) by (nonlinear_arith)
            requires mag * ticks <= 100_000_000;
    }
    let m: u64 = mag * ticks / 1000;
    if v >= 0 {
        m as i64
    } else {
        -(m as i64)
    }
}

/// Advance a position by its velocity over one tick.
fn integrate(p: Position, v: Velocity, dt: u32) -> (r: Position)
    requires
        p.wf(),
        v.wf(),
        dt <= DT_LIMIT,
    ensures
        r == spec_integrate(p, v, dt),
        r.wf(),
{
    let dx: i64 = scaled(v.x, dt);
    let dy: i64 = scaled(v.y, dt);
    let x: i64 = p.x + dx;
    let y: i64 = p.y + dy;
    let x: i64 = if x > POS_BOUND {
        POS_BOUND
    } else if x < -POS_BOUND {
        -POS_BOUND
    } else {
        x
    };
    let y: i64 = if y > POS_BOUND {
        POS_BOUND
    } else if y < -POS_BOUND {
        -POS_BOUND
    } else {
        y
    };
    Position { x, y }
}

/// Integrate every asteroid of a list.
fn move_asteroids(v: &mut Vec<Asteroid>, dt: u32)
    requires
        forall|i: int| 0 <= i < old(v)@.len() ==> old(v)@[i].wf(),
        dt <= DT_LIMIT,
    ensures
        final(v)@.len() == old(v)@.len(),
        forall|i: int|
            0 <= i < old(v)@.len() ==> final(v)@[i] == (Asteroid {
                pos: spec_integrate(old(v)@[i].pos, old(v)@[i].vel, dt),
                ..old(v)@[i]
            }),
        forall|i: int| 0 <= i < final(v)@.len() ==> final(v)@[i].wf(),
{
    let ghost v0 = v@;
    let n: usize = v.len();
    for i in 0..n
        invariant
            n == v@.len() == v0.len(),
            dt <= DT_LIMIT,
            forall|j: int| 0 <= j < v0.len() ==> v0[j].wf(),
            forall|j: int|
                0 <= j < i ==> v@[j] == (Asteroid {
                    pos: spec_integrate(v0[j].pos, v0[j].vel, dt),
                    ..v0[j]
                }),
            forall|j: int| i <= j < v0.len() ==> v@[j] == v0[j],
            forall|j: int| 0 <= j < v@.len() ==> v@[j].wf(),
    {
        let a = v[i];
        let moved = Asteroid { pos: integrate(a.pos, a.vel, dt), ..a };
        v.set(i, moved);
    }
}

/// Integrate every bullet of a list.
fn move_bullets(v: &mut Vec<Bullet>, dt: u32)
    requires
        forall|i: int| 0 <= i < old(v)@.len() ==> old(v)@[i].wf(),
        dt <= DT_LIMIT,
    ensures
        final(v)@.len() == old(v)@.len(),
        forall|i: int|
            0 <= i < old(v)@.len() ==> final(v)@[i] == (Bullet {
                pos: spec_integrate(old(v)@[i].pos, old(v)@[i].vel, dt),
                ..old(v)@[i]
            }),
        forall|i: int| 0 <= i < final(v)@.len() ==> final(v)@[i].wf(),
{
    let ghost v0 = v@;
    let n: usize = v.len();
    for i in 0..n
        invariant
            n == v@.len() == v0.len(),
            dt <= DT_LIMIT,
            forall|j: int| 0 <= j < v0.len() ==> v0[j].wf(),
            forall|j: int|
                0 <= j < i ==> v@[j] == (Bullet {
                    pos: spec_integrate(v0[j].pos, v0[j].vel, dt),
                    ..v0[j]
                }),
            forall|j: int| i <= j < v0.len() ==> v@[j] == v0[j],
            forall|j: int| 0 <= j < v@.len() ==> v@[j].wf(),
    {
        let b = v[i];
        let moved = Bullet { pos: integrate(b.pos, b.vel, dt), ..b };
        v.set(i, moved);
    }
}

/// Advance every moving entity by its velocity over one tick of `dt`
/// milliseconds. Explosion rings do not move.
pub fn apply_velocity(game: &mut Game, dt: u32)
    requires
        old(game).wf(),
        dt <= DT_LIMIT,
    ensures
        final(game).wf(),
        Game::same_resources(*final(game), *old(game)),
        Game::same_events(*final(game), *old(game)),
        final(game).explosions@ == old(game).explosions@,
        final(game).ship == (match old(game).ship {
            Some(s) => Some(Ship { pos: spec_integrate(s.pos, s.vel, dt), ..s }),
            None => None::<Ship>,
        }),
        final(game).ufo == (match old(game).ufo {
            Some(u) => Some(crate::components::UFO {
                pos: spec_integrate(u.pos, u.vel, dt),
                ..u
            }),
            None => None::<crate::components::UFO>,
        }),
        final(game).asteroids@.len() == old(game).asteroids@.len(),
        forall|i: int|
            0 <= i < old(game).asteroids@.len() ==> final(game).asteroids@[i] == (Asteroid {
                pos: spec_integrate(old(game).asteroids@[i].pos, old(game).asteroids@[i].vel, dt),
                ..old(game).asteroids@[i]
            }),
        final(game).bullets@.len() == old(game).bullets@.len(),
        forall|i: int|
            0 <= i < old(game).bullets@.len() ==> final(game).bullets@[i] == (Bullet {
                pos: spec_integrate(old(game).bullets@[i].pos, old(game).bullets@[i].vel, dt),
                ..old(game).bullets@[i]
            }),
{
    match &mut game.ship {
        Some(s) => {
            s.pos = integrate(s.pos, s.vel, dt);
        },
        None => {},
    }
    match &mut game.ufo {
        Some(u) => {
            u.pos = integrate(u.pos, u.vel, dt);
        },
        None => {},
    }
    move_asteroids(&mut game.asteroids, dt);
    move_bullets(&mut game.bullets, dt);
}

/// A coordinate teleported to the opposite edge once it passes half the
/// world extent on its axis; a position inside the bounds is untouched.
pub open spec fn spec_wrap(x: int, half: int) -> int {
    if x > half {
        -half
    } else if x < -half {
        half
    } else {
        x
    }
}

/// A position with both coordinates wrapped.
pub open spec fn spec_wrap_pos(p: Position, hw: int, hh: int) -> Position {
    Position { x: spec_wrap(p.x as int, hw) as i64, y: spec_wrap(p.y as int, hh) as i64 }
}

/// Wrap one coordinate at half the world extent.
fn wrap_coord(x: i64, half: i64) -> (r: i64)
    requires
        0 <= half <= POS_BOUND,
        -POS_BOUND <= x <= POS_BOUND,
    ensures
        r == spec_wrap(x as int, half as int),
        -half <= r <= half,
{
    if x > half {
        -half
    } else if x < -half {
        half
    } else {
        x
    }
}

/// Wrap one position at the playfield bounds.
fn wrap_position(p: Position, hw: i64, hh: i64) -> (r: Position)
    requires
        p.wf(),
        0 <= hw <= POS_BOUND,
        0 <= hh <= POS_BOUND,
    ensures
        r == spec_wrap_pos(p, hw as int, hh as int),
        -hw <= r.x <= hw,
        -hh <= r.y <= hh,
{
    Position { x: wrap_coord(p.x, hw), y: wrap_coord(p.y, hh) }
}

/// Teleport every entity that drifted past the world bounds to the opposite
/// edge. Afterwards every entity lies on the playfield.
pub fn wraparound_entities(game: &mut Game)
    requires
        old(game).wf(),
    ensures
        final(game).wf(),
        final(game).all_contained(),
        Game::same_resources(*final(game), *old(game)),
        Game::same_events(*final(game), *old(game)),
        final(game).ship == (match old(game).ship {
            Some(s) => Some(Ship {
                pos: spec_wrap_pos(
                    s.pos,
                    old(game).world_size.half_width(),
                    old(game).world_size.half_height(),
                ),
                ..s
            }),
            None => None::<Ship>,
        }),
        final(game).ufo == (match old(game).ufo {
            Some(u) => Some(crate::components::UFO {
                pos: spec_wrap_pos(
                    u.pos,
                    old(game).world_size.half_width(),
                    old(game).world_size.half_height(),
                ),
                ..u
            }),
            None => None::<crate::components::UFO>,
        }),
        final(game).asteroids@.len() == old(game).asteroids@.len(),
        forall|i: int|
            0 <= i < old(game).asteroids@.len() ==> final(game).asteroids@[i] == (Asteroid {
                pos: spec_wrap_pos(
                    old(game).asteroids@[i].pos,
                    old(game).world_size.half_width(),
                    old(game).world_size.half_height(),
                ),
                ..old(game).asteroids@[i]
            }),
        final(game).bullets@.len() == old(game).bullets@.len(),
        forall|i: int|
            0 <= i < old(game).bullets@.len() ==> final(game).bullets@[i] == (Bullet {
                pos: spec_wrap_pos(
                    old(game).bullets@[i].pos,
                    old(game).world_size.half_width(),
                    old(game).world_size.half_height(),
                ),
                ..old(game).bullets@[i]
            }),
        final(game).explosions@.len() == old(game).explosions@.len(),
        forall|i: int|
            0 <= i < old(game).explosions@.len() ==> final(game).explosions@[i]
                == (crate::components::Explosion {
                pos: spec_wrap_pos(
                    old(game).explosions@[i].pos,
                    old(game).world_size.half_width(),
                    old(game).world_size.half_height(),
                ),
                ..old(game).explosions@[i]
            }),
{
    let hw: i64 = game.world_size.half_w();
    let hh: i64 = game.world_size.half_h();
    match &mut game.ship {
        Some(s) => {
            s.pos = wrap_position(s.pos, hw, hh);
        },
        None => {},
    }
    match &mut game.ufo {
        Some(u) => {
            u.pos = wrap_position(u.pos, hw, hh);
        },
        None => {},
    }
    wrap_asteroids(&mut game.asteroids, hw, hh);
    wrap_bullets(&mut game.bullets, hw, hh);
    wrap_explosions(&mut game.explosions, hw, hh);
}

/// Wrap every asteroid of a list at the playfield bounds.
fn wrap_asteroids(v: &mut Vec<Asteroid>, hw: i64, hh: i64)
    requires
        forall|i: int| 0 <= i < old(v)@.len() ==> old(v)@[i].wf(),
        1 <= hw <= 100_000,
        1 <= hh <= 100_000,
    ensures
        final(v)@.len() == old(v)@.len(),
        forall|i: int|
            0 <= i < old(v)@.len() ==> final(v)@[i] == (Asteroid {
                pos: spec_wrap_pos(old(v)@[i].pos, hw as int, hh as int),
                ..old(v)@[i]
            }),
        forall|i: int| 0 <= i < final(v)@.len() ==> final(v)@[i].wf(),
        forall|i: int|
            0 <= i < final(v)@.len() ==> -hw <= (#[trigger] final(v)@[i]).pos.x <= hw && -hh
                <= final(v)@[i].pos.y <= hh,
{
    let ghost v0 = v@;
    let n: usize = v.len();
    for i in 0..n
        invariant
            n == v@.len() == v0.len(),
            1 <= hw <= 100_000,
            1 <= hh <= 100_000,
            forall|j: int| 0 <= j < v0.len() ==> v0[j].wf(),
            forall|j: int|
                0 <= j < i ==> v@[j] == (Asteroid {
                    pos: spec_wrap_pos(v0[j].pos, hw as int, hh as int),
                    ..v0[j]
                }),
            forall|j: int|
                0 <= j < i ==> -hw <= (#[trigger] v@[j]).pos.x <= hw && -hh <= v@[j].pos.y
                    <= hh,
            forall|j: int| i <= j < v0.len() ==> v@[j] == v0[j],
            forall|j: int| 0 <= j < v@.len() ==> v@[j].wf(),
    {
        let a = v[i];
        v.set(i, Asteroid { pos: wrap_position(a.pos, hw, hh), ..a });
    }
}

/// Wrap every bullet of a list at the playfield bounds.
fn wrap_bullets(v: &mut Vec<Bullet>, hw: i64, hh: i64)
    requires
        forall|i: int| 0 <= i < old(v)@.len() ==> old(v)@[i].wf(),
        1 <= hw <= 100_000,
        1 <= hh <= 100_000,
    ensures
        final(v)@.len() == old(v)@.len(),
        forall|i: int|
            0 <= i < old(v)@.len() ==> final(v)@[i] == (Bullet {
                pos: spec_wrap_pos(old(v)@[i].pos, hw as int, hh as int),
                ..old(v)@[i]
            }),
        forall|i: int| 0 <= i < final(v)@.len() ==> final(v)@[i].wf(),
        forall|i: int|
            0 <= i < final(v)@.len() ==> -hw <= (#[trigger] final(v)@[i]).pos.x <= hw && -hh
                <= final(v)@[i].pos.y <= hh,
{
    let ghost v0 = v@;
    let n: usize = v.len();
    for i in 0..n
        invariant
            n == v@.len() == v0.len(),
            1 <= hw <= 100_000,
            1 <= hh <= 100_000,
            forall|j: int| 0 <= j < v0.len() ==> v0[j].wf(),
            forall|j: int|
                0 <= j < i ==> v@[j] == (Bullet {
                    pos: spec_wrap_pos(v0[j].pos, hw as int, hh as int),
                    ..v0[j]
                }),
            forall|j: int|
                0 <= j < i ==> -hw <= (#[trigger] v@[j]).pos.x <= hw && -hh <= v@[j].pos.y
                    <= hh,
            forall|j: int| i <= j < v0.len() ==> v@[j] == v0[j],
            forall|j: int| 0 <= j < v@.len() ==> v@[j].wf(),
    {
        let b = v[i];
        v.set(i, Bullet { pos: wrap_position(b.pos, hw, hh), ..b });
    }
}

/// Wrap every explosion ring of a list at the playfield bounds.
fn wrap_explosions(v: &mut Vec<crate::components::Explosion>, hw: i64, hh: i64)
    requires
        forall|i: int| 0 <= i < old(v)@.len() ==> old(v)@[i].wf(),
        1 <= hw <= 100_000,
        1 <= hh <= 100_000,
    ensures
        final(v)@.len() == old(v)@.len(),
        forall|i: int|
            0 <= i < old(v)@.len() ==> final(v)@[i] == (crate::components::Explosion {
                pos: spec_wrap_pos(old(v)@[i].pos, hw as int, hh as int),
                ..old(v)@[i]
            }),
        forall|i: int| 0 <= i < final(v)@.len() ==> final(v)@[i].wf(),
        forall|i: int|
            0 <= i < final(v)@.len() ==> -hw <= (#[trigger] final(v)@[i]).pos.x <= hw && -hh
                <= final(v)@[i].pos.y <= hh,
{
    let ghost v0 = v@;
    let n: usize = v.len();
    for i in 0..n
        invariant
            n == v@.len() == v0.len(),
            1 <= hw <= 100_000,
            1 <= hh <= 100_000,
            forall|j: int| 0 <= j < v0.len() ==> v0[j].wf(),
            forall|j: int|
                0 <= j < i ==> v@[j] == (crate::components::Explosion {
                    pos: spec_wrap_pos(v0[j].pos, hw as int, hh as int),
                    ..v0[j]
                }),
            forall|j: int|
                0 <= j < i ==> -hw <= (#[trigger] v@[j]).pos.x <= hw && -hh <= v@[j].pos.y
                    <= hh,
            forall|j: int| i <= j < v0.len() ==> v@[j] == v0[j],
            forall|j: int| 0 <= j < v@.len() ==> v@[j].wf(),
    {
        let e = v[i];
        v.set(i, crate::components::Explosion { pos: wrap_position(e.pos, hw, hh), ..e });
    }
}

/// Rewind the get-ready countdown.
pub fn reset_countdown(game: &mut Game)
    requires
        old(game).wf(),
    ensures
        final(game).wf(),
        final(game).countdown.0 == (crate::components::TickTimer {
            elapsed: 0,
            duration: old(game).countdown.0.duration,
            just: false,
        }),
        final(game).state == old(game).state,
        final(game).before_boss == old(game).before_boss,
        final(game).world_size == old(game).world_size,
        final(game).score == old(game).score,
        final(game).high_score == old(game).high_score,
        final(game).asteroid_count == old(game).asteroid_count,
        final(game).ufo_timer == old(game).ufo_timer,
        Game::same_entities(*final(game), *old(game)),
        Game::same_events(*final(game), *old(game)),
{
    game.countdown.0.reset();
}

/// Advance the get-ready countdown by one tick.
pub fn tick_countdown(game: &mut Game, dt: u32)
    requires
        old(game).wf(),
        dt <= DT_LIMIT,
    ensures
        final(game).wf(),
        final(game).countdown.0 == old(game).countdown.0.spec_ticked(dt),
        final(game).state == old(game).state,
        final(game).before_boss == old(game).before_boss,
        final(game).world_size == old(game).world_size,
        final(game).score == old(game).score,
        final(game).high_score == old(game).high_score,
        final(game).asteroid_count == old(game).asteroid_count,
        final(game).ufo_timer == old(game).ufo_timer,
        Game::same_entities(*final(game), *old(game)),
        Game::same_events(*final(game), *old(game)),
{
    game.countdown.0.tick(dt);
}

/// On the title and game-over screens, a press of space asks for the next
/// wave. Returns the requested phase, which the caller applies.
pub fn transition_states(game: &Game, space_pressed: bool) -> (next: Option<GameState>)
    requires
        game.state == GameState::Starting || game.state == GameState::GameOver
            || !space_pressed,
    ensures
        next == (if space_pressed {
            Some(spec_phase_step(game.state, game.before_boss.0, PhaseTrigger::SpacePressed).0)
        } else {
            None::<GameState>
        }),
        next == (if space_pressed {
            Some(GameState::GetReady)
        } else {
            None::<GameState>
        }),
{
    if space_pressed {
        Some(crate::states::phase_step(game.state, game.before_boss.0,
            PhaseTrigger::SpacePressed).0)
    } else {
        None
    }
}

/// Once the countdown has run out during GetReady, ask for Playing.
pub fn transition_from_get_ready_to_playing(game: &Game) -> (next: Option<GameState>)
    requires
        game.state == GameState::GetReady || !game.countdown.0.spec_finished(),
    ensures
        next == (if game.countdown.0.spec_finished() {
            Some(GameState::Playing)
        } else {
            None::<GameState>
        }),
        next == (if game.countdown.0.spec_finished() {
            Some(spec_phase_step(
                game.state,
                game.before_boss.0,
                PhaseTrigger::CountdownFinished,
            ).0)
        } else {
            None::<GameState>
        }),
{
    if !game.countdown.0.finished() {
        return None;
    }
    Some(crate::states::phase_step(game.state, game.before_boss.0,
        PhaseTrigger::CountdownFinished).0)
}

/// Once no ship remains during play, ask for GameOver.
pub fn transition_from_playing_to_game_over(game: &Game) -> (next: Option<GameState>)
    requires
        game.state == GameState::Playing,
    ensures
        next == (if game.ship is None {
            Some(GameState::GameOver)
        } else {
            None::<GameState>
        }),
        next == (if game.ship is None {
            Some(spec_phase_step(game.state, game.before_boss.0, PhaseTrigger::ShipGone).0)
        } else {
            None::<GameState>
        }),
{
    if game.ship.is_some() {
        return None;
    }
    Some(crate::states::phase_step(game.state, game.before_boss.0, PhaseTrigger::ShipGone).0)
}

/// The boss key swaps the phase with the remembered one, except during
/// GetReady. Returns the requested phase, which the caller applies; entering
/// Boss also remembers the phase it interrupted.
pub fn to_from_boss(game: &mut Game, boss_pressed: bool) -> (next: Option<GameState>)
    requires
        old(game).wf(),
    ensures
        final(game).wf(),
        !boss_pressed ==> next is None && *final(game) == *old(game),
        boss_pressed ==> {
            &&& final(game).before_boss.0 == spec_phase_step(
                old(game).state,
                old(game).before_boss.0,
                PhaseTrigger::BossToggle,
            ).1
            &&& next == (if spec_phase_step(
                old(game).state,
                old(game).before_boss.0,
                PhaseTrigger::BossToggle,
            ).0 != old(game).state {
                Some(spec_phase_step(
                    old(game).state,
                    old(game).before_boss.0,
                    PhaseTrigger::BossToggle,
                ).0)
            } else {
                None::<GameState>
            })
        },
        final(game).state == old(game).state,
        final(game).world_size == old(game).world_size,
        final(game).score == old(game).score,
        final(game).high_score == old(game).high_score,
        final(game).asteroid_count == old(game).asteroid_count,
        final(game).countdown == old(game).countdown,
        final(game).ufo_timer == old(game).ufo_timer,
        Game::same_entities(*final(game), *old(game)),
        Game::same_events(*final(game), *old(game)),
{
    if !boss_pressed {
        return None;
    }
    let stepped = crate::states::phase_step(game.state, game.before_boss.0,
        PhaseTrigger::BossToggle);
    game.before_boss.0 = stepped.1;
    if !matches!(stepped.0, GameState::Boss) && !matches!(game.state, GameState::Boss) {
        // GetReady ignores the toggle; the step returns the phase unchanged.
        return None;
    }
    if matches!(stepped.0, GameState::GetReady) && matches!(game.state, GameState::GetReady) {
        return None;
    }
    Some(stepped.0)
}

/// The sum of the values of a queue of score events.
pub open spec fn spec_score_sum(events: Seq<ScoreEvent>) -> int
    decreases events.len(),
{
    if events.len() == 0 {
        0
    } else {
        spec_score_sum(events.drop_last()) + events.last().0
    }
}

/// A value squeezed into a 16-bit counter: additions saturate at the top.
pub open spec fn spec_sat16(x: int) -> int {
    if x > 65535 {
        65535
    } else {
        x
    }
}

/// Drain the score events of this tick: each adds its value to the score
/// (saturating at the counter's top), and the high score follows the score
/// whenever it is passed. The high score never decreases.
pub fn update_scores(game: &mut Game)
    requires
        old(game).wf(),
    ensures
        final(game).wf(),
        final(game).score.0 == spec_sat16(
            old(game).score.0 + spec_score_sum(old(game).score_events@),
        ),
        final(game).high_score.0 == (if old(game).high_score.0 >= final(game).score.0 {
            old(game).high_score.0 as int
        } else {
            final(game).score.0 as int
        }),
        final(game).high_score.0 >= old(game).high_score.0,
        final(game).score.0 >= old(game).score.0,
        final(game).score_events@.len() == 0,
        final(game).state == old(game).state,
        final(game).before_boss == old(game).before_boss,
        final(game).world_size == old(game).world_size,
        final(game).asteroid_count == old(game).asteroid_count,
        final(game).countdown == old(game).countdown,
        final(game).ufo_timer == old(game).ufo_timer,
        Game::same_entities(*final(game), *old(game)),
        final(game).explosion_events@ == old(game).explosion_events@,
{
    drain_score_events(&mut game.score, &mut game.high_score, &game.score_events);
    game.score_events.clear();
}

/// Fold a queue of score events into the two counters.
fn drain_score_events(score: &mut Score, high: &mut HighScore, events: &Vec<ScoreEvent>)
    requires
        old(high).0 >= old(score).0,
    ensures
        final(score).0 == spec_sat16(old(score).0 + spec_score_sum(events@)),
        final(high).0 == (if old(high).0 >= final(score).0 {
            old(high).0 as int
        } else {
            final(score).0 as int
        }),
        final(high).0 >= old(high).0,
        final(high).0 >= final(score).0,
        final(score).0 >= old(score).0,
{
    let ghost ev0 = events@;
    let ghost score0 = score.0;
    let ghost high0 = high.0;
    let n: usize = events.len();
    for i in 0..n
        invariant
            n == ev0.len(),
            events@ == ev0,
            score.0 == spec_sat16(score0 + spec_score_sum(ev0.subrange(0, i as int))),
            score.0 >= score0,
            high.0 == (if high0 >= score.0 {
                high0 as int
            } else {
                score.0 as int
            }),
            high0 >= score0,
    {
        let value: u16 = events[i].0;
        let widened: u32 = score.0 as u32 + value as u32;
        score.0 = if widened > 65535 {
            65535
        } else {
            widened as u16
        };
        if score.0 > high.0 {
            high.0 = score.0;
        }
        proof {
            assert(ev0.subrange(0, i + 1 as int).drop_last() =~= ev0.subrange(0, i as int));
            assert(ev0.subrange(0, i + 1 as int).last() == ev0[i as int]);
        }
    }
    proof {
        assert(ev0.subrange(0, ev0.len() as int) =~= ev0);
    }
}

/// Render the high score as the text that is persisted for the next run.
/// Writing the file itself happens outside this crate.
pub fn save_high_score(game: &Game) -> (data: Vec<u8>)
    ensures
        data@ == crate::storage::spec_decimal(game.high_score.0 as int),
{
    crate::storage::high_score_bytes(game.high_score.0)
}

/// Set the high score from the persisted text, read at startup before any
/// point is scored; unreadable text counts as zero. Reading the file itself
/// happens outside this crate.
pub fn load_high_score(game: &mut Game, data: &Vec<u8>)
    requires
        old(game).wf(),
        old(game).score.0 == 0,
    ensures
        final(game).wf(),
        final(game).high_score.0 == crate::storage::spec_parse_high_score(data@),
        final(game).state == old(game).state,
        final(game).before_boss == old(game).before_boss,
        final(game).world_size == old(game).world_size,
        final(game).score == old(game).score,
        final(game).asteroid_count == old(game).asteroid_count,
        final(game).countdown == old(game).countdown,
        final(game).ufo_timer == old(game).ufo_timer,
        Game::same_entities(*final(game), *old(game)),
        Game::same_events(*final(game), *old(game)),
{
    game.high_score.0 = crate::storage::parse_high_score(data);
}

/// Put the gameplay entities back to the start of a run: the next wave will
/// have one asteroid, and every bullet and asteroid is despawned.
pub fn reset_game(game: &mut Game)
    requires
        old(game).wf(),
    ensures
        final(game).wf(),
        final(game).asteroid_count.0 == 1,
        final(game).asteroids@.len() == 0,
        final(game).bullets@.len() == 0,
        final(game).state == old(game).state,
        final(game).before_boss == old(game).before_boss,
        final(game).world_size == old(game).world_size,
        final(game).score == old(game).score,
        final(game).high_score == old(game).high_score,
        final(game).countdown == old(game).countdown,
        final(game).ufo_timer == old(game).ufo_timer,
        final(game).ship == old(game).ship,
        final(game).ufo == old(game).ufo,
        final(game).explosions@ == old(game).explosions@,
        Game::same_events(*final(game), *old(game)),
{
    game.asteroid_count.0 = 1;
    game.asteroids.clear();
    game.bullets.clear();
}

} // verus!
