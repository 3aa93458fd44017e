//! Bullets: the ship's gun with its three-shot cap and cooldown, bullet
//! expiry, and the UFO's aimed shots.

use vstd::prelude::*;

verus! {

use crate::collision::{int_sqrt, spec_isqrt};
use crate::components::{Bullet, Firing, Position, Ship, TickTimer, Velocity, UFO};
use crate::game::Game;
use crate::shared_systems::{clamp_vel, spec_clamp_vel};
use crate::{BULLET_LIFE_MS, BULLET_SIZE, BULLET_SPEED, DT_LIMIT, MAX_SHIP_BULLETS, POS_BOUND};

/// How many bullets of a list the ship fired.
pub open spec fn spec_ship_bullet_count(bullets: Seq<Bullet>) -> int
    decreases bullets.len(),
{
    if bullets.len() == 0 {
        0
    } else {
        spec_ship_bullet_count(bullets.drop_last()) + (if bullets.last().from_ufo {
            0int
        } else {
            1int
        })
    }
}

/// The bullet the ship fires: it starts at the ship, and its velocity is
/// the facing direction (milli-unit components) at the bullet speed, so ten
/// times each component, added to the ship's own velocity and clamped.
pub open spec fn spec_ship_bullet(s: Ship, dir_x: int, dir_y: int) -> Bullet {
    Bullet {
        pos: s.pos,
        vel: Velocity {
            x: spec_clamp_vel(s.vel.x + dir_x * 10) as i64,
            y: spec_clamp_vel(s.vel.y + dir_y * 10) as i64,
        },
        timer: TickTimer { elapsed: 0, duration: BULLET_LIFE_MS, just: false },
        size: BULLET_SIZE as i64,
        from_ufo: false,
    }
}

/// Count the bullets of a list that the ship fired.
fn count_ship_bullets(bullets: &Vec<Bullet>) -> (n: usize)
    ensures
        n == spec_ship_bullet_count(bullets@),
        n <= bullets@.len(),
{
    let len: usize = bullets.len();
    let mut n: usize = 0;
    let mut i: usize = 0;
    while i < len
        invariant
            i <= len,
            len == bullets@.len(),
            n <= i,
            n == spec_ship_bullet_count(bullets@.subrange(0, i as int)),
        decreases len - i,
    {
        if !bullets[i].from_ufo {
            n = n + 1;
        }
        proof {
            assert(bullets@.subrange(0, i + 1).drop_last() =~= bullets@.subrange(0, i as int));
            assert(bullets@.subrange(0, i + 1).last() == bullets@[i as int]);
        }
        i = i + 1;
    }
    proof {
        assert(bullets@.subrange(0, bullets@.len() as int) =~= bullets@);
    }
    n
}

/// The ship's gun. While a ship exists its cooldown timer ticks; then, in
/// order: with three shots already flying the trigger is swallowed; without
/// the trigger held nothing happens; with the cooldown still running the
/// trigger is spent in vain; otherwise the cooldown restarts and a bullet
/// leaves along the facing direction, inheriting the ship's velocity.
pub fn ship_fire_bullet(game: &mut Game, dir_x: i64, dir_y: i64, dt: u32)
    requires
        old(game).wf(),
        -1000 <= dir_x <= 1000,
        -1000 <= dir_y <= 1000,
        dt <= DT_LIMIT,
    ensures
        final(game).wf(),
        (match old(game).ship {
            None => *final(game) == *old(game),
            Some(s) => {
                let t1 = s.firing_timer.spec_ticked(dt);
                if spec_ship_bullet_count(old(game).bullets@) >= MAX_SHIP_BULLETS {
                    final(game).ship == Some(
                        Ship { firing: Firing(false), firing_timer: t1, ..s },
                    ) && final(game).bullets@ == old(game).bullets@
                } else if !s.firing.0 {
                    final(game).ship == Some(Ship { firing_timer: t1, ..s }) && final(game).bullets@ == old(game).bullets@
                } else if t1.spec_finished() {
                    final(game).ship == Some(
                        Ship {
                            firing: Firing(false),
                            firing_timer: TickTimer {
                                elapsed: 0,
                                duration: t1.duration,
                                just: false,
                            },
                            ..s
                        },
                    ) && final(game).bullets@ == old(game).bullets@.push(
                        spec_ship_bullet(s, dir_x as int, dir_y as int),
                    )
                } else {
                    final(game).ship == Some(
                        Ship { firing: Firing(false), firing_timer: t1, ..s },
                    ) && final(game).bullets@ == old(game).bullets@
                }
            },
        }),
        Game::same_resources(*final(game), *old(game)),
        Game::same_events(*final(game), *old(game)),
        final(game).asteroids@ == old(game).asteroids@,
        final(game).ufo == old(game).ufo,
        final(game).explosions@ == old(game).explosions@,
{
    let mut s: Ship = match &game.ship {
        Some(s) => *s,
        None => {
            return;
        },
    };
    let count: usize = count_ship_bullets(&game.bullets);
    s.firing_timer.tick(dt);
    if count >= MAX_SHIP_BULLETS {
        s.firing = Firing(false);
        game.ship = Some(s);
        return;
    }
    if !s.firing.0 {
        game.ship = Some(s);
        return;
    }
    s.firing = Firing(false);
    if s.firing_timer.finished() {
        s.firing_timer.reset();
    } else {
        game.ship = Some(s);
        return;
    }
    let vel = Velocity {
        x: clamp_vel(s.vel.x + dir_x * 10),
        y: clamp_vel(s.vel.y + dir_y * 10),
    };
    game.bullets.push(Bullet {
        pos: s.pos,
        vel,
        timer: TickTimer::new(BULLET_LIFE_MS),
        size: BULLET_SIZE,
        from_ufo: false,
    });
    game.ship = Some(s);
}

/// The bullets of a list after one tick: every timer advances, and the
/// bullets whose timer has run out are dropped, order kept.
pub open spec fn spec_expire(bullets: Seq<Bullet>, dt: u32) -> Seq<Bullet>
    decreases bullets.len(),
{
    if bullets.len() == 0 {
        Seq::<Bullet>::empty()
    } else {
        let rest = spec_expire(bullets.drop_last(), dt);
        let t = bullets.last().timer.spec_ticked(dt);
        if t.spec_finished() {
            rest
        } else {
            rest.push(Bullet { timer: t, ..bullets.last() })
        }
    }
}

/// Advance every bullet timer of a list and drop the bullets that expired.
fn expire_bullets(v: &mut Vec<Bullet>, dt: u32)
    requires
        forall|i: int| 0 <= i < old(v)@.len() ==> (#[trigger] old(v)@[i]).wf(),
        dt <= DT_LIMIT,
    ensures
        final(v)@ == spec_expire(old(v)@, dt),
        forall|i: int| 0 <= i < final(v)@.len() ==> (#[trigger] final(v)@[i]).wf(),
{
    let ghost v0 = v@;
    let mut kept: Vec<Bullet> = Vec::new();
    let len: usize = v.len();
    let mut i: usize = 0;
    while i < len
        invariant
            i <= len,
            len == v@.len(),
            v@ == v0,
            dt <= DT_LIMIT,
            forall|k: int| 0 <= k < v0.len() ==> (#[trigger] v0[k]).wf(),
            kept@ == spec_expire(v0.subrange(0, i as int), dt),
            forall|k: int| 0 <= k < kept@.len() ==> (#[trigger] kept@[k]).wf(),
        decreases len - i,
    {
        let mut b = v[i];
        b.timer.tick(dt);
        if !b.timer.finished() {
            kept.push(b);
        }
        proof {
            assert(v0.subrange(0, i + 1).drop_last() =~= v0.subrange(0, i as int));
            assert(v0.subrange(0, i + 1).last() == v0[i as int]);
        }
        i = i + 1;
    }
    proof {
        assert(v0.subrange(0, v0.len() as int) =~= v0);
    }
    *v = kept;
}

/// Advance every bullet's expiry timer by one tick and despawn the bullets
/// whose time has run out.
pub fn delete_expired_bullets(game: &mut Game, dt: u32)
    requires
        old(game).wf(),
        dt <= DT_LIMIT,
    ensures
        final(game).wf(),
        final(game).bullets@ == spec_expire(old(game).bullets@, dt),
        Game::same_resources(*final(game), *old(game)),
        Game::same_events(*final(game), *old(game)),
        final(game).ship == old(game).ship,
        final(game).asteroids@ == old(game).asteroids@,
        final(game).ufo == old(game).ufo,
        final(game).explosions@ == old(game).explosions@,
{
    expire_bullets(&mut game.bullets, dt);
}

/// Despawn every bullet.
pub fn delete_all_bullets(game: &mut Game)
    requires
        old(game).wf(),
    ensures
        final(game).wf(),
        final(game).bullets@.len() == 0,
        Game::same_resources(*final(game), *old(game)),
        Game::same_events(*final(game), *old(game)),
        final(game).ship == old(game).ship,
        final(game).asteroids@ == old(game).asteroids@,
        final(game).ufo == old(game).ufo,
        final(game).explosions@ == old(game).explosions@,
{
    game.bullets.clear();
}

/// One component of an aimed velocity: the offset component scaled to the
/// bullet speed over the distance.
pub open spec fn spec_aim_component(d: int, norm: int) -> int {
    if d >= 0 {
        d * BULLET_SPEED / norm
    } else {
        -((-d) * BULLET_SPEED / norm)
    }
}

/// The velocity of a shot fired from `from` straight at `to`, at the bullet
/// speed. When the two points coincide there is no direction and the shot
/// is left at rest.
pub open spec fn spec_aimed(from: Position, to: Position) -> Velocity {
    let dx = to.x - from.x;
    let dy = to.y - from.y;
    let norm = spec_isqrt(dx * dx + dy * dy);
    if norm == 0 {
        Velocity { x: 0, y: 0 }
    } else {
        Velocity {
            x: spec_aim_component(dx, norm) as i64,
            y: spec_aim_component(dy, norm) as i64,
        }
    }
}

/// Compute the velocity of a shot from `from` at `to`.
fn aimed_velocity(from: Position, to: Position) -> (v: Velocity)
    requires
        from.wf(),
        to.wf(),
    ensures
        v == spec_aimed(from, to),
        v.wf(),
        -BULLET_SPEED <= v.x <= BULLET_SPEED,
        -BULLET_SPEED <= v.y <= BULLET_SPEED,
{
    let dx: i64 = to.x - from.x;
    let dy: i64 = to.y - from.y;
    let ax: u64 = if dx >= 0 {
        dx as u64
    } else {
        (-dx) as u64
    };
    let ay: u64 = if dy >= 0 {
        dy as u64
    } else {
        (-dy) as u64
    };
    proof {
        assert(ax * ax + ay * ay <= 32_000_000_000_000 && ax * ax >= 0 && ay * ay >= 0)
            by (nonlinear_arith)
            requires ax <= 4_000_000, ay <= 4_000_000;
        assert(ax as int * ax as int + ay as int * ay as int == (dx as int) * (dx as int) + (
        dy as int) * (dy as int)) by (nonlinear_arith)
            requires
                ax == (if dx >= 0 { dx as int } else { -(dx as int) }),
                ay == (if dy >= 0 { dy as int } else { -(dy as int) });
    }
    let norm: u64 = int_sqrt(ax * ax + ay * ay);
    if norm == 0 {
        return Velocity { x: 0, y: 0 };
    }
    proof {
        assert(ax <= norm && ay <= norm) by (nonlinear_arith)
            requires
                norm * norm <= ax * ax + ay * ay,
                ax * ax + ay * ay < (norm + 1) * (norm + 1),
                0 <= ax,
                0 <= ay,
                0 <= norm;
        assert(ax as int * (BULLET_SPEED as int) <= 40_000_000_000) by (nonlinear_arith)
            requires 0 <= ax <= 4_000_000, BULLET_SPEED == 10000;
        assert(ay as int * (BULLET_SPEED as int) <= 40_000_000_000) by (nonlinear_arith)
            requires 0 <= ay <= 4_000_000, BULLET_SPEED == 10000;
        assert(ax as int * (BULLET_SPEED as int) / (norm as int) <= BULLET_SPEED as int)
            by (nonlinear_arith)
            requires 0 <= ax as int <= norm as int, 1 <= norm as int;
        assert(ay as int * (BULLET_SPEED as int) / (norm as int) <= BULLET_SPEED as int)
            by (nonlinear_arith)
            requires 0 <= ay as int <= norm as int, 1 <= norm as int;
    }
    let mx: u64 = ax * (BULLET_SPEED as u64) / norm;
    let my: u64 = ay * (BULLET_SPEED as u64) / norm;
    Velocity {
        x: if dx >= 0 {
            mx as i64
        } else {
            -(mx as i64)
        },
        y: if dy >= 0 {
            my as i64
        } else {
            -(my as i64)
        },
    }
}

/// The UFO's gun: whenever its cooldown has run out and a ship exists, the
/// cooldown restarts and a bullet leaves the UFO aimed straight at the
/// ship.
pub fn ufo_fire_bullet(game: &mut Game)
    requires
        old(game).wf(),
    ensures
        final(game).wf(),
        (match (old(game).ship, old(game).ufo) {
            (Some(s), Some(u)) => {
                if u.firing_timer.spec_finished() {
                    final(game).ufo == Some(
                        UFO {
                            firing_timer: TickTimer {
                                elapsed: 0,
                                duration: u.firing_timer.duration,
                                just: false,
                            },
                            ..u
                        },
                    ) && final(game).bullets@ == old(game).bullets@.push(
                        Bullet {
                            pos: u.pos,
                            vel: spec_aimed(u.pos, s.pos),
                            timer: TickTimer { elapsed: 0, duration: BULLET_LIFE_MS, just: false },
                            size: BULLET_SIZE as i64,
                            from_ufo: true,
                        },
                    )
                } else {
                    *final(game) == *old(game)
                }
            },
            _ => *final(game) == *old(game),
        }),
        Game::same_resources(*final(game), *old(game)),
        Game::same_events(*final(game), *old(game)),
        final(game).ship == old(game).ship,
        final(game).asteroids@ == old(game).asteroids@,
        final(game).explosions@ == old(game).explosions@,
{
    let s: Ship = match &game.ship {
        Some(s) => *s,
        None => {
            return;
        },
    };
    let mut u: UFO = match &game.ufo {
        Some(u) => *u,
        None => {
            return;
        },
    };
    if !u.firing_timer.finished() {
        return;
    }
    u.firing_timer.reset();
    let vel = aimed_velocity(u.pos, s.pos);
    game.bullets.push(Bullet {
        pos: u.pos,
        vel,
        timer: TickTimer::new(BULLET_LIFE_MS),
        size: BULLET_SIZE,
        from_ufo: true,
    });
    game.ufo = Some(u);
}

} // verus!
