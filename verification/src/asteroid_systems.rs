//! The asteroid subsystem: wave spawning clear of the ship, the
//! bullet-asteroid collision sweep with splitting and scoring, and the
//! wave-clear level progression.

use vstd::prelude::*;

verus! {

use crate::collision::{circles_collide, int_sqrt, spec_collides, spec_sq_dist, sq_dist};
use crate::components::{size_from_scale, spec_size_from_scale, Asteroid, Bullet, Position, Velocity};
use crate::events::{ExplosionEvent, ScoreEvent};
use crate::game::Game;
use crate::resources::WorldSize;
use crate::rng::random_in_range;
use crate::states::GameState;
use crate::{
    ASTEROID_SPEED_CAP, SCALE_LIMIT, SCALE_ONE, SPAWN_ATTEMPTS, SPAWN_SCALE,
    WAVE_SHIP_CLEARANCE,
};

/// The speed the spawner samples for an asteroid of the given scale: a
/// jitter base (in tenths of a unit per second at scale one) divided by the
/// scale, capped.
pub open spec fn spec_speed_of(base: int, scale: u32) -> int {
    if base * SCALE_ONE / (scale as int) > ASTEROID_SPEED_CAP {
        ASTEROID_SPEED_CAP as int
    } else {
        base * SCALE_ONE / (scale as int)
    }
}

/// The spawner's speed law: an asteroid of the given scale leaves at close
/// to 30/scale units per second, jittered. For some jitter base in
/// [290,310), every velocity component is bounded by the sampled speed, and
/// the squared magnitude reaches at least the square of half of it.
pub open spec fn spec_speed_law(v: Velocity, scale: u32) -> bool {
    exists|base: int|
        290 <= base < 310 && 0 <= #[trigger] spec_speed_of(base, scale) && -spec_speed_of(
            base,
            scale,
        ) <= v.x <= spec_speed_of(base, scale) && -spec_speed_of(base, scale) <= v.y
            <= spec_speed_of(base, scale) && v.x * v.x + v.y * v.y >= (spec_speed_of(base, scale)
            / 2) * (spec_speed_of(base, scale) / 2)
}

/// A velocity of the given speed in a random direction: two direction
/// components are drawn, then rescaled so that neither component exceeds
/// the speed, while the larger one stays at or above half of it.
fn random_velocity(speed: i64) -> (v: Velocity)
    requires
        0 <= speed <= ASTEROID_SPEED_CAP,
    ensures
        v.wf(),
        -speed <= v.x <= speed,
        -speed <= v.y <= speed,
        v.x * v.x + v.y * v.y >= (speed / 2) * (speed / 2),
{
    let ux: i64 = random_in_range(-1000, 1001);
    let uy: i64 = random_in_range(-1000, 1001);
    let ux: i64 = if ux == 0 && uy == 0 {
        1000
    } else {
        ux
    };
    let ax: u64 = if ux >= 0 {
        ux as u64
    } else {
        (-ux) as u64
    };
    let ay: u64 = if uy >= 0 {
        uy as u64
    } else {
        (-uy) as u64
    };
    proof {
        assert(ax * ax + ay * ay <= 2_000_000 && ax * ax >= 0 && ay * ay >= 0 && (ax >= 1 || ay
            >= 1 ==> ax * ax + ay * ay >= 1)) by (nonlinear_arith)
            requires ax <= 1000, ay <= 1000, 0 <= ax, 0 <= ay;
    }
    let norm: u64 = int_sqrt(ax * ax + ay * ay);
    proof {
        assert(ax <= norm && ay <= norm && norm >= 1) by (nonlinear_arith)
            requires
                norm * norm <= ax * ax + ay * ay,
                ax * ax + ay * ay < (norm + 1) * (norm + 1),
                ax * ax + ay * ay >= 1,
                0 <= ax,
                0 <= ay,
                0 <= norm;
        assert(ax as int * (speed as int) <= 50_000_000) by (nonlinear_arith)
            requires 0 <= ax <= 1000, 0 <= speed <= 50_000;
        assert(ay as int * (speed as int) <= 50_000_000) by (nonlinear_arith)
            requires 0 <= ay <= 1000, 0 <= speed <= 50_000;
        assert(ax as int * (speed as int) / (norm as int) <= speed as int) by (nonlinear_arith)
            requires 0 <= ax as int <= norm as int, 1 <= norm as int, 0 <= speed as int <= 50_000;
        assert(ay as int * (speed as int) / (norm as int) <= speed as int) by (nonlinear_arith)
            requires 0 <= ay as int <= norm as int, 1 <= norm as int, 0 <= speed as int <= 50_000;
    }
    proof {
        assert(2 * ax >= norm || 2 * ay >= norm) by (nonlinear_arith)
            requires norm * norm <= ax * ax + ay * ay, 0 <= ax, 0 <= ay, 1 <= norm;
        assert(2 * ax >= norm ==> ax as int * (speed as int) / (norm as int) >= speed as int / 2)
            by (nonlinear_arith)
            requires 1 <= norm, 0 <= ax, 0 <= speed;
        assert(2 * ay >= norm ==> ay as int * (speed as int) / (norm as int) >= speed as int / 2)
            by (nonlinear_arith)
            requires 1 <= norm, 0 <= ay, 0 <= speed;
    }
    let mx: u64 = ax * (speed as u64) / norm;
    let my: u64 = ay * (speed as u64) / norm;
    proof {
        assert(mx as int * mx as int + my as int * my as int >= (speed as int / 2) * (speed as int
            / 2)) by (nonlinear_arith)
            requires
                0 <= mx,
                0 <= my,
                mx >= speed as int / 2 || my >= speed as int / 2,
                0 <= speed;
    }
    let vx: i64 = if ux >= 0 {
        mx as i64
    } else {
        -(mx as i64)
    };
    let vy: i64 = if uy >= 0 {
        my as i64
    } else {
        -(my as i64)
    };
    proof {
        assert(vx * vx == mx as int * mx as int && vy * vy == my as int * my as int)
            by (nonlinear_arith)
            requires vx == mx as int || vx == -(mx as int), vy == my as int || vy == -(my as int);
    }
    Velocity { x: vx, y: vy }
}

/// Append one asteroid at `position` with the given scale. Its velocity is
/// random: a speed close to 30/scale units per second (capped), in a random
/// direction.
fn spawn_asteroid(asteroids: &mut Vec<Asteroid>, scale: u32, position: Position)
    requires
        forall|i: int| 0 <= i < old(asteroids)@.len() ==> old(asteroids)@[i].wf(),
        1 <= scale <= SPAWN_SCALE,
        position.wf(),
    ensures
        final(asteroids)@.len() == old(asteroids)@.len() + 1,
        forall|i: int| 0 <= i < old(asteroids)@.len() ==> final(asteroids)@[i] == old(
            asteroids,
        )@[i],
        final(asteroids)@.last().pos == position,
        final(asteroids)@.last().scale == scale,
        final(asteroids)@.last().size == spec_size_from_scale(scale),
        final(asteroids)@.last().wf(),
        spec_speed_law(final(asteroids)@.last().vel, scale),
{
    let base: i64 = random_in_range(290, 310);
    proof {
        assert(base as int * (SCALE_ONE as int) <= 3_100_000) by (nonlinear_arith)
            requires 0 <= base < 310, SCALE_ONE == 10000;
        assert(base as int * (SCALE_ONE as int) / (scale as int) <= 3_100_000)
            by (nonlinear_arith)
            requires 0 <= base as int * (SCALE_ONE as int) <= 3_100_000, 1 <= scale;
    }
    let raw: u64 = (base as u64) * (SCALE_ONE as u64) / (scale as u64);
    let speed: i64 = if raw > ASTEROID_SPEED_CAP as u64 {
        ASTEROID_SPEED_CAP
    } else {
        raw as i64
    };
    let vel = random_velocity(speed);
    proof {
        assert(spec_speed_of(base as int, scale) == speed);
        assert(spec_speed_law(vel, scale));
    }
    let size: i64 = size_from_scale(scale);
    asteroids.push(Asteroid { pos: position, vel, scale, size });
}

/// A spawn position for a wave asteroid: a random interior point at least
/// the clearance away from the ship. A bounded number of draws is tried;
/// if every draw lands too close, the corner of the playfield farthest from
/// the ship is used, which always satisfies the clearance.
fn wave_position(ws: &WorldSize, ship_pos: Option<Position>) -> (p: Position)
    requires
        ws.wf(),
        ws.half_width() > WAVE_SHIP_CLEARANCE,
        ship_pos matches Some(sp) ==> sp.wf(),
    ensures
        p.wf(),
        ws.contains(p),
        ship_pos matches Some(sp) ==> spec_sq_dist(p, sp) >= WAVE_SHIP_CLEARANCE
            * WAVE_SHIP_CLEARANCE,
{
    let sp: Position = match ship_pos {
        None => {
            return ws.get_random_coords();
        },
        Some(sp) => sp,
    };
    for _k in 0..SPAWN_ATTEMPTS
        invariant
            ws.wf(),
            ws.half_width() > WAVE_SHIP_CLEARANCE,
            sp.wf(),
            ship_pos == Some(sp),
    {
        let p = ws.get_random_coords();
        if sq_dist(p, sp) >= WAVE_SHIP_CLEARANCE * WAVE_SHIP_CLEARANCE {
            return p;
        }
    }
    let x: i64 = if sp.x > 0 {
        -ws.half_w()
    } else {
        ws.half_w()
    };
    let y: i64 = if sp.y > 0 {
        -ws.half_h()
    } else {
        ws.half_h()
    };
    let p = Position { x, y };
    proof {
        let dx = p.x - sp.x;
        let dy = p.y - sp.y;
        assert(dx > WAVE_SHIP_CLEARANCE || dx < -WAVE_SHIP_CLEARANCE);
        assert(dx * dx >= WAVE_SHIP_CLEARANCE * WAVE_SHIP_CLEARANCE && dy * dy >= 0)
            by (nonlinear_arith)
            requires dx > WAVE_SHIP_CLEARANCE || dx < -WAVE_SHIP_CLEARANCE;
    }
    p
}

/// Spawn a wave into an asteroid list: `count` asteroids at the spawn scale,
/// each clear of the ship.
fn spawn_wave(
    asteroids: &mut Vec<Asteroid>,
    ws: &WorldSize,
    ship_pos: Option<Position>,
    count: u8,
)
    requires
        forall|i: int| 0 <= i < old(asteroids)@.len() ==> old(asteroids)@[i].wf(),
        ws.wf(),
        ws.half_width() > WAVE_SHIP_CLEARANCE,
        ship_pos matches Some(sp) ==> sp.wf(),
    ensures
        final(asteroids)@.len() == old(asteroids)@.len() + count,
        forall|i: int| 0 <= i < old(asteroids)@.len() ==> final(asteroids)@[i] == old(
            asteroids,
        )@[i],
        forall|i: int|
            old(asteroids)@.len() <= i < final(asteroids)@.len() ==> {
                let a = #[trigger] final(asteroids)@[i];
                &&& a.wf()
                &&& a.scale == SPAWN_SCALE
                &&& a.size == spec_size_from_scale(SPAWN_SCALE)
                &&& ws.contains(a.pos)
                &&& spec_speed_law(a.vel, SPAWN_SCALE)
                &&& (ship_pos matches Some(sp) ==> spec_sq_dist(a.pos, sp)
                    >= WAVE_SHIP_CLEARANCE * WAVE_SHIP_CLEARANCE)
            },
{
    let ghost a0 = asteroids@;
    let n: usize = count as usize;
    for k in 0..n
        invariant
            asteroids@.len() == a0.len() + k,
            forall|i: int| 0 <= i < a0.len() ==> asteroids@[i] == a0[i],
            forall|i: int| 0 <= i < asteroids@.len() ==> (#[trigger] asteroids@[i]).wf(),
            forall|i: int|
                a0.len() <= i < asteroids@.len() ==> {
                    let a = #[trigger] asteroids@[i];
                    &&& a.wf()
                    &&& a.scale == SPAWN_SCALE
                    &&& a.size == spec_size_from_scale(SPAWN_SCALE)
                    &&& ws.contains(a.pos)
                    &&& spec_speed_law(a.vel, SPAWN_SCALE)
                    &&& (ship_pos matches Some(sp) ==> spec_sq_dist(a.pos, sp)
                        >= WAVE_SHIP_CLEARANCE * WAVE_SHIP_CLEARANCE)
                },
            ws.wf(),
            ws.half_width() > WAVE_SHIP_CLEARANCE,
            ship_pos matches Some(sp) ==> sp.wf(),
    {
        let p = wave_position(ws, ship_pos);
        spawn_asteroid(asteroids, SPAWN_SCALE, p);
    }
}

/// Spawn the next wave: as many asteroids as the wave counter asks for, at
/// the spawn scale, at random positions each at least the clearance away
/// from the ship if one exists.
pub fn spawn_asteroids(game: &mut Game)
    requires
        old(game).wf(),
        old(game).world_size.half_width() > WAVE_SHIP_CLEARANCE,
    ensures
        final(game).wf(),
        Game::same_resources(*final(game), *old(game)),
        Game::same_events(*final(game), *old(game)),
        final(game).ship == old(game).ship,
        final(game).ufo == old(game).ufo,
        final(game).bullets@ == old(game).bullets@,
        final(game).explosions@ == old(game).explosions@,
        final(game).asteroids@.len() == old(game).asteroids@.len()
            + old(game).asteroid_count.0,
        forall|i: int|
            0 <= i < old(game).asteroids@.len() ==> final(game).asteroids@[i] == old(
                game,
            ).asteroids@[i],
        forall|i: int|
            old(game).asteroids@.len() <= i < final(game).asteroids@.len() ==> {
                let a = #[trigger] final(game).asteroids@[i];
                &&& a.wf()
                &&& a.scale == SPAWN_SCALE
                &&& a.size == spec_size_from_scale(SPAWN_SCALE)
                &&& final(game).world_size.contains(a.pos)
                &&& spec_speed_law(a.vel, SPAWN_SCALE)
                &&& (old(game).ship matches Some(s) ==> spec_sq_dist(a.pos, s.pos)
                    >= WAVE_SHIP_CLEARANCE * WAVE_SHIP_CLEARANCE)
            },
{
    let ship_pos: Option<Position> = match &game.ship {
        Some(s) => Some(s.pos),
        None => None,
    };
    let count: u8 = game.asteroid_count.0;
    spawn_wave(&mut game.asteroids, &game.world_size, ship_pos, count);
}

/// The scale of each fragment of a split asteroid: exactly half the
/// parent's.
pub open spec fn spec_split_scale(scale: u32) -> int {
    scale as int / 2
}

/// Whether a destroyed asteroid of this scale splits into two fragments:
/// only while the halved scale stays above the limit.
pub open spec fn spec_splits(scale: u32) -> bool {
    spec_split_scale(scale) > SCALE_LIMIT
}

/// Splitting an even scale halves it exactly: a fragment is worth exactly
/// half its parent.
pub proof fn lemma_split_exact(s: u32)
    requires
        s % 2 == 0,
    ensures
        2 * spec_split_scale(s) == s,
{
}

/// The scale of a fragment `k` generations below a wave asteroid.
pub open spec fn spec_chain_scale(k: nat) -> int
    decreases k,
{
    if k == 0 {
        SPAWN_SCALE as int
    } else {
        spec_chain_scale((k - 1) as nat) / 2
    }
}

/// The fragment chain of a wave asteroid: each generation's scale is even,
/// so every split halves it exactly; the first four generations split
/// further, and the fifth is destroyed without children because its halved
/// scale would fall at or below the limit.
pub proof fn lemma_fragment_chain(k: nat)
    requires
        k <= 4,
    ensures
        spec_chain_scale(k) % 2 == 0,
        2 * spec_chain_scale(k + 1) == spec_chain_scale(k),
        spec_chain_scale(k) > SCALE_LIMIT,
        spec_splits(spec_chain_scale(k) as u32) <==> k < 4,
{
    assert(spec_chain_scale(0) == 20000);
    assert(spec_chain_scale(1) == 10000);
    assert(spec_chain_scale(2) == 5000);
    assert(spec_chain_scale(3) == 2500);
    assert(spec_chain_scale(4) == 1250);
    assert(spec_chain_scale(5) == 625);
}

/// The index of the first asteroid, at or after `from`, that the bullet
/// overlaps.
pub open spec fn spec_first_hit(b: Bullet, asts: Seq<Asteroid>, from: int) -> Option<int>
    decreases asts.len() - from,
{
    if from < 0 || from >= asts.len() {
        None
    } else if spec_collides(b.pos, b.size as int, asts[from].pos, asts[from].size as int) {
        Some(from)
    } else {
        spec_first_hit(b, asts, from + 1)
    }
}

/// What the bullet sweep leaves: the bullets that survive, the asteroids
/// that remain, and the asteroids destroyed, in order. Each bullet in turn
/// despawns with the first asteroid it still overlaps; fragments appear
/// only after the sweep, so a bullet never hits a fragment in the tick of
/// the split.
pub open spec fn spec_sweep(bullets: Seq<Bullet>, asts: Seq<Asteroid>) -> (
    Seq<Bullet>,
    Seq<Asteroid>,
    Seq<Asteroid>,
)
    decreases bullets.len(),
{
    if bullets.len() == 0 {
        (Seq::<Bullet>::empty(), asts, Seq::<Asteroid>::empty())
    } else {
        let b = bullets[0];
        match spec_first_hit(b, asts, 0) {
            None => {
                let r = spec_sweep(bullets.drop_first(), asts);
                (seq![b] + r.0, r.1, r.2)
            },
            Some(j) => {
                let r = spec_sweep(bullets.drop_first(), asts.remove(j));
                (r.0, r.1, seq![asts[j]] + r.2)
            },
        }
    }
}

/// What the search behind `spec_first_hit` means from a given start.
proof fn lemma_first_hit_from(b: Bullet, asts: Seq<Asteroid>, from: int)
    requires
        0 <= from <= asts.len(),
    ensures
        match spec_first_hit(b, asts, from) {
            Some(j) => from <= j < asts.len() && spec_collides(
                b.pos,
                b.size as int,
                asts[j].pos,
                asts[j].size as int,
            ) && forall|k: int|
                from <= k < j ==> !spec_collides(
                    b.pos,
                    b.size as int,
                    (#[trigger] asts[k]).pos,
                    asts[k].size as int,
                ),
            None => forall|k: int|
                from <= k < asts.len() ==> !spec_collides(
                    b.pos,
                    b.size as int,
                    (#[trigger] asts[k]).pos,
                    asts[k].size as int,
                ),
        },
    decreases asts.len() - from,
{
    if from < asts.len() {
        if !spec_collides(b.pos, b.size as int, asts[from].pos, asts[from].size as int) {
            lemma_first_hit_from(b, asts, from + 1);
        }
    }
}

/// What a bullet's sweep target means: the bullet resolves an asteroid
/// exactly when their circles overlap, boundary included, and it resolves
/// the first such asteroid; a miss means the bullet overlaps none.
pub proof fn lemma_first_hit_characterises(b: Bullet, asts: Seq<Asteroid>)
    ensures
        match spec_first_hit(b, asts, 0) {
            Some(j) => 0 <= j < asts.len() && spec_collides(
                b.pos,
                b.size as int,
                asts[j].pos,
                asts[j].size as int,
            ) && forall|k: int|
                0 <= k < j ==> !spec_collides(
                    b.pos,
                    b.size as int,
                    (#[trigger] asts[k]).pos,
                    asts[k].size as int,
                ),
            None => forall|k: int|
                0 <= k < asts.len() ==> !spec_collides(
                    b.pos,
                    b.size as int,
                    (#[trigger] asts[k]).pos,
                    asts[k].size as int,
                ),
        },
{
    lemma_first_hit_from(b, asts, 0);
}

/// How many of a list of destroyed asteroids split.
pub open spec fn spec_split_count(destroyed: Seq<Asteroid>) -> int
    decreases destroyed.len(),
{
    if destroyed.len() == 0 {
        0
    } else {
        spec_split_count(destroyed.drop_last()) + (if spec_splits(destroyed.last().scale) {
            1int
        } else {
            0int
        })
    }
}

/// The index of the destroyed parent that fragment `k` came from.
pub open spec fn spec_frag_parent(destroyed: Seq<Asteroid>, k: int) -> int
    decreases destroyed.len(),
{
    if destroyed.len() == 0 {
        0
    } else if k < spec_fragments(destroyed.drop_last()).len() {
        spec_frag_parent(destroyed.drop_last(), k)
    } else {
        destroyed.len() - 1
    }
}

/// Each fragment of a resolved tick is worth exactly half of the destroyed
/// parent it came from and sits at that parent's position; and only a
/// parent whose halved scale stays above the limit leaves fragments.
pub proof fn lemma_fragment_at(destroyed: Seq<Asteroid>, k: int)
    requires
        0 <= k < spec_fragments(destroyed).len(),
    ensures
        0 <= spec_frag_parent(destroyed, k) < destroyed.len(),
        spec_splits(destroyed[spec_frag_parent(destroyed, k)].scale),
        spec_fragments(destroyed)[k].0 == destroyed[spec_frag_parent(destroyed, k)].pos,
        spec_fragments(destroyed)[k].1 == destroyed[spec_frag_parent(destroyed, k)].scale / 2,
    decreases destroyed.len(),
{
    let rest = spec_fragments(destroyed.drop_last());
    let d = destroyed.last();
    if k < rest.len() {
        lemma_fragment_at(destroyed.drop_last(), k);
        assert(spec_fragments(destroyed)[k] == rest[k]);
        assert(destroyed.drop_last()[spec_frag_parent(destroyed.drop_last(), k)]
            == destroyed[spec_frag_parent(destroyed.drop_last(), k)]);
    } else {
        assert(spec_splits(d.scale));
        assert(spec_fragments(destroyed)[k] == (d.pos, (d.scale / 2) as u32));
        assert(destroyed[destroyed.len() - 1] == d);
    }
}

/// A destroyed list leaves exactly two fragments per splitting parent and
/// none from the parents at or below the split limit.
pub proof fn lemma_fragments_exact(destroyed: Seq<Asteroid>)
    ensures
        spec_fragments(destroyed).len() == 2 * spec_split_count(destroyed),
    decreases destroyed.len(),
{
    if destroyed.len() > 0 {
        lemma_fragments_exact(destroyed.drop_last());
    }
}

/// A sweep over no asteroids destroys nothing and spends no bullet.
pub proof fn lemma_sweep_empty_asteroids(bullets: Seq<Bullet>)
    ensures
        spec_sweep(bullets, Seq::<Asteroid>::empty()).0 == bullets,
        spec_sweep(bullets, Seq::<Asteroid>::empty()).1 == Seq::<Asteroid>::empty(),
        spec_sweep(bullets, Seq::<Asteroid>::empty()).2 == Seq::<Asteroid>::empty(),
    decreases bullets.len(),
{
    if bullets.len() == 0 {
        assert(spec_sweep(bullets, Seq::<Asteroid>::empty()).0 =~= bullets);
    } else {
        let b = bullets[0];
        assert(spec_first_hit(b, Seq::<Asteroid>::empty(), 0) is None);
        lemma_sweep_empty_asteroids(bullets.drop_first());
        assert(seq![b] + bullets.drop_first() =~= bullets);
    }
}

/// The fragments a list of destroyed asteroids leaves: two per asteroid
/// that splits, at the parent's position, at exactly half the parent's
/// scale.
pub open spec fn spec_fragments(destroyed: Seq<Asteroid>) -> Seq<(Position, u32)>
    decreases destroyed.len(),
{
    if destroyed.len() == 0 {
        Seq::<(Position, u32)>::empty()
    } else {
        let d = destroyed.last();
        spec_fragments(destroyed.drop_last()) + (if spec_splits(d.scale) {
            seq![(d.pos, (d.scale / 2) as u32), (d.pos, (d.scale / 2) as u32)]
        } else {
            Seq::<(Position, u32)>::empty()
        })
    }
}

/// Whether a spawned fragment realises a fragment descriptor; its velocity
/// is random and therefore unconstrained.
pub open spec fn spec_frag_matches(a: Asteroid, d: (Position, u32)) -> bool {
    a.pos == d.0 && a.scale == d.1 && a.size == spec_size_from_scale(d.1) && a.wf()
        && spec_speed_law(a.vel, d.1)
}

/// Find the first asteroid the bullet overlaps, if any.
fn first_hit(b: &Bullet, asts: &Vec<Asteroid>) -> (r: Option<usize>)
    requires
        b.wf(),
        forall|i: int| 0 <= i < asts@.len() ==> (#[trigger] asts@[i]).wf(),
    ensures
        match r {
            Some(j) => j < asts@.len() && spec_first_hit(*b, asts@, 0) == Some(j as int),
            None => spec_first_hit(*b, asts@, 0) is None,
        },
{
    let n: usize = asts.len();
    for i in 0..n
        invariant
            n == asts@.len(),
            b.wf(),
            forall|k: int| 0 <= k < asts@.len() ==> (#[trigger] asts@[k]).wf(),
            spec_first_hit(*b, asts@, 0) == spec_first_hit(*b, asts@, i as int),
    {
        let a = asts[i];
        if circles_collide(b.pos, b.size, a.pos, a.size) {
            return Some(i);
        }
        proof {
            assert(spec_first_hit(*b, asts@, i as int) == spec_first_hit(*b, asts@, i + 1));
        }
    }
    None
}

/// Run the sweep: consume the bullets in order against the evolving
/// asteroid list. Returns the surviving bullets and the destroyed
/// asteroids, in order.
fn sweep_bullets(bullets: &Vec<Bullet>, asteroids: &mut Vec<Asteroid>) -> (r: (
    Vec<Bullet>,
    Vec<Asteroid>,
))
    requires
        forall|i: int| 0 <= i < bullets@.len() ==> (#[trigger] bullets@[i]).wf(),
        forall|i: int| 0 <= i < old(asteroids)@.len() ==> (#[trigger] old(asteroids)@[i]).wf(),
    ensures
        r.0@ == spec_sweep(bullets@, old(asteroids)@).0,
        final(asteroids)@ == spec_sweep(bullets@, old(asteroids)@).1,
        r.1@ == spec_sweep(bullets@, old(asteroids)@).2,
        forall|i: int| 0 <= i < r.0@.len() ==> (#[trigger] r.0@[i]).wf(),
        forall|i: int| 0 <= i < final(asteroids)@.len() ==> (#[trigger] final(asteroids)@[i]).wf(),
        forall|i: int| 0 <= i < r.1@.len() ==> (#[trigger] r.1@[i]).wf(),
{
    let ghost a_start = asteroids@;
    let ghost full = spec_sweep(bullets@, a_start);
    let mut surviving: Vec<Bullet> = Vec::new();
    let mut destroyed: Vec<Asteroid> = Vec::new();
    let n: usize = bullets.len();
    proof {
        assert(bullets@.subrange(0, n as int) =~= bullets@);
        assert(surviving@ + full.0 =~= full.0);
        assert(destroyed@ + full.2 =~= full.2);
    }
    for i in 0..n
        invariant
            n == bullets@.len(),
            full == spec_sweep(bullets@, a_start),
            forall|k: int| 0 <= k < bullets@.len() ==> (#[trigger] bullets@[k]).wf(),
            forall|k: int| 0 <= k < asteroids@.len() ==> (#[trigger] asteroids@[k]).wf(),
            forall|k: int| 0 <= k < surviving@.len() ==> (#[trigger] surviving@[k]).wf(),
            forall|k: int| 0 <= k < destroyed@.len() ==> (#[trigger] destroyed@[k]).wf(),
            full.0 == surviving@ + spec_sweep(
                bullets@.subrange(i as int, n as int),
                asteroids@,
            ).0,
            full.1 == spec_sweep(bullets@.subrange(i as int, n as int), asteroids@).1,
            full.2 == destroyed@ + spec_sweep(
                bullets@.subrange(i as int, n as int),
                asteroids@,
            ).2,
    {
        let b = bullets[i];
        let ghost pre = asteroids@;
        let ghost s = bullets@.subrange(i as int, n as int);
        proof {
            assert(s[0] == bullets@[i as int]);
            assert(s.drop_first() =~= bullets@.subrange(i + 1, n as int));
        }
        let hit = first_hit(&b, asteroids);
        match hit {
            None => {
                surviving.push(b);
                proof {
                    let r = spec_sweep(s.drop_first(), pre);
                    assert(spec_sweep(s, pre).0 == seq![b] + r.0);
                    assert(surviving@ + r.0 =~= (surviving@.drop_last() + (seq![b] + r.0)));
                }
            },
            Some(j) => {
                let victim = asteroids.remove(j);
                destroyed.push(victim);
                proof {
                    assert(forall|k: int|
                        0 <= k < asteroids@.len() ==> (#[trigger] asteroids@[k]) == (if k < j {
                            pre[k]
                        } else {
                            pre[k + 1]
                        }));
                    let r = spec_sweep(s.drop_first(), pre.remove(j as int));
                    assert(spec_sweep(s, pre).2 == seq![victim] + r.2);
                    assert(destroyed@ + r.2 =~= (destroyed@.drop_last() + (seq![victim] + r.2)));
                }
            },
        }
    }
    proof {
        assert(bullets@.subrange(n as int, n as int) =~= Seq::<Bullet>::empty());
        assert(spec_sweep(Seq::<Bullet>::empty(), asteroids@).0 =~= Seq::<Bullet>::empty());
        assert(full.0 =~= surviving@);
        assert(full.2 =~= destroyed@);
    }
    (surviving, destroyed)
}

/// Resolve the destroyed asteroids of a sweep: one explosion event and one
/// point each, and two half-scale fragments while the halved scale stays
/// above the limit.
fn resolve_destroyed(
    destroyed: &Vec<Asteroid>,
    asteroids: &mut Vec<Asteroid>,
    explosion_events: &mut Vec<ExplosionEvent>,
    score_events: &mut Vec<ScoreEvent>,
)
    requires
        forall|i: int| 0 <= i < destroyed@.len() ==> (#[trigger] destroyed@[i]).wf(),
        forall|i: int| 0 <= i < old(asteroids)@.len() ==> (#[trigger] old(asteroids)@[i]).wf(),
    ensures
        final(explosion_events)@ == old(explosion_events)@ + destroyed@.map_values(
            |a: Asteroid| ExplosionEvent(a.pos),
        ),
        final(score_events)@ == old(score_events)@ + destroyed@.map_values(
            |a: Asteroid| ScoreEvent(1),
        ),
        final(asteroids)@.len() == old(asteroids)@.len() + spec_fragments(destroyed@).len(),
        forall|i: int| 0 <= i < old(asteroids)@.len() ==> final(asteroids)@[i] == old(
            asteroids,
        )@[i],
        forall|k: int|
            0 <= k < spec_fragments(destroyed@).len() ==> spec_frag_matches(
                final(asteroids)@[old(asteroids)@.len() + k],
                #[trigger] spec_fragments(destroyed@)[k],
            ),
        forall|i: int| 0 <= i < final(asteroids)@.len() ==> (#[trigger] final(asteroids)@[i]).wf(),
{
    let ghost a0 = asteroids@;
    let ghost e0 = explosion_events@;
    let ghost s0 = score_events@;
    let n: usize = destroyed.len();
    let mut k: usize = 0;
    while k < n
        invariant
            k <= n,
            n == destroyed@.len(),
            forall|i: int| 0 <= i < destroyed@.len() ==> (#[trigger] destroyed@[i]).wf(),
            explosion_events@ == e0 + destroyed@.subrange(0, k as int).map_values(
                |a: Asteroid| ExplosionEvent(a.pos),
            ),
            score_events@ == s0 + destroyed@.subrange(0, k as int).map_values(
                |a: Asteroid| ScoreEvent(1),
            ),
            asteroids@.len() == a0.len() + spec_fragments(destroyed@.subrange(0, k as int)).len(),
            forall|i: int| 0 <= i < a0.len() ==> asteroids@[i] == a0[i],
            forall|m: int|
                0 <= m < spec_fragments(destroyed@.subrange(0, k as int)).len()
                    ==> spec_frag_matches(
                    asteroids@[a0.len() + m],
                    #[trigger] spec_fragments(destroyed@.subrange(0, k as int))[m],
                ),
            forall|i: int| 0 <= i < asteroids@.len() ==> (#[trigger] asteroids@[i]).wf(),
        decreases n - k,
    {
        let d = destroyed[k];
        explosion_events.push(ExplosionEvent(d.pos));
        score_events.push(ScoreEvent(1));
        let child: u32 = d.scale / 2;
        let ghost a_pre = asteroids@;
        if child > SCALE_LIMIT {
            spawn_asteroid(asteroids, child, d.pos);
            spawn_asteroid(asteroids, child, d.pos);
        }
        proof {
            let prefix = destroyed@.subrange(0, k as int);
            let prefix1 = destroyed@.subrange(0, k + 1 as int);
            assert(prefix1.drop_last() =~= prefix);
            assert(prefix1.last() == destroyed@[k as int]);
            assert(prefix1.map_values(|a: Asteroid| ExplosionEvent(a.pos)) =~= prefix.map_values(
                |a: Asteroid| ExplosionEvent(a.pos),
            ).push(ExplosionEvent(destroyed@[k as int].pos)));
            assert(prefix1.map_values(|a: Asteroid| ScoreEvent(1)) =~= prefix.map_values(
                |a: Asteroid| ScoreEvent(1),
            ).push(ScoreEvent(1)));
            if spec_splits(d.scale) {
                assert(forall|i: int| 0 <= i < a_pre.len() ==> #[trigger] asteroids@[i]
                    == a_pre[i]);
                assert(spec_fragments(prefix1) == spec_fragments(prefix) + seq![
                    (d.pos, child),
                    (d.pos, child),
                ]);
                assert(asteroids@.len() == a_pre.len() + 2);
                assert(spec_frag_matches(asteroids@[a_pre.len() as int], (d.pos, child)));
                assert(spec_frag_matches(asteroids@[a_pre.len() as int + 1], (d.pos, child)));
                assert(spec_fragments(prefix1).len() == spec_fragments(prefix).len() + 2);
                assert(spec_fragments(prefix1)[spec_fragments(prefix).len() as int] == (
                    d.pos,
                    child,
                ));
                assert(spec_fragments(prefix1)[spec_fragments(prefix).len() as int + 1] == (
                    d.pos,
                    child,
                ));
                assert(forall|m: int|
                    0 <= m < spec_fragments(prefix).len() ==> #[trigger] spec_fragments(
                        prefix1,
                    )[m] == spec_fragments(prefix)[m]);
            } else {
                assert(spec_fragments(prefix1) == spec_fragments(prefix));
                assert(asteroids@ == a_pre);
            }
            assert(a_pre.len() == a0.len() + spec_fragments(prefix).len());
            assert(forall|m: int|
                0 <= m < spec_fragments(prefix).len() ==> spec_frag_matches(
                    a_pre[a0.len() + m],
                    #[trigger] spec_fragments(prefix)[m],
                ));
            assert(forall|m: int|
                0 <= m < spec_fragments(prefix).len() ==> spec_frag_matches(
                    asteroids@[a0.len() + m],
                    #[trigger] spec_fragments(prefix)[m],
                ));
            assert(forall|m: int|
                0 <= m < spec_fragments(prefix1).len() ==> spec_frag_matches(
                    asteroids@[a0.len() + m],
                    #[trigger] spec_fragments(prefix1)[m],
                ));
        }
        k = k + 1;
    }
    proof {
        assert(destroyed@.subrange(0, destroyed@.len() as int) =~= destroyed@);
    }
}

/// The bullet-asteroid resolver: every bullet despawns together with the
/// first asteroid it overlaps. Each destroyed asteroid leaves an explosion
/// event at its position, one point, and two fragments at exactly half its
/// scale while the halved scale stays above the limit; at or below it the
/// asteroid is removed without children. A bullet resolves at most one
/// asteroid per tick, and a fragment cannot be hit in the tick of its
/// birth.
pub fn handle_collisions(game: &mut Game)
    requires
        old(game).wf(),
    ensures
        final(game).wf(),
        Game::same_resources(*final(game), *old(game)),
        final(game).ship == old(game).ship,
        final(game).ufo == old(game).ufo,
        final(game).explosions@ == old(game).explosions@,
        final(game).bullets@ == spec_sweep(old(game).bullets@, old(game).asteroids@).0,
        final(game).asteroids@.len() == spec_sweep(old(game).bullets@, old(game).asteroids@).1.len()
            + spec_fragments(spec_sweep(old(game).bullets@, old(game).asteroids@).2).len(),
        forall|i: int|
            0 <= i < spec_sweep(old(game).bullets@, old(game).asteroids@).1.len()
                ==> final(game).asteroids@[i] == spec_sweep(
                old(game).bullets@,
                old(game).asteroids@,
            ).1[i],
        forall|k: int|
            0 <= k < spec_fragments(spec_sweep(old(game).bullets@, old(game).asteroids@).2).len()
                ==> spec_frag_matches(
                final(game).asteroids@[spec_sweep(
                    old(game).bullets@,
                    old(game).asteroids@,
                ).1.len() + k],
                #[trigger] spec_fragments(spec_sweep(old(game).bullets@, old(game).asteroids@).2)[k],
            ),
        final(game).explosion_events@ == old(game).explosion_events@ + spec_sweep(
            old(game).bullets@,
            old(game).asteroids@,
        ).2.map_values(|a: Asteroid| ExplosionEvent(a.pos)),
        final(game).score_events@ == old(game).score_events@ + spec_sweep(
            old(game).bullets@,
            old(game).asteroids@,
        ).2.map_values(|a: Asteroid| ScoreEvent(1)),
{
    let (surviving, destroyed) = sweep_bullets(&game.bullets, &mut game.asteroids);
    game.bullets = surviving;
    resolve_destroyed(
        &destroyed,
        &mut game.asteroids,
        &mut game.explosion_events,
        &mut game.score_events,
    );
}

/// Once no asteroid remains, grow the next wave by one and, during play,
/// ask for the GetReady phase: the level progression, independent of ship
/// survival. The wave counter saturates at its top.
pub fn end_level(game: &mut Game) -> (next: Option<GameState>)
    requires
        old(game).wf(),
    ensures
        final(game).wf(),
        old(game).asteroids@.len() > 0 ==> *final(game) == *old(game) && next is None,
        old(game).asteroids@.len() == 0 ==> {
            &&& final(game).asteroid_count.0 == (if old(game).asteroid_count.0 < 255 {
                old(game).asteroid_count.0 + 1
            } else {
                255int
            })
            &&& next == (if old(game).state == GameState::Playing {
                Some(GameState::GetReady)
            } else {
                None::<GameState>
            })
            &&& final(game).state == old(game).state
            &&& final(game).before_boss == old(game).before_boss
            &&& final(game).world_size == old(game).world_size
            &&& final(game).score == old(game).score
            &&& final(game).high_score == old(game).high_score
            &&& final(game).countdown == old(game).countdown
            &&& final(game).ufo_timer == old(game).ufo_timer
            &&& Game::same_entities(*final(game), *old(game))
            &&& Game::same_events(*final(game), *old(game))
        },
{
    if !game.asteroids.is_empty() {
        return None;
    }
    game.asteroid_count.0 = if game.asteroid_count.0 < 255 {
        game.asteroid_count.0 + 1
    } else {
        255
    };
    if matches!(game.state, GameState::Playing) {
        Some(GameState::GetReady)
    } else {
        None
    }
}

} // verus!
