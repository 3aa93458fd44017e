//! Explosion rings: spawned from the events of a tick, they expand, thin
//! and fade each tick, and are removed once fully transparent.

use vstd::prelude::*;

verus! {

use crate::components::Explosion;
use crate::events::ExplosionEvent;
use crate::game::Game;
use crate::{
    EXPLOSION_ALPHA, EXPLOSION_ALPHA_STEP, EXPLOSION_SCALE, EXPLOSION_SCALE_CAP, EXPLOSION_WIDTH,
    EXPLOSION_WIDTH_STEP,
};

/// The ring a fresh explosion event leaves.
pub open spec fn spec_new_explosion(e: ExplosionEvent) -> Explosion {
    Explosion {
        pos: e.0,
        scale: EXPLOSION_SCALE as i64,
        width: EXPLOSION_WIDTH as i64,
        alpha: EXPLOSION_ALPHA as i64,
    }
}

/// Drain the explosion events of this tick: each spawns a fresh ring at its
/// position.
pub fn handle_explosion_event(game: &mut Game)
    requires
        old(game).wf(),
    ensures
        final(game).wf(),
        final(game).explosions@ == old(game).explosions@ + old(game).explosion_events@.map_values(
            |e: ExplosionEvent| spec_new_explosion(e),
        ),
        final(game).explosion_events@.len() == 0,
        Game::same_resources(*final(game), *old(game)),
        final(game).ship == old(game).ship,
        final(game).asteroids@ == old(game).asteroids@,
        final(game).bullets@ == old(game).bullets@,
        final(game).ufo == old(game).ufo,
        final(game).score_events@ == old(game).score_events@,
{
    spawn_explosions(&game.explosion_events, &mut game.explosions);
    game.explosion_events.clear();
}

/// Append one fresh ring per queued event.
fn spawn_explosions(events: &Vec<ExplosionEvent>, explosions: &mut Vec<Explosion>)
    requires
        forall|i: int| 0 <= i < events@.len() ==> (#[trigger] events@[i]).0.wf(),
        forall|i: int| 0 <= i < old(explosions)@.len() ==> (#[trigger] old(explosions)@[i]).wf(),
    ensures
        final(explosions)@ == old(explosions)@ + events@.map_values(
            |e: ExplosionEvent| spec_new_explosion(e),
        ),
        forall|i: int| 0 <= i < final(explosions)@.len() ==> (#[trigger] final(explosions)@[i]).wf(),
{
    let ghost x0 = explosions@;
    let n: usize = events.len();
    let mut i: usize = 0;
    proof {
        assert(x0 + events@.subrange(0, 0).map_values(|e: ExplosionEvent| spec_new_explosion(e))
            =~= x0);
    }
    while i < n
        invariant
            i <= n,
            n == events@.len(),
            forall|k: int| 0 <= k < events@.len() ==> (#[trigger] events@[k]).0.wf(),
            explosions@ == x0 + events@.subrange(0, i as int).map_values(
                |e: ExplosionEvent| spec_new_explosion(e),
            ),
            forall|k: int| 0 <= k < explosions@.len() ==> (#[trigger] explosions@[k]).wf(),
        decreases n - i,
    {
        let e = events[i];
        explosions.push(Explosion {
            pos: e.0,
            scale: EXPLOSION_SCALE,
            width: EXPLOSION_WIDTH,
            alpha: EXPLOSION_ALPHA,
        });
        proof {
            assert(events@.subrange(0, i + 1).drop_last() =~= events@.subrange(0, i as int));
            assert(events@.subrange(0, i + 1).last() == events@[i as int]);
            assert(events@.subrange(0, i + 1).map_values(
                |e: ExplosionEvent| spec_new_explosion(e),
            ) =~= events@.subrange(0, i as int).map_values(
                |e: ExplosionEvent| spec_new_explosion(e),
            ).push(spec_new_explosion(events@[i as int])));
        }
        i = i + 1;
    }
    proof {
        assert(events@.subrange(0, events@.len() as int) =~= events@);
    }
}

/// One tick of a ring's life: it expands by five percent (up to a cap), its
/// stroke thins, and it fades.
pub open spec fn spec_explosion_step(e: Explosion) -> Explosion {
    Explosion {
        pos: e.pos,
        scale: (if e.scale * 105 / 100 > EXPLOSION_SCALE_CAP {
            EXPLOSION_SCALE_CAP as int
        } else {
            e.scale * 105 / 100
        }) as i64,
        width: (if e.width - EXPLOSION_WIDTH_STEP < 0 {
            0int
        } else {
            e.width - EXPLOSION_WIDTH_STEP
        }) as i64,
        alpha: (if e.alpha - EXPLOSION_ALPHA_STEP < 0 {
            0int
        } else {
            e.alpha - EXPLOSION_ALPHA_STEP
        }) as i64,
    }
}

/// Advance every explosion ring by one tick of expanding, thinning and
/// fading.
pub fn update_explosion(game: &mut Game)
    requires
        old(game).wf(),
    ensures
        final(game).wf(),
        final(game).explosions@.len() == old(game).explosions@.len(),
        forall|i: int|
            0 <= i < old(game).explosions@.len() ==> final(game).explosions@[i]
                == spec_explosion_step(old(game).explosions@[i]),
        Game::same_resources(*final(game), *old(game)),
        Game::same_events(*final(game), *old(game)),
        final(game).ship == old(game).ship,
        final(game).asteroids@ == old(game).asteroids@,
        final(game).bullets@ == old(game).bullets@,
        final(game).ufo == old(game).ufo,
{
    step_explosions(&mut game.explosions);
}

/// Advance every ring of a list.
fn step_explosions(v: &mut Vec<Explosion>)
    requires
        forall|i: int| 0 <= i < old(v)@.len() ==> (#[trigger] old(v)@[i]).wf(),
    ensures
        final(v)@.len() == old(v)@.len(),
        forall|i: int|
            0 <= i < old(v)@.len() ==> final(v)@[i] == spec_explosion_step(old(v)@[i]),
        forall|i: int| 0 <= i < final(v)@.len() ==> (#[trigger] final(v)@[i]).wf(),
{
    let ghost v0 = v@;
    let n: usize = v.len();
    let mut i: usize = 0;
    while i < n
        invariant
            i <= n,
            n == v@.len() == v0.len(),
            forall|k: int| 0 <= k < v0.len() ==> (#[trigger] v0[k]).wf(),
            forall|k: int| 0 <= k < i ==> v@[k] == spec_explosion_step(v0[k]),
            forall|k: int| i <= k < v0.len() ==> v@[k] == v0[k],
            forall|k: int| 0 <= k < v@.len() ==> (#[trigger] v@[k]).wf(),
        decreases n - i,
    {
        let e = v[i];
        let grown: i64 = e.scale * 105 / 100;
        let scale: i64 = if grown > EXPLOSION_SCALE_CAP {
            EXPLOSION_SCALE_CAP
        } else {
            grown
        };
        let width: i64 = if e.width - EXPLOSION_WIDTH_STEP < 0 {
            0
        } else {
            e.width - EXPLOSION_WIDTH_STEP
        };
        let alpha: i64 = if e.alpha - EXPLOSION_ALPHA_STEP < 0 {
            0
        } else {
            e.alpha - EXPLOSION_ALPHA_STEP
        };
        v.set(i, Explosion { pos: e.pos, scale, width, alpha });
        i = i + 1;
    }
}

/// The rings of a list that are still visible, order kept.
pub open spec fn spec_visible(explosions: Seq<Explosion>) -> Seq<Explosion>
    decreases explosions.len(),
{
    if explosions.len() == 0 {
        Seq::<Explosion>::empty()
    } else {
        let rest = spec_visible(explosions.drop_last());
        if explosions.last().alpha <= 0 {
            rest
        } else {
            rest.push(explosions.last())
        }
    }
}

/// Remove every ring that has fully faded.
pub fn remove_explosion(game: &mut Game)
    requires
        old(game).wf(),
    ensures
        final(game).wf(),
        final(game).explosions@ == spec_visible(old(game).explosions@),
        Game::same_resources(*final(game), *old(game)),
        Game::same_events(*final(game), *old(game)),
        final(game).ship == old(game).ship,
        final(game).asteroids@ == old(game).asteroids@,
        final(game).bullets@ == old(game).bullets@,
        final(game).ufo == old(game).ufo,
{
    keep_visible(&mut game.explosions);
}

/// Keep only the rings that are still visible.
fn keep_visible(v: &mut Vec<Explosion>)
    requires
        forall|i: int| 0 <= i < old(v)@.len() ==> (#[trigger] old(v)@[i]).wf(),
    ensures
        final(v)@ == spec_visible(old(v)@),
        forall|i: int| 0 <= i < final(v)@.len() ==> (#[trigger] final(v)@[i]).wf(),
{
    let ghost v0 = v@;
    let mut kept: Vec<Explosion> = Vec::new();
    let n: usize = v.len();
    let mut i: usize = 0;
    while i < n
        invariant
            i <= n,
            n == v@.len(),
            v@ == v0,
            forall|k: int| 0 <= k < v0.len() ==> (#[trigger] v0[k]).wf(),
            kept@ == spec_visible(v0.subrange(0, i as int)),
            forall|k: int| 0 <= k < kept@.len() ==> (#[trigger] kept@[k]).wf(),
        decreases n - i,
    {
        let e = v[i];
        if e.alpha > 0 {
            kept.push(e);
        }
        proof {
            assert(v0.subrange(0, i + 1).drop_last() =~= v0.subrange(0, i as int));
            assert(v0.subrange(0, i + 1).last() == v0[i as int]);
        }
        i = i + 1;
    }
    proof {
        assert(v0.subrange(0, v0.len() as int) =~= v0);
    }
    *v = kept;
}

} // verus!
