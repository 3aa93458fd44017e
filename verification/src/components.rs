//! The per-entity records the game world holds: the ship, asteroids, bullets,
//! UFOs and explosion effects, together with the small value types they are
//! built from.

use vstd::prelude::*;

verus! {

use crate::{
    DT_LIMIT, DURATION_BOUND, POS_BOUND, RADIUS_FACTOR, ROTATE_LIMIT, SCALE_ONE, SIZE_BOUND,
    SPAWN_SCALE, TAU_MILLIRAD, VEL_LIMIT,
};

/// A point of the playfield, in tenths of a unit.
#[derive(Clone, Copy, Debug, PartialEq, Eq, Structural)]
pub struct Position {
    pub x: i64,
    pub y: i64,
}

impl Position {
    /// Every coordinate the world holds stays within the loose bound that the
    /// arithmetic of the integrator and the collision sweep relies on.
    pub open spec fn wf(self) -> bool {
        -POS_BOUND <= self.x <= POS_BOUND && -POS_BOUND <= self.y <= POS_BOUND
    }

    /// A position drawn on a random edge of the playfield.
    pub fn new_random_edge(world_size: &crate::resources::WorldSize) -> (p: Position)
        requires
            world_size.wf(),
        ensures
            p.wf(),
            world_size.on_edge(p),
    {
        world_size.get_random_edge()
    }

    /// Move to a random interior point of the playfield.
    pub fn set_random(&mut self, world_size: &crate::resources::WorldSize)
        requires
            world_size.wf(),
        ensures
            final(self).wf(),
            world_size.contains(*final(self)),
    {
        *self = world_size.get_random_coords();
    }
}

/// A velocity, in tenths of a unit per second.
#[derive(Clone, Copy, Debug, PartialEq, Eq, Structural)]
pub struct Velocity {
    pub x: i64,
    pub y: i64,
}

impl Velocity {
    pub open spec fn wf(self) -> bool {
        -VEL_LIMIT <= self.x <= VEL_LIMIT && -VEL_LIMIT <= self.y <= VEL_LIMIT
    }
}

/// Whether the ship's engine is burning this tick.
#[derive(Clone, Copy, Debug, PartialEq, Eq, Structural)]
pub struct Thrust(pub bool);

/// Whether the player is asking to fire this tick.
#[derive(Clone, Copy, Debug, PartialEq, Eq, Structural)]
pub struct Firing(pub bool);

/// A single-shot countdown: `elapsed` advances by the tick length and clamps
/// at `duration`; `just` remembers whether the last tick crossed the end.
#[derive(Clone, Copy, Debug, PartialEq, Eq, Structural)]
pub struct TickTimer {
    pub elapsed: u32,
    pub duration: u32,
    pub just: bool,
}

impl TickTimer {
    pub open spec fn wf(self) -> bool {
        self.elapsed <= self.duration && self.duration <= DURATION_BOUND
    }

    pub open spec fn spec_finished(self) -> bool {
        self.elapsed >= self.duration
    }

    /// The elapsed time after a tick of `dt` milliseconds: it clamps at the
    /// duration.
    pub open spec fn spec_ticked_elapsed(self, dt: u32) -> u32 {
        if self.elapsed + dt >= self.duration {
            self.duration
        } else {
            (self.elapsed + dt) as u32
        }
    }

    /// Whether a tick of `dt` milliseconds is the one that crosses the end.
    pub open spec fn spec_ticked_just(self, dt: u32) -> bool {
        self.elapsed < self.duration && self.elapsed + dt >= self.duration
    }

    /// The whole timer after a tick of `dt` milliseconds.
    pub open spec fn spec_ticked(self, dt: u32) -> TickTimer {
        TickTimer {
            elapsed: self.spec_ticked_elapsed(dt),
            duration: self.duration,
            just: self.spec_ticked_just(dt),
        }
    }

    pub fn new(duration: u32) -> (t: TickTimer)
        requires
            duration <= DURATION_BOUND,
        ensures
            t == (TickTimer { elapsed: 0, duration, just: false }),
    {
        TickTimer { elapsed: 0, duration, just: false }
    }

    /// Advance the timer by `dt` milliseconds.
    pub fn tick(&mut self, dt: u32)
        requires
            old(self).wf(),
            dt <= DT_LIMIT,
        ensures
            final(self).wf(),
            *final(self) == old(self).spec_ticked(dt),
    {
        let advanced: u64 = self.elapsed as u64 + dt as u64;
        self.just = self.elapsed < self.duration && advanced >= self.duration as u64;
        if advanced >= self.duration as u64 {
            self.elapsed = self.duration;
        } else {
            self.elapsed = advanced as u32;
        }
    }

    /// Rewind the timer to the start.
    pub fn reset(&mut self)
        ensures
            *final(self) == (TickTimer {
                elapsed: 0,
                duration: old(self).duration,
                just: false,
            }),
    {
        self.elapsed = 0;
        self.just = false;
    }

    pub fn finished(&self) -> (b: bool)
        ensures
            b == self.spec_finished(),
    {
        self.elapsed >= self.duration
    }

    /// Whether the most recent tick was the one that finished the timer.
    pub fn just_finished(&self) -> (b: bool)
        ensures
            b == self.just,
    {
        self.just
    }

    /// Whole seconds left before the timer finishes.
    pub fn remaining_secs(&self) -> (s: u32)
        requires
            self.wf(),
        ensures
            s == (self.duration - self.elapsed) / 1000,
    {
        (self.duration - self.elapsed) / 1000
    }
}

/// The collision radius of an asteroid of the given fixed-point scale, in
/// tenths of a unit: 65 units at a scale of one.
pub open spec fn spec_size_from_scale(scale: u32) -> int {
    RADIUS_FACTOR as int * scale as int / SCALE_ONE as int
}

/// The collision radius of an asteroid of the given fixed-point scale.
pub fn size_from_scale(scale: u32) -> (r: i64)
    requires
        scale <= SPAWN_SCALE,
    ensures
        r == spec_size_from_scale(scale),
        0 <= r <= 1300,
{
    proof {
        assert(RADIUS_FACTOR as int * scale as int <= 13_000_000) by (nonlinear_arith)
            requires RADIUS_FACTOR == 650, scale <= 20000;
        assert(RADIUS_FACTOR as int * scale as int / (SCALE_ONE as int) <= 1300)
            by (nonlinear_arith)
            requires
                0 <= RADIUS_FACTOR as int * scale as int <= 13_000_000,
                SCALE_ONE == 10000;
    }
    (RADIUS_FACTOR as u64 * scale as u64 / SCALE_ONE as u64) as i64
}

/// The player's ship.
#[derive(Clone, Copy, Debug, PartialEq, Eq, Structural)]
pub struct Ship {
    pub pos: Position,
    pub vel: Velocity,
    /// Heading, in milliradians, kept in `[0, TAU_MILLIRAD)`.
    pub angle: i64,
    /// Signed rotation rate, in milliradians per second.
    pub rotate_speed: i64,
    pub thrust: Thrust,
    pub firing: Firing,
    pub firing_timer: TickTimer,
    /// Collision radius, in tenths of a unit.
    pub size: i64,
}

impl Ship {
    pub open spec fn wf(self) -> bool {
        &&& self.pos.wf()
        &&& self.vel.wf()
        &&& 0 <= self.angle < TAU_MILLIRAD
        &&& -ROTATE_LIMIT <= self.rotate_speed <= ROTATE_LIMIT
        &&& self.firing_timer.wf()
        &&& 0 <= self.size <= SIZE_BOUND
    }
}

/// An asteroid. Its radius is derived from its scale and both are kept so
/// that splitting can halve the scale exactly.
#[derive(Clone, Copy, Debug, PartialEq, Eq, Structural)]
pub struct Asteroid {
    pub pos: Position,
    pub vel: Velocity,
    /// Fixed-point scale, in ten-thousandths; spawned waves start at 2.0.
    pub scale: u32,
    /// Collision radius, in tenths of a unit.
    pub size: i64,
}

impl Asteroid {
    pub open spec fn wf(self) -> bool {
        &&& self.pos.wf()
        &&& self.vel.wf()
        &&& 0 < self.scale <= SPAWN_SCALE
        &&& self.size == spec_size_from_scale(self.scale)
    }
}

/// A bullet, fired by the ship or by a UFO.
#[derive(Clone, Copy, Debug, PartialEq, Eq, Structural)]
pub struct Bullet {
    pub pos: Position,
    pub vel: Velocity,
    /// The bullet despawns when this expires.
    pub timer: TickTimer,
    /// Collision radius, in tenths of a unit.
    pub size: i64,
    /// Whether a UFO fired it; those bullets hurt the ship, not the UFO.
    pub from_ufo: bool,
}

impl Bullet {
    pub open spec fn wf(self) -> bool {
        &&& self.pos.wf()
        &&& self.vel.wf()
        &&& self.timer.wf()
        &&& 0 <= self.size <= SIZE_BOUND
    }
}

/// The flying saucer that appears during play.
#[derive(Clone, Copy, Debug, PartialEq, Eq, Structural)]
pub struct UFO {
    pub pos: Position,
    pub vel: Velocity,
    pub firing_timer: TickTimer,
    /// Collision radius, in tenths of a unit.
    pub size: i64,
}

impl UFO {
    pub open spec fn wf(self) -> bool {
        &&& self.pos.wf()
        &&& self.vel.wf()
        &&& self.firing_timer.wf()
        &&& 0 <= self.size <= SIZE_BOUND
    }
}

/// The expanding, fading ring left where something blew up. All three
/// magnitudes are fixed-point, in thousandths.
#[derive(Clone, Copy, Debug, PartialEq, Eq, Structural)]
pub struct Explosion {
    pub pos: Position,
    /// Visual radius multiplier; grows every tick.
    pub scale: i64,
    /// Stroke width; shrinks every tick.
    pub width: i64,
    /// Opacity; the explosion is removed once it reaches zero.
    pub alpha: i64,
}

impl Explosion {
    pub open spec fn wf(self) -> bool {
        &&& self.pos.wf()
        &&& 0 < self.scale <= crate::EXPLOSION_SCALE_CAP
        &&& 0 <= self.width <= crate::EXPLOSION_WIDTH
        &&& 0 <= self.alpha <= crate::EXPLOSION_ALPHA
    }
}

} // verus!
