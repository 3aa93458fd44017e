//! The shared, singly-owned values of a run: playfield extent, score,
//! high score, wave size, countdowns, and the remembered phase for the boss
//! toggle.

use vstd::prelude::*;

verus! {

use crate::components::{Position, TickTimer};
use crate::rng::random_in_range;
use crate::states::GameState;

/// The playfield extent, in tenths of a unit. Coordinates run from minus
/// half the extent to plus half the extent on each axis.
#[derive(Clone, Copy, Debug, PartialEq, Eq, Structural)]
pub struct WorldSize {
    pub width: i64,
    pub height: i64,
}

impl WorldSize {
    pub open spec fn wf(self) -> bool {
        2 <= self.width <= 200_000 && 2 <= self.height <= 200_000
    }

    pub open spec fn half_width(self) -> int {
        self.width / 2
    }

    pub open spec fn half_height(self) -> int {
        self.height / 2
    }

    /// Whether a point lies on the playfield, bounds included.
    pub open spec fn contains(self, p: Position) -> bool {
        -self.half_width() <= p.x <= self.half_width()
            && -self.half_height() <= p.y <= self.half_height()
    }

    /// Whether a point lies on one of the four edges of the playfield.
    pub open spec fn on_edge(self, p: Position) -> bool {
        self.contains(p) && (p.x == -self.half_width() || p.x == self.half_width()
            || p.y == -self.half_height() || p.y == self.half_height())
    }

    /// Half the playfield width, as a runtime value.
    pub fn half_w(&self) -> (h: i64)
        requires
            self.wf(),
        ensures
            h == self.half_width(),
            1 <= h <= 100_000,
    {
        (self.width as u64 / 2) as i64
    }

    /// Half the playfield height, as a runtime value.
    pub fn half_h(&self) -> (h: i64)
        requires
            self.wf(),
        ensures
            h == self.half_height(),
            1 <= h <= 100_000,
    {
        (self.height as u64 / 2) as i64
    }

    /// A uniformly drawn interior point.
    pub fn get_random_coords(&self) -> (p: Position)
        requires
            self.wf(),
        ensures
            p.wf(),
            self.contains(p),
    {
        let half_width: i64 = self.width / 2;
        let half_height: i64 = self.height / 2;
        Position {
            x: random_in_range(-half_width, half_width),
            y: random_in_range(-half_height, half_height),
        }
    }

    /// A point drawn on one of the four edges of the playfield: an edge is
    /// picked at random, then a coordinate along it.
    pub fn get_random_edge(&self) -> (p: Position)
        requires
            self.wf(),
        ensures
            p.wf(),
            self.on_edge(p),
    {
        let half_width: i64 = self.width / 2;
        let half_height: i64 = self.height / 2;
        let edge: i64 = random_in_range(0, 4);
        let (x, y): (i64, i64) = if edge == 0 {
            (random_in_range(-half_width, half_width), -half_height)
        } else if edge == 1 {
            (half_width, random_in_range(-half_height, half_height))
        } else if edge == 2 {
            (random_in_range(-half_width, half_width), half_height)
        } else {
            (-half_width, random_in_range(-half_height, half_height))
        };
        Position { x, y }
    }
}

/// How many asteroids the next wave spawns; grows by one per cleared wave.
#[derive(Clone, Copy, Debug, PartialEq, Eq, Structural)]
pub struct AsteroidCount(pub u8);

/// The get-ready countdown; play begins when it runs out.
#[derive(Clone, Copy, Debug, PartialEq, Eq, Structural)]
pub struct Countdown(pub TickTimer);

/// The phase a boss toggle restores.
#[derive(Clone, Copy, Debug, PartialEq, Eq, Structural)]
pub struct BeforeBossState(pub GameState);

/// The points of the current run.
#[derive(Clone, Copy, Debug, PartialEq, Eq, Structural)]
pub struct Score(pub u16);

/// The best score ever seen; never decreases and survives restarts through
/// the persistence codec.
#[derive(Clone, Copy, Debug, PartialEq, Eq, Structural)]
pub struct HighScore(pub u16);

/// The UFO appears when this runs out during play.
#[derive(Clone, Copy, Debug, PartialEq, Eq, Structural)]
pub struct UfoTimer(pub TickTimer);

} // verus!
