//! Transient events queued during a tick and drained by their consumers in
//! the same tick.

use vstd::prelude::*;

verus! {

use crate::components::Position;

/// Where something blew up; consumed to spawn an explosion ring.
#[derive(Clone, Copy, Debug, PartialEq, Eq, Structural)]
pub struct ExplosionEvent(pub Position);

/// Points awarded by a collision resolver; drained by the score system.
#[derive(Clone, Copy, Debug, PartialEq, Eq, Structural)]
pub struct ScoreEvent(pub u16);

} // verus!
