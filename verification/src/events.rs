//! The per-tick gameplay events that the combat and movement systems
//! exchange. Queues live for one tick: produced by one system, drained by
//! the consuming systems in the same tick, then discarded.

use vstd::prelude::*;
use crate::sprite::MoveDir;

verus! {

/// An enemy wants to take one walking step in a direction; `entity` is its
/// index in the enemy list.
#[derive(Clone, Copy, Debug, PartialEq, Eq, Structural)]
pub struct WalkEvent {
    pub direction: MoveDir,
    pub entity: usize,
}

/// A sword blow landed on the enemy at index `target` for `amount` damage.
#[derive(Clone, Copy, Debug, PartialEq, Eq, Structural)]
pub struct SwordHitEvent {
    pub target: usize,
    pub amount: u8,
}

/// An enemy's bite landed on the player for `amount` damage.
#[derive(Clone, Copy, Debug, PartialEq, Eq, Structural)]
pub struct AxolBiteEvent {
    pub amount: u8,
}

} // verus!
