//! Enemies: their hit points and their walk along the path.

use crate::map::{spec_path, waypoint, TilePos, PATH_LEN};
use crate::state::Lives;
use vstd::prelude::*;

verus! {

/// Asks for one enemy with `hp` hit points at the start of the path.
#[derive(Clone, Copy, Debug, PartialEq, Eq, Structural)]
pub struct SpawnEnemyEvent {
    pub hp: u32,
}

/// Index of the waypoint that an enemy reached last.
#[derive(Clone, Copy, Debug, PartialEq, Eq, Structural)]
pub struct PathIndex(pub usize);

/// The hit points that an enemy has left and began with.
#[derive(Clone, Copy, Debug, PartialEq, Eq, Structural)]
pub struct HitPoints {
    pub current: u32,
    pub max: u32,
}

impl HitPoints {
    /// Full health of `max` hit points.
    pub fn new(max: u32) -> (r: Self)
        ensures
            r == (HitPoints { current: max, max }),
    {
        HitPoints { current: max, max }
    }

    /// Takes one hit point for a laser that arrives, if one is left.
    pub fn hit(&mut self)
        ensures
            final(self).max == old(self).max,
            final(self).current == if old(self).current == 0 {
                0
            } else {
                old(self).current - 1
            },
    {
        self.current = self.current.saturating_sub(1);
    }

    /// Whether the enemy is to be taken out of the world: none of its hit
    /// points is left.
    pub fn death(&self) -> (r: bool)
        ensures
            r == (self.current == 0),
    {
        self.current == 0
    }
}

/// What an enemy does in a frame.
#[derive(Clone, Copy, Debug, PartialEq, Eq, Structural)]
pub enum EnemyAction {
    /// It walks on towards the tile.
    Walk(TilePos),
    /// It stands on the tile, which it has reached.
    Reach(TilePos),
    /// It has come through: it costs a life and leaves the world.
    Breach,
}

/// The waypoint after the one at `index`, if the path goes on.
pub open spec fn spec_next_waypoint(index: usize) -> Option<TilePos> {
    if index + 1 < PATH_LEN {
        Some(spec_path()[index + 1])
    } else {
        None
    }
}

/// The waypoint after the one at `index`, if the path goes on.
pub fn next_waypoint(index: usize) -> (r: Option<TilePos>)
    ensures
        r == spec_next_waypoint(index),
{
    if index < PATH_LEN - 1 {
        waypoint(index + 1)
    } else {
        None
    }
}

/// Moves an enemy on by one frame. `within_step` says whether the waypoint
/// ahead is no farther than the enemy walks in the frame.
///
/// With a waypoint ahead the enemy walks towards it, or reaches it and counts
/// it where it is within the step. At the end of the path the enemy costs one
/// life.
pub fn movement(path_index: &mut PathIndex, lives: &mut Lives, within_step: bool) -> (r:
    EnemyAction)
    ensures
        r == match spec_next_waypoint(old(path_index).0) {
            Some(next) => if within_step {
                EnemyAction::Reach(next)
            } else {
                EnemyAction::Walk(next)
            },
            None => EnemyAction::Breach,
        },
        final(path_index).0 == if r is Reach {
            old(path_index).0 + 1
        } else {
            old(path_index).0 as int
        },
        final(lives).0 == if !(r is Breach) || old(lives).0 == 0 {
            old(lives).0 as int
        } else {
            old(lives).0 - 1
        },
{
    match next_waypoint(path_index.0) {
        Some(next) => {
            if within_step {
                path_index.0 += 1;
                EnemyAction::Reach(next)
            } else {
                EnemyAction::Walk(next)
            }
        },
        None => {
            lives.lose_one();
            EnemyAction::Breach
        },
    }
}

/// An enemy that reaches each waypoint in turn comes through after the last
/// one: from the first waypoint the path is walked in seven stretches, and
/// only then does the enemy cost a life.
pub proof fn breach_only_at_the_end(index: usize)
    ensures
        spec_next_waypoint(index).is_none() <==> index >= PATH_LEN - 1,
{
}

} // verus!
