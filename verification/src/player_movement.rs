//! The movement gate: a proposed step is converted to a destination, the
//! destination's grid cell is looked up in the walkability map, and the
//! move is committed in full or rejected in full — no axis sliding and no
//! partial movement. Walking and running use distinct speed constants.

use vstd::prelude::*;
use crate::actor::Position;
use crate::nowalk::{GRID_SIZE, GridCoords, LevelNoWalk};
use crate::sprite::MoveDir;

verus! {

/// Position units per world unit: positions are kept in tenths so speeds
/// and thresholds stay whole numbers.
pub const POS_SCALE: i32 = 10;

/// One walking step, in tenths of a world unit.
pub const WALK_SPEED: i32 = 3;

/// One running step, in tenths of a world unit.
pub const RUN_SPEED: i32 = 5;

/// Side length of one level tile, in tenths of a world unit.
pub const GRID_STEP: i32 = GRID_SIZE * POS_SCALE;

/// Positions the movement gate accepts stay well inside `i32`, so a step
/// can never overflow.
pub const POS_LIMIT: i32 = 1000000000;

pub open spec fn spec_pos_ok(p: Position) -> bool {
    -POS_LIMIT <= p.x <= POS_LIMIT && -POS_LIMIT <= p.y <= POS_LIMIT
}

/// Where one step of the given size in the given direction lands.
pub open spec fn spec_dest(pos: Position, dir: MoveDir, speed: i32) -> Position {
    match dir {
        MoveDir::Up => Position { x: pos.x, y: (pos.y + speed) as i32 },
        MoveDir::Down => Position { x: pos.x, y: (pos.y - speed) as i32 },
        MoveDir::Left => Position { x: (pos.x - speed) as i32, y: pos.y },
        MoveDir::Right => Position { x: (pos.x + speed) as i32, y: pos.y },
    }
}

/// A position is walkable when it lies in the non-negative quadrant and its
/// grid cell is not marked non-walkable. Positions with a negative ordinate
/// fall into a cell outside the level, which is never walkable.
pub open spec fn spec_walkable(nw: LevelNoWalk, p: Position) -> bool {
    &&& p.x >= 0
    &&& p.y >= 0
    &&& !nw.spec_in_nowalk(
        GridCoords { x: (p.x / GRID_STEP) as i32, y: (p.y / GRID_STEP) as i32 },
    )
}

/// Commit one step of the given size if its destination is walkable; reject
/// it in full otherwise. A committed destination lies inside the level, so
/// positions stay within [`POS_LIMIT`].
pub fn try_move(pos: &mut Position, dir: MoveDir, speed: i32, nw: &LevelNoWalk) -> (moved: bool)
    requires
        0 <= speed <= 100,
        spec_pos_ok(*old(pos)),
        nw.wf(),
    ensures
        moved == spec_walkable(*nw, spec_dest(*old(pos), dir, speed)),
        moved ==> *final(pos) == spec_dest(*old(pos), dir, speed),
        !moved ==> *final(pos) == *old(pos),
        spec_pos_ok(*final(pos)),
        moved ==> 0 <= final(pos).x < (nw.level_width + 1) * (GRID_STEP as int),
        moved ==> 0 <= final(pos).y < (nw.level_height + 1) * (GRID_STEP as int),
{
    let dest: Position = match dir {
        MoveDir::Up => Position { x: pos.x, y: pos.y + speed },
        MoveDir::Down => Position { x: pos.x, y: pos.y - speed },
        MoveDir::Left => Position { x: pos.x - speed, y: pos.y },
        MoveDir::Right => Position { x: pos.x + speed, y: pos.y },
    };
    if dest.x < 0 || dest.y < 0 {
        return false;
    }
    let gx: u32 = (dest.x as u32) / (GRID_STEP as u32);
    let gy: u32 = (dest.y as u32) / (GRID_STEP as u32);
    proof {
        assert(gx == dest.x / GRID_STEP);
        assert(gy == dest.y / GRID_STEP);
        assert(GRID_STEP as int * (dest.x as int / GRID_STEP as int) + dest.x as int % (
        GRID_STEP as int) == dest.x as int) by {
            vstd::arithmetic::div_mod::lemma_fundamental_div_mod(
                dest.x as int,
                GRID_STEP as int,
            );
        }
        assert(GRID_STEP as int * (dest.y as int / GRID_STEP as int) + dest.y as int % (
        GRID_STEP as int) == dest.y as int) by {
            vstd::arithmetic::div_mod::lemma_fundamental_div_mod(
                dest.y as int,
                GRID_STEP as int,
            );
        }
    }
    let g = GridCoords { x: gx as i32, y: gy as i32 };
    if nw.in_nowalk(g) {
        false
    } else {
        proof {
            assert(g.x < nw.level_width);
            assert(g.y < nw.level_height);
            assert((dest.x as int) < (nw.level_width + 1) * (GRID_STEP as int)) by (nonlinear_arith)
                requires
                    GRID_STEP as int * (dest.x as int / GRID_STEP as int) + dest.x as int % (
                    GRID_STEP as int) == dest.x as int,
                    0 <= dest.x as int % (GRID_STEP as int) < GRID_STEP as int,
                    ((dest.x as int) / (GRID_STEP as int)) < nw.level_width,
                    GRID_STEP == 320,
            ;
            assert((dest.y as int) < (nw.level_height + 1) * (GRID_STEP as int))
                by (nonlinear_arith)
                requires
                    GRID_STEP as int * (dest.y as int / GRID_STEP as int) + dest.y as int % (
                    GRID_STEP as int) == dest.y as int,
                    0 <= dest.y as int % (GRID_STEP as int) < GRID_STEP as int,
                    ((dest.y as int) / (GRID_STEP as int)) < nw.level_height,
                    GRID_STEP == 320,
            ;
        }
        *pos = dest;
        true
    }
}

/// One walking step for an actor, through the walkability gate.
pub fn handle_player_walk(pos: &mut Position, dir: MoveDir, nw: &LevelNoWalk) -> (moved: bool)
    requires
        spec_pos_ok(*old(pos)),
        nw.wf(),
    ensures
        moved == spec_walkable(*nw, spec_dest(*old(pos), dir, WALK_SPEED as i32)),
        moved ==> *final(pos) == spec_dest(*old(pos), dir, WALK_SPEED as i32),
        !moved ==> *final(pos) == *old(pos),
        spec_pos_ok(*final(pos)),
{
    try_move(pos, dir, WALK_SPEED, nw)
}

/// One running step for the player, through the walkability gate.
pub fn handle_player_run(pos: &mut Position, dir: MoveDir, nw: &LevelNoWalk) -> (moved: bool)
    requires
        spec_pos_ok(*old(pos)),
        nw.wf(),
    ensures
        moved == spec_walkable(*nw, spec_dest(*old(pos), dir, RUN_SPEED as i32)),
        moved ==> *final(pos) == spec_dest(*old(pos), dir, RUN_SPEED as i32),
        !moved ==> *final(pos) == *old(pos),
        spec_pos_ok(*final(pos)),
{
    try_move(pos, dir, RUN_SPEED, nw)
}

} // verus!
