//! The walkability map: which grid cells of the loaded level cannot be
//! walked on. The host loads the level and hands the cell list and level
//! size over as plain values; movement queries the map before committing
//! any position change.

use vstd::prelude::*;

verus! {

/// Side length of one level tile, in world units.
pub const GRID_SIZE: i32 = 32;

/// A cell of the level grid.
#[derive(Clone, Copy, Debug, PartialEq, Eq, Structural)]
pub struct GridCoords {
    pub x: i32,
    pub y: i32,
}

/// The set of non-walkable cells of the active level, with the level's size
/// in cells. Anything outside the level bounds is never walkable.
#[derive(Clone, Debug)]
pub struct LevelNoWalk {
    pub nowalk_locations: Vec<GridCoords>,
    pub level_width: i32,
    pub level_height: i32,
}

impl LevelNoWalk {
    /// Level sizes are bounded so that every in-level position, in tenths
    /// of a world unit, fits comfortably in an `i32`.
    pub open spec fn wf(self) -> bool {
        &&& 0 <= self.level_width <= 1000000
        &&& 0 <= self.level_height <= 1000000
    }

    /// A cell is non-walkable when it lies outside the level bounds or is
    /// one of the marked cells.
    pub open spec fn spec_in_nowalk(self, g: GridCoords) -> bool {
        g.x < 0 || g.y < 0 || g.x >= self.level_width || g.y >= self.level_height
            || self.nowalk_locations@.contains(g)
    }

    /// A walkability map built from a loaded level: the marked cells and the
    /// level size in cells.
    pub fn new(nowalk_locations: Vec<GridCoords>, level_width: i32, level_height: i32) -> (r:
        LevelNoWalk)
        requires
            0 <= level_width <= 1000000,
            0 <= level_height <= 1000000,
        ensures
            r.nowalk_locations == nowalk_locations,
            r.level_width == level_width,
            r.level_height == level_height,
            r.wf(),
    {
        LevelNoWalk { nowalk_locations, level_width, level_height }
    }

    /// An empty map of size zero: every cell is non-walkable until a level
    /// has been loaded.
    pub fn empty() -> (r: LevelNoWalk)
        ensures
            r.nowalk_locations@.len() == 0,
            r.level_width == 0,
            r.level_height == 0,
            r.wf(),
            forall|g: GridCoords| #[trigger] r.spec_in_nowalk(g),
    {
        let r = LevelNoWalk { nowalk_locations: Vec::new(), level_width: 0, level_height: 0 };
        assert forall|g: GridCoords| #[trigger] r.spec_in_nowalk(g) by {
            assert(!(g.x < 0 || g.y < 0) ==> g.x >= 0);
        }
        r
    }

    /// Whether the cell is non-walkable.
    pub fn in_nowalk(&self, g: GridCoords) -> (b: bool)
        ensures
            b == self.spec_in_nowalk(g),
    {
        if g.x < 0 || g.y < 0 || g.x >= self.level_width || g.y >= self.level_height {
            return true;
        }
        let mut i: usize = 0;
        while i < self.nowalk_locations.len()
            invariant
                i <= self.nowalk_locations@.len(),
                forall|k: int| 0 <= k < i ==> (#[trigger] self.nowalk_locations@[k]) != g,
            decreases self.nowalk_locations@.len() - i,
        {
            if self.nowalk_locations[i] == g {
                assert(self.nowalk_locations@.contains(g));
                return true;
            }
            i = i + 1;
        }
        assert(!self.nowalk_locations@.contains(g));
        false
    }
}

} // verus!
