//! The collision map of a level: its walls and its bounds.

use vstd::prelude::*;
use std::collections::HashSet;
use crate::consts::GRID_SIZE;
use crate::coords::GridCoords;
use crate::math::truncated_quotient;

verus! {

broadcast use vstd::std_specs::hash::group_hash_axioms;

/// The number under which a tile is kept in the set of walls: its column and
/// row, each shifted into the unsigned range, side by side.
pub open spec fn cell_key(coords: GridCoords) -> int {
    (coords.x + 0x8000_0000) * 0x1_0000_0000 + (coords.y + 0x8000_0000)
}

/// Different tiles have different keys.
pub proof fn cell_key_is_injective(a: GridCoords, b: GridCoords)
    requires
        cell_key(a) == cell_key(b),
    ensures
        a == b,
{
}

/// The key of a tile.
fn key_of(coords: GridCoords) -> (key: u64)
    ensures
        key as int == cell_key(coords),
{
    let column: u64 = (coords.x as i64 + 0x8000_0000) as u64;
    let row: u64 = (coords.y as i64 + 0x8000_0000) as u64;
    column * 0x1_0000_0000 + row
}

/// The walls of the current level and its size in tiles.
pub struct LevelCollisions {
    collision_locations: HashSet<u64>,
    level_width: i32,
    level_height: i32,
}

impl LevelCollisions {
    /// The tiles that hold a wall.
    pub closed spec fn walls(&self) -> Set<GridCoords> {
        Set::new(|coords: GridCoords| self.collision_locations@.contains(cell_key(coords) as u64))
    }

    /// The number of columns of the level.
    pub closed spec fn width(&self) -> int {
        self.level_width as int
    }

    /// The number of rows of the level.
    pub closed spec fn height(&self) -> int {
        self.level_height as int
    }

    /// Whether the player is kept out of `coords`: every tile outside the
    /// level is blocked, and inside it the tiles that hold a wall.
    pub open spec fn is_blocked(&self, coords: GridCoords) -> bool {
        coords.x < 0 || coords.y < 0 || coords.x >= self.width() || coords.y >= self.height()
            || self.walls().contains(coords)
    }

    /// The map of a level of `px_wid` by `px_hei` pixels whose walls stand on
    /// `cells`. A level narrower or lower than one tile has no free tile.
    pub fn new(cells: &Vec<GridCoords>, px_wid: i32, px_hei: i32) -> (map: LevelCollisions)
        ensures
            map.walls() == cells@.to_set(),
            map.width() == truncated_quotient(px_wid as int, GRID_SIZE as int),
            map.height() == truncated_quotient(px_hei as int, GRID_SIZE as int),
    {
        let mut locations: HashSet<u64> = HashSet::new();
        let mut i: usize = 0;
        while i < cells.len()
            invariant
                i <= cells.len(),
                forall|key: u64|
                    locations@.contains(key) <==> exists|j: int|
                        0 <= j < i && key as int == cell_key(#[trigger] cells@[j]),
            decreases cells.len() - i,
        {
            let key = key_of(cells[i]);
            locations.insert(key);
            i += 1;
        }
        let map = LevelCollisions {
            collision_locations: locations,
            level_width: px_wid / GRID_SIZE,
            level_height: px_hei / GRID_SIZE,
        };
        proof {
            assert forall|coords: GridCoords| map.walls().contains(coords) == cells@.to_set().contains(
                coords,
            ) by {
                if map.walls().contains(coords) {
                    let j = choose|j: int|
                        0 <= j < cells.len() && cell_key(coords) == cell_key(#[trigger] cells@[j]);
                    cell_key_is_injective(coords, cells@[j]);
                    assert(cells@.contains(coords));
                }
                if cells@.to_set().contains(coords) {
                    let j = choose|j: int| 0 <= j < cells.len() && cells@[j] == coords;
                    assert(cell_key(cells@[j]) == cell_key(coords));
                }
            }
            assert(map.walls() =~= cells@.to_set());
        }
        map
    }

    /// Whether the player is kept out of `grid_coords`.
    pub fn collision(&self, grid_coords: &GridCoords) -> (blocked: bool)
        ensures
            blocked == self.is_blocked(*grid_coords),
    {
        grid_coords.x < 0 || grid_coords.y < 0 || grid_coords.x >= self.level_width
            || grid_coords.y >= self.level_height || self.collision_locations.contains(
            &key_of(*grid_coords),
        )
    }

    /// A tile that is not blocked lies inside the level, and so short of the
    /// largest column and row an address can name.
    pub proof fn free_tile_is_inside(&self, coords: GridCoords)
        requires
            !self.is_blocked(coords),
        ensures
            0 <= coords.x < self.width() <= i32::MAX,
            0 <= coords.y < self.height() <= i32::MAX,
    {
    }

    /// Every tile outside the bounds of the level is blocked, whatever its
    /// walls are.
    pub proof fn outside_is_blocked(&self, coords: GridCoords)
        requires
            coords.x < 0 || coords.y < 0 || coords.x >= self.width() || coords.y >= self.height(),
        ensures
            self.is_blocked(coords),
    {
    }
}

impl Default for LevelCollisions {
    /// The map before any level is loaded: no tile is free.
    fn default() -> (map: LevelCollisions)
        ensures
            map.walls() == Set::<GridCoords>::empty(),
            map.width() == 0,
            map.height() == 0,
    {
        let map = LevelCollisions {
            collision_locations: HashSet::new(),
            level_width: 0,
            level_height: 0,
        };
        assert(map.walls() =~= Set::<GridCoords>::empty());
        map
    }
}

/// Replaces the collision map by that of a freshly spawned level of `px_wid`
/// by `px_hei` pixels whose walls stand on `cells`. Nothing of the old map is
/// kept.
pub fn cache_collision_locations(
    level_collisions: &mut LevelCollisions,
    cells: &Vec<GridCoords>,
    px_wid: i32,
    px_hei: i32,
)
    ensures
        final(level_collisions).walls() == cells@.to_set(),
        final(level_collisions).width() == truncated_quotient(px_wid as int, GRID_SIZE as int),
        final(level_collisions).height() == truncated_quotient(px_hei as int, GRID_SIZE as int),
{
    *level_collisions = LevelCollisions::new(cells, px_wid, px_hei);
}

} // verus!
