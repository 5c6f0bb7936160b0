//! Tuning values of the game, in the units of this library.

use vstd::prelude::*;

verus! {

/// Edge length of one tile, in pixels.
pub const GRID_SIZE: i32 = 16;

/// Position units per pixel.
pub const UNITS_PER_PIXEL: i64 = 1_000_000;

/// Edge length of one tile, in position units.
pub const TILE_EXTENT: i64 = 16_000_000;

/// Sprite sheet index of the player looking left.
pub const PLAYER_ATLAS_INDEX_LEFT: usize = 452;

/// Sprite sheet index of the player looking right.
pub const PLAYER_ATLAS_INDEX_RIGHT: usize = 644;

/// Sprite sheet index of the player looking up.
pub const PLAYER_ATLAS_INDEX_UP: usize = 257;

/// Sprite sheet index of the player looking down.
pub const PLAYER_ATLAS_INDEX_DOWN: usize = 68;

/// Speed of the player along one axis, in pixels per second.
pub const PLAYER_SPEED: i64 = 80;

/// Speed of the player along each axis while both axes are active: three
/// quarters of `PLAYER_SPEED`.
pub const PLAYER_DIAGONAL_SPEED: i64 = 60;

/// Health of a fresh or restored player, in health units.
pub const PLAYER_MAX_HEALTH: i64 = 100_000_000;

/// Health units per displayed health point.
pub const UNITS_PER_HEALTH_POINT: i64 = 1_000_000;

/// Speed of a cow along its route, in pixels per second.
pub const COW_SPEED: i64 = 70;

/// Health lost to one hit by a cow.
pub const COW_HEALTH_HIT: i64 = 20_000_000;

/// Score lost to one hit by a cow.
pub const COW_SCORE_HIT: i64 = 100;

/// Score gained by one piece of bronze.
pub const BRONZE_SCORE: i64 = 50;

/// Health gained by one carrot.
pub const CARROT_HEALTH: i64 = 25_000_000;

/// Bias, in position units, added in the direction of travel before a
/// candidate position is turned into a tile address.
pub const CORRECTION: i64 = 10_000_000;

/// Vertical offset, in position units, added to the far end of a patrol route:
/// half a tile.
pub const PATROL_PIVOT_OFFSET: i64 = 8_000_000;

/// Time after a hit during which the player cannot be hit again, in
/// milliseconds.
pub const HIT_COOLDOWN_MILLIS: u64 = 250;

/// Time the player spends inside a portal, in milliseconds.
pub const TELEPORT_DELAY_MILLIS: u64 = 1_000;

/// Largest magnitude of a patrol waypoint coordinate, in position units:
/// `2^55`, which is beyond the centre of every tile an address can name.
pub const WAYPOINT_LIMIT: i64 = 36_028_797_018_963_968;

/// The values above that are derived from others agree with them: a tile is
/// `GRID_SIZE` pixels wide, the diagonal speed is three quarters of the full
/// speed, the pivot offset is half a tile, and the waypoint limit lies beyond
/// the centre of the last tile.
pub proof fn derived_values_agree()
    ensures
        TILE_EXTENT == GRID_SIZE * UNITS_PER_PIXEL,
        4 * PLAYER_DIAGONAL_SPEED == 3 * PLAYER_SPEED,
        2 * PATROL_PIVOT_OFFSET == TILE_EXTENT,
        WAYPOINT_LIMIT == 0x80_0000_0000_0000,
        WAYPOINT_LIMIT > i32::MAX * TILE_EXTENT + TILE_EXTENT / 2,
{
}

} // verus!
