//! The things the player picks up: keys, carrots and bronze.

use vstd::prelude::*;
use crate::consts::{BRONZE_SCORE, CARROT_HEALTH, PLAYER_MAX_HEALTH};
use crate::coords::GridCoords;
use crate::math::{saturate_i64, saturate_usize, saturating};
use crate::player::PlayerStats;

verus! {

/// One thing lying in the level.
#[derive(Clone, Copy, Debug, PartialEq, Eq, Structural, Hash)]
pub struct Item {
    /// The identifier under which the item is known outside this library.
    pub entity: u64,
    /// The tile the item lies on.
    pub grid_coords: GridCoords,
}

/// Whether the player picks `item` up: the player's tile changed in this
/// frame, and is the tile of the item.
pub open spec fn picked_up(player_grid_pos: Option<GridCoords>, item: Item) -> bool {
    player_grid_pos == Some(item.grid_coords)
}

/// The test for the items that the player picks up.
pub open spec fn taken_by(player_grid_pos: Option<GridCoords>) -> spec_fn(Item) -> bool {
    |item: Item| picked_up(player_grid_pos, item)
}

/// The test for the items that stay in the level.
pub open spec fn left_by(player_grid_pos: Option<GridCoords>) -> spec_fn(Item) -> bool {
    |item: Item| !picked_up(player_grid_pos, item)
}

/// Health after eating `carrots` carrots: each one heals, but never beyond
/// full health.
pub open spec fn healed(health: int, carrots: nat) -> int {
    if carrots == 0 {
        health
    } else if health + carrots * CARROT_HEALTH < PLAYER_MAX_HEALTH {
        health + carrots * CARROT_HEALTH
    } else {
        PLAYER_MAX_HEALTH as int
    }
}

/// Takes out of `items` every item on the player's tile, in order, and hands
/// them back.
fn collect(player_grid_pos: Option<GridCoords>, items: &mut Vec<Item>) -> (picked: Vec<Item>)
    ensures
        picked@ == old(items)@.filter(taken_by(player_grid_pos)),
        final(items)@ == old(items)@.filter(left_by(player_grid_pos)),
{
    let mut picked: Vec<Item> = Vec::new();
    let mut left: Vec<Item> = Vec::new();
    let mut i: usize = 0;
    while i < items.len()
        invariant
            i <= items.len(),
            *items == *old(items),
            picked@ == items@.take(i as int).filter(taken_by(player_grid_pos)),
            left@ == items@.take(i as int).filter(left_by(player_grid_pos)),
        decreases items.len() - i,
    {
        let item = items[i];
        let taken = match player_grid_pos {
            Some(coords) => coords == item.grid_coords,
            None => false,
        };
        proof {
            let longer = items@.take(i + 1);
            assert(longer.drop_last() == items@.take(i as int));
            assert(longer.last() == item);
            assert(taken_by(player_grid_pos)(item) == taken);
            assert(left_by(player_grid_pos)(item) == !taken);
            reveal_with_fuel(Seq::<_>::filter, 2);
        }
        if taken {
            picked.push(item);
        } else {
            left.push(item);
        }
        i += 1;
    }
    assert(items@.take(items@.len() as int) == items@);
    *items = left;
    picked
}

/// Picks up the keys on the player's tile.
///
/// `player_grid_pos` is the player's tile if it changed in this frame. Every
/// key on that tile leaves `keys` and counts for the player; the key count
/// stops at the end of the `usize` range. Returns the keys picked up, one
/// pickup sound each.
pub fn check_keys(
    player_grid_pos: Option<GridCoords>,
    keys: &mut Vec<Item>,
    player_stats: &mut PlayerStats,
) -> (picked: Vec<Item>)
    ensures
        picked@ == old(keys)@.filter(taken_by(player_grid_pos)),
        final(keys)@ == old(keys)@.filter(left_by(player_grid_pos)),
        *final(player_stats) == (PlayerStats {
            keys: saturate_usize(old(player_stats).keys + picked@.len()) as usize,
            ..*old(player_stats)
        }),
{
    let picked = collect(player_grid_pos, keys);
    let count = picked.len();
    player_stats.keys = if count <= usize::MAX - player_stats.keys {
        player_stats.keys + count
    } else {
        usize::MAX
    };
    picked
}

/// Eats the carrots on the player's tile.
///
/// `player_grid_pos` is the player's tile if it changed in this frame. Every
/// carrot on that tile leaves `carrots` and heals the player, up to full
/// health. Returns the carrots eaten, one pickup sound each.
pub fn check_carrots(
    player_grid_pos: Option<GridCoords>,
    carrots: &mut Vec<Item>,
    player_stats: &mut PlayerStats,
) -> (picked: Vec<Item>)
    ensures
        picked@ == old(carrots)@.filter(taken_by(player_grid_pos)),
        final(carrots)@ == old(carrots)@.filter(left_by(player_grid_pos)),
        *final(player_stats) == (PlayerStats {
            health: healed(old(player_stats).health as int, picked@.len()) as i64,
            ..*old(player_stats)
        }),
{
    let picked = collect(player_grid_pos, carrots);
    let count = picked.len();
    if count > 0 {
        proof {
            times_count(CARROT_HEALTH as int, 25_000_000, count as int);
        }
        let raised: i128 = player_stats.health as i128 + count as i128 * CARROT_HEALTH as i128;
        player_stats.health = if raised < PLAYER_MAX_HEALTH as i128 {
            raised as i64
        } else {
            PLAYER_MAX_HEALTH
        };
    }
    picked
}

/// Picks up the bronze on the player's tile.
///
/// `player_grid_pos` is the player's tile if it changed in this frame. Every
/// piece on that tile leaves `bronze` and adds to the score, which stops at
/// the end of the `i64` range. Returns the pieces picked up, one pickup sound
/// each.
pub fn check_bronze(
    player_grid_pos: Option<GridCoords>,
    bronze: &mut Vec<Item>,
    player_stats: &mut PlayerStats,
) -> (picked: Vec<Item>)
    ensures
        picked@ == old(bronze)@.filter(taken_by(player_grid_pos)),
        final(bronze)@ == old(bronze)@.filter(left_by(player_grid_pos)),
        *final(player_stats) == (PlayerStats {
            score: saturate_i64(old(player_stats).score + picked@.len() * BRONZE_SCORE) as i64,
            ..*old(player_stats)
        }),
{
    let picked = collect(player_grid_pos, bronze);
    let count = picked.len();
    proof {
        times_count(BRONZE_SCORE as int, 50, count as int);
    }
    player_stats.score = saturating(
        player_stats.score as i128 + count as i128 * BRONZE_SCORE as i128,
    );
    picked
}

/// A named amount, multiplied out.
proof fn times_count(amount: int, literal: int, count: int)
    requires
        amount == literal,
    ensures
        count * amount == count * literal,
        count * amount == amount * count,
{
    assert(count * amount == count * literal && count * amount == amount * count)
        by (nonlinear_arith)
        requires
            amount == literal,
    ;
}

} // verus!
