//! The numbers the status bar shows.

use vstd::prelude::*;
use crate::consts::UNITS_PER_HEALTH_POINT;
use crate::math::saturate_usize;
use crate::player::PlayerStats;

verus! {

/// What the status bar shows, ready to be laid out.
#[derive(Clone, Copy, Debug, PartialEq, Eq, Structural, Hash)]
pub struct StatusBar {
    /// The score, in points.
    pub score: i64,
    /// The health, in whole points, never below zero.
    pub health: i64,
    /// The keys the player holds.
    pub keys: usize,
    /// The keys the level asks for.
    pub keys_required: usize,
    /// The number of the level, counted from one.
    pub level: usize,
}

/// `health` in whole points: nothing at or below zero, else the nearest
/// point, a half going to the even neighbour.
pub open spec fn shown_health(health: int) -> int {
    if health <= 0 {
        0
    } else {
        let whole = health / (UNITS_PER_HEALTH_POINT as int);
        let rest = health % (UNITS_PER_HEALTH_POINT as int);
        if 2 * rest > UNITS_PER_HEALTH_POINT || (2 * rest == UNITS_PER_HEALTH_POINT && whole % 2
            == 1) {
            whole + 1
        } else {
            whole
        }
    }
}

/// The number shown for level index `level`, which is also the number of keys
/// the level asks for. Without a level index it is one.
pub open spec fn shown_level(level: Option<usize>) -> int {
    match level {
        Some(index) => saturate_usize(index + 1),
        None => 1,
    }
}

/// Reads off what the status bar shows for the statistics of the player at
/// level index `level`.
pub fn update_status_bar(player_stats: &PlayerStats, level: Option<usize>) -> (bar: StatusBar)
    ensures
        bar.score == player_stats.score,
        bar.health == shown_health(player_stats.health as int),
        bar.keys == player_stats.keys,
        bar.keys_required == shown_level(level),
        bar.level == shown_level(level),
{
    let health = if player_stats.health > 0 {
        let whole = player_stats.health / UNITS_PER_HEALTH_POINT;
        let rest = player_stats.health % UNITS_PER_HEALTH_POINT;
        if 2 * rest > UNITS_PER_HEALTH_POINT || (2 * rest == UNITS_PER_HEALTH_POINT && whole % 2
            == 1) {
            whole + 1
        } else {
            whole
        }
    } else {
        0
    };
    let number = match level {
        Some(index) => if index < usize::MAX {
            index + 1
        } else {
            usize::MAX
        },
        None => 1,
    };
    StatusBar {
        score: player_stats.score,
        health,
        keys: player_stats.keys,
        keys_required: number,
        level: number,
    }
}

} // verus!
