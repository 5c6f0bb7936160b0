//! The player: movement against the collision map, and the bookkeeping of
//! health, keys and score.

use vstd::prelude::*;
use vstd::arithmetic::div_mod::{
    lemma_div_is_ordered_by_denominator, lemma_fundamental_div_mod, lemma_mod_bound,
};
use crate::collisions::LevelCollisions;
use crate::consts::{
    CORRECTION, COW_HEALTH_HIT, COW_SCORE_HIT, HIT_COOLDOWN_MILLIS, PLAYER_ATLAS_INDEX_DOWN,
    PLAYER_ATLAS_INDEX_LEFT, PLAYER_ATLAS_INDEX_RIGHT, PLAYER_ATLAS_INDEX_UP,
    PLAYER_DIAGONAL_SPEED, PLAYER_MAX_HEALTH, PLAYER_SPEED, TELEPORT_DELAY_MILLIS,
};
use crate::coords::{cell_of, translation_to_grid_coords, wide_axis_to_cell, GridCoords, Position};
use crate::math::{saturate_i64, saturating};
use crate::timer::{Cooldown, CooldownView};

verus! {

/// The way the player's sprite looks.
#[derive(Clone, Copy, Debug, PartialEq, Eq, Structural, Hash)]
pub enum Facing {
    Left,
    Right,
    Up,
    Down,
}

impl Facing {
    /// The sprite sheet index that shows the player looking this way.
    pub fn atlas_index(self) -> (index: usize)
        ensures
            index == match self {
                Facing::Left => PLAYER_ATLAS_INDEX_LEFT,
                Facing::Right => PLAYER_ATLAS_INDEX_RIGHT,
                Facing::Up => PLAYER_ATLAS_INDEX_UP,
                Facing::Down => PLAYER_ATLAS_INDEX_DOWN,
            },
    {
        match self {
            Facing::Left => PLAYER_ATLAS_INDEX_LEFT,
            Facing::Right => PLAYER_ATLAS_INDEX_RIGHT,
            Facing::Up => PLAYER_ATLAS_INDEX_UP,
            Facing::Down => PLAYER_ATLAS_INDEX_DOWN,
        }
    }
}

/// The directions the player currently asks for.
#[derive(Clone, Copy, Debug, PartialEq, Eq, Structural, Hash)]
pub struct HeldKeys {
    pub left: bool,
    pub right: bool,
    pub up: bool,
    pub down: bool,
}

impl HeldKeys {
    /// The directions asked for by the letter keys A, D, W, S and by the arrow
    /// keys: a direction is held when either of its two keys is.
    pub fn new(
        key_a: bool,
        arrow_left: bool,
        key_d: bool,
        arrow_right: bool,
        key_w: bool,
        arrow_up: bool,
        key_s: bool,
        arrow_down: bool,
    ) -> (keys: HeldKeys)
        ensures
            keys.left == (key_a || arrow_left),
            keys.right == (key_d || arrow_right),
            keys.up == (key_w || arrow_up),
            keys.down == (key_s || arrow_down),
    {
        HeldKeys {
            left: key_a || arrow_left,
            right: key_d || arrow_right,
            up: key_w || arrow_up,
            down: key_s || arrow_down,
        }
    }

    /// The horizontal direction: `1` to the right, `-1` to the left. Right
    /// wins over left.
    pub open spec fn direction_x(self) -> int {
        if self.right {
            1
        } else if self.left {
            -1
        } else {
            0
        }
    }

    /// The vertical direction: `1` up, `-1` down. Down wins over up.
    pub open spec fn direction_y(self) -> int {
        if self.down {
            -1
        } else if self.up {
            1
        } else {
            0
        }
    }

    /// Whether no direction is asked for.
    pub open spec fn idle(self) -> bool {
        self.direction_x() == 0 && self.direction_y() == 0
    }

    /// Whether both axes are active.
    pub open spec fn diagonal(self) -> bool {
        self.direction_x() != 0 && self.direction_y() != 0
    }

    /// The distance covered along each active axis in `delta_micros`
    /// microseconds: the full speed along a single axis, the dampened speed
    /// when both are active.
    pub open spec fn stride(self, delta_micros: int) -> int {
        if self.diagonal() {
            PLAYER_DIAGONAL_SPEED * delta_micros
        } else {
            PLAYER_SPEED * delta_micros
        }
    }

    /// The change of the horizontal coordinate in one frame.
    pub open spec fn displacement_x(self, delta_micros: int) -> int {
        if self.direction_x() > 0 {
            self.stride(delta_micros)
        } else if self.direction_x() < 0 {
            -self.stride(delta_micros)
        } else {
            0
        }
    }

    /// The change of the vertical coordinate in one frame.
    pub open spec fn displacement_y(self, delta_micros: int) -> int {
        if self.direction_y() > 0 {
            self.stride(delta_micros)
        } else if self.direction_y() < 0 {
            -self.stride(delta_micros)
        } else {
            0
        }
    }

    /// The horizontal push given to a candidate position before its tile is
    /// looked up: the correction, in the direction of travel.
    pub open spec fn correction_x(self) -> int {
        if self.direction_x() > 0 {
            CORRECTION as int
        } else if self.direction_x() < 0 {
            -CORRECTION
        } else {
            0
        }
    }

    /// The vertical push given to a candidate position before its tile is
    /// looked up.
    pub open spec fn correction_y(self) -> int {
        if self.direction_y() > 0 {
            CORRECTION as int
        } else if self.direction_y() < 0 {
            -CORRECTION
        } else {
            0
        }
    }

    /// The way the sprite looks after these keys were read: toward the last
    /// direction held in the order left, right, up, down, or as before when
    /// none is held.
    pub open spec fn facing(self, current: Facing) -> Facing {
        if self.down {
            Facing::Down
        } else if self.up {
            Facing::Up
        } else if self.right {
            Facing::Right
        } else if self.left {
            Facing::Left
        } else {
            current
        }
    }
}

/// The player character.
#[derive(Clone, Copy, Debug, PartialEq, Eq, Structural, Hash)]
pub struct Player {
    /// Where the player stands.
    pub translation: Position,
    /// The tile the player counts as standing on.
    pub grid_coords: GridCoords,
    /// The way the sprite looks.
    pub facing: Facing,
}

impl Player {
    /// The horizontal coordinate the player asks to move to.
    pub open spec fn candidate_x(self, keys: HeldKeys, delta_micros: u64) -> int {
        self.translation.x + keys.displacement_x(delta_micros as int)
    }

    /// The vertical coordinate the player asks to move to.
    pub open spec fn candidate_y(self, keys: HeldKeys, delta_micros: u64) -> int {
        self.translation.y + keys.displacement_y(delta_micros as int)
    }

    /// The tile the player asks to move to: the tile of the candidate
    /// position, pushed by the correction along each active direction.
    pub open spec fn candidate_cell(self, keys: HeldKeys, delta_micros: u64) -> GridCoords {
        cell_of(
            self.candidate_x(keys, delta_micros) + keys.correction_x(),
            self.candidate_y(keys, delta_micros) + keys.correction_y(),
        )
    }

    /// Whether the player takes the move it asks for: it asks for none, or
    /// the candidate tile is not blocked.
    pub open spec fn may_move(
        self,
        keys: HeldKeys,
        level_collisions: LevelCollisions,
        delta_micros: u64,
    ) -> bool {
        keys.idle() || !level_collisions.is_blocked(self.candidate_cell(keys, delta_micros))
    }

    /// The player after one frame of `delta_micros` microseconds with `keys`
    /// held: as before if no direction is asked for; else turned toward the
    /// keys, and moved to the candidate position and tile unless that tile is
    /// blocked.
    pub open spec fn after_move(
        self,
        keys: HeldKeys,
        level_collisions: LevelCollisions,
        delta_micros: u64,
    ) -> Player {
        if keys.idle() {
            self
        } else if level_collisions.is_blocked(self.candidate_cell(keys, delta_micros)) {
            Player { facing: keys.facing(self.facing), ..self }
        } else {
            Player {
                translation: Position {
                    x: self.candidate_x(keys, delta_micros) as i64,
                    y: self.candidate_y(keys, delta_micros) as i64,
                },
                grid_coords: self.candidate_cell(keys, delta_micros),
                facing: keys.facing(self.facing),
            }
        }
    }
}

/// Moves the player for one frame of `delta_micros` microseconds.
///
/// With no direction asked for nothing happens, and that counts as a move
/// taken. Else the candidate position is the current one plus the
/// displacement the held keys ask for. If the candidate tile is blocked the
/// whole move is dropped; otherwise position and tile are both taken over.
/// The sprite turns toward the keys either way. Returns whether the move was
/// taken.
pub fn move_player(
    player: &mut Player,
    keys: HeldKeys,
    level_collisions: &LevelCollisions,
    delta_micros: u64,
) -> (accepted: bool)
    ensures
        accepted == old(player).may_move(keys, *level_collisions, delta_micros),
        *final(player) == old(player).after_move(keys, *level_collisions, delta_micros),
        accepted ==> final(player).translation.x == old(player).candidate_x(keys, delta_micros)
            && final(player).translation.y == old(player).candidate_y(keys, delta_micros),
        !accepted ==> final(player).translation == old(player).translation
            && final(player).grid_coords == old(player).grid_coords,
        keys.idle() ==> accepted && *final(player) == *old(player),
{
    let mut direction_x: i8 = 0;
    let mut direction_y: i8 = 0;
    let mut x_correction: i128 = 0;
    let mut y_correction: i128 = 0;

    if keys.left {
        direction_x = -1;
        x_correction = -(CORRECTION as i128);
        player.facing = Facing::Left;
    }
    if keys.right {
        direction_x = 1;
        x_correction = CORRECTION as i128;
        player.facing = Facing::Right;
    }
    if keys.up {
        direction_y = 1;
        y_correction = CORRECTION as i128;
        player.facing = Facing::Up;
    }
    if keys.down {
        direction_y = -1;
        y_correction = -(CORRECTION as i128);
        player.facing = Facing::Down;
    }
    if direction_x == 0 && direction_y == 0 {
        return true;
    }

    proof {
        speed_by_time(delta_micros as int);
    }
    let stride: i128 = if direction_x != 0 && direction_y != 0 {
        PLAYER_DIAGONAL_SPEED as i128 * delta_micros as i128
    } else {
        PLAYER_SPEED as i128 * delta_micros as i128
    };
    let new_x: i128 = player.translation.x as i128 + along(direction_x, stride);
    let new_y: i128 = player.translation.y as i128 + along(direction_y, stride);
    let new_grid_coords = GridCoords {
        x: wide_axis_to_cell(new_x + x_correction),
        y: wide_axis_to_cell(new_y + y_correction),
    };

    if !level_collisions.collision(&new_grid_coords) {
        proof {
            level_collisions.free_tile_is_inside(new_grid_coords);
        }
        player.grid_coords = new_grid_coords;
        player.translation = Position { x: new_x as i64, y: new_y as i64 };
        true
    } else {
        false
    }
}

/// `stride` in the direction `direction`.
fn along(direction: i8, stride: i128) -> (step: i128)
    requires
        0 <= stride <= 80 * 0x1_0000_0000_0000_0000,
    ensures
        step == if direction > 0 {
            stride as int
        } else if direction < 0 {
            -stride
        } else {
            0
        },
{
    if direction > 0 {
        stride
    } else if direction < 0 {
        -stride
    } else {
        0
    }
}

/// The two speeds, multiplied out.
proof fn speed_by_time(delta_micros: int)
    ensures
        PLAYER_SPEED * delta_micros == 80 * delta_micros,
        PLAYER_DIAGONAL_SPEED * delta_micros == 60 * delta_micros,
{
    let full = PLAYER_SPEED as int;
    let dampened = PLAYER_DIAGONAL_SPEED as int;
    assert(full * delta_micros == 80 * delta_micros) by (nonlinear_arith)
        requires
            full == 80,
    ;
    assert(dampened * delta_micros == 60 * delta_micros) by (nonlinear_arith)
        requires
            dampened == 60,
    ;
}

/// Along each axis the player never moves further in one frame than the full
/// speed allows, whatever keys are held.
pub proof fn displacement_within_axis_speed(keys: HeldKeys, delta_micros: u64)
    ensures
        -(PLAYER_SPEED * delta_micros) <= keys.displacement_x(delta_micros as int) <= PLAYER_SPEED
            * delta_micros,
        -(PLAYER_SPEED * delta_micros) <= keys.displacement_y(delta_micros as int) <= PLAYER_SPEED
            * delta_micros,
{
    speed_by_time(delta_micros as int);
}

/// With at most one axis active, or in a frame of no length, the player moves
/// no further than the full speed allows: the squared length of the
/// displacement is at most the square of speed times frame time.
pub proof fn displacement_within_speed(keys: HeldKeys, delta_micros: u64)
    requires
        !keys.diagonal() || delta_micros == 0,
    ensures
        keys.displacement_x(delta_micros as int) * keys.displacement_x(delta_micros as int)
            + keys.displacement_y(delta_micros as int) * keys.displacement_y(delta_micros as int)
            <= (PLAYER_SPEED * delta_micros) * (PLAYER_SPEED * delta_micros),
{
    speed_by_time(delta_micros as int);
    let x = keys.displacement_x(delta_micros as int);
    let y = keys.displacement_y(delta_micros as int);
    let reach = PLAYER_SPEED * delta_micros;
    assert(x * x + y * y <= reach * reach) by (nonlinear_arith)
        requires
            x == 0 || y == 0,
            -reach <= x <= reach,
            -reach <= y <= reach,
    ;
}

/// With both axes active the dampened speed of three quarters still carries
/// the player further than the full speed along one axis would: the squared
/// length of the displacement is nine eighths of the square of speed times
/// frame time.
pub proof fn diagonal_outruns_single_axis(keys: HeldKeys, delta_micros: u64)
    requires
        keys.diagonal(),
    ensures
        8 * (keys.displacement_x(delta_micros as int) * keys.displacement_x(delta_micros as int)
            + keys.displacement_y(delta_micros as int) * keys.displacement_y(
            delta_micros as int,
        )) == 9 * ((PLAYER_SPEED * delta_micros) * (PLAYER_SPEED * delta_micros)),
{
    speed_by_time(delta_micros as int);
    let x = keys.displacement_x(delta_micros as int);
    let y = keys.displacement_y(delta_micros as int);
    let reach = PLAYER_SPEED * delta_micros;
    let d = delta_micros as int;
    assert(8 * (x * x + y * y) == 9 * (reach * reach)) by (nonlinear_arith)
        requires
            x == 60 * d || x == -(60 * d),
            y == 60 * d || y == -(60 * d),
            reach == 80 * d,
    ;
}

/// The length of the hit cooldown, in nanoseconds.
pub open spec fn hit_cooldown_nanos() -> nat {
    (HIT_COOLDOWN_MILLIS * 1_000_000) as nat
}

/// The length of the portal delay, in nanoseconds.
pub open spec fn teleport_delay_nanos() -> nat {
    (TELEPORT_DELAY_MILLIS * 1_000_000) as nat
}

/// Health, keys and score of the player, with the two timers of the game.
pub struct PlayerStats {
    /// Health, in millionths of a point. It may fall below zero.
    pub health: i64,
    /// Keys collected in the current level.
    pub keys: usize,
    /// Counts the time since the last hit, up to the hit cooldown.
    pub hit_timer: Cooldown,
    /// Counts the time spent inside the portal, up to the portal delay.
    pub teleport_timer: Cooldown,
    /// Score, in points. It may fall below zero.
    pub score: i64,
}

/// What the player's statistics hold.
pub struct StatsView {
    pub health: int,
    pub keys: nat,
    pub score: int,
    pub hit_timer: CooldownView,
    pub teleport_timer: CooldownView,
}

impl View for PlayerStats {
    type V = StatsView;

    open spec fn view(&self) -> StatsView {
        StatsView {
            health: self.health as int,
            keys: self.keys as nat,
            score: self.score as int,
            hit_timer: self.hit_timer@,
            teleport_timer: self.teleport_timer@,
        }
    }
}

impl Default for PlayerStats {
    /// The statistics of a fresh player: full health, no keys, no score. Both
    /// timers start at zero, so the player cannot be hit during the first
    /// cooldown.
    fn default() -> (stats: PlayerStats)
        ensures
            stats@ == (StatsView {
                health: PLAYER_MAX_HEALTH as int,
                keys: 0,
                score: 0,
                hit_timer: CooldownView {
                    elapsed: 0,
                    duration: hit_cooldown_nanos(),
                    finished: false,
                },
                teleport_timer: CooldownView {
                    elapsed: 0,
                    duration: teleport_delay_nanos(),
                    finished: false,
                },
            }),
    {
        PlayerStats {
            health: PLAYER_MAX_HEALTH,
            keys: 0,
            score: 0,
            hit_timer: Cooldown::new(HIT_COOLDOWN_MILLIS),
            teleport_timer: Cooldown::new(TELEPORT_DELAY_MILLIS),
        }
    }
}

/// The health drained by one frame of `delta_micros` microseconds at level
/// index `level`: two and a half points per second at level zero, divided by
/// the level number, rounded down to a whole health unit.
pub open spec fn health_decay(delta_micros: int, level: int) -> int {
    (5 * delta_micros) / (2 * (level + 1))
}

/// Whether a cow stands on the player's tile.
pub open spec fn cow_contact(player_grid_pos: Option<GridCoords>, cows: Seq<Position>) -> bool {
    player_grid_pos matches Some(coords) && exists|i: int|
        0 <= i < cows.len() && cell_of((#[trigger] cows[i]).x as int, cows[i].y as int) == coords
}

impl StatsView {
    /// Whether a contact in a frame of `delta_micros` microseconds hurts: the
    /// cooldown is over by the end of the frame.
    pub open spec fn hit_lands(self, delta_micros: int) -> bool {
        self.hit_timer.ticked(delta_micros).finished
    }

    /// The statistics after one frame of `delta_micros` microseconds at level
    /// index `level`, with or without a cow on the player's tile.
    pub open spec fn after_frame(self, delta_micros: int, contact: bool, level: int) -> StatsView {
        let hit = contact && self.hit_lands(delta_micros);
        StatsView {
            health: saturate_i64(
                self.health - (if hit {
                    COW_HEALTH_HIT as int
                } else {
                    0
                }) - health_decay(delta_micros, level),
            ),
            score: saturate_i64(
                self.score - (if hit {
                    COW_SCORE_HIT as int
                } else {
                    0
                }),
            ),
            hit_timer: if hit {
                self.hit_timer.ticked(delta_micros).reset()
            } else {
                self.hit_timer.ticked(delta_micros)
            },
            ..self
        }
    }
}

/// Accounts for one frame of `delta_micros` microseconds at level index
/// `level`.
///
/// The hit timer advances. If a cow of `cows` stands on the player's tile and
/// the cooldown is over, the player is hit once: health and score drop and the
/// cooldown starts again, so that no second cow hits in the same frame. Then
/// health drains by the decay of the level. Without a player there is no
/// contact, only decay. Health and score stop at the ends of the `i64` range.
/// Returns whether the player was hit.
pub fn update_player_stats(
    player_stats: &mut PlayerStats,
    delta_micros: u64,
    player_grid_pos: Option<GridCoords>,
    cows: &Vec<Position>,
    level: usize,
) -> (hit: bool)
    ensures
        hit == (cow_contact(player_grid_pos, cows@) && old(player_stats)@.hit_lands(
            delta_micros as int,
        )),
        final(player_stats)@ == old(player_stats)@.after_frame(
            delta_micros as int,
            cow_contact(player_grid_pos, cows@),
            level as int,
        ),
{
    player_stats.hit_timer.tick(delta_micros);

    let mut hit = false;
    if let Some(coords) = player_grid_pos {
        let mut i: usize = 0;
        while i < cows.len()
            invariant
                i <= cows.len(),
                player_grid_pos == Some(coords),
                player_stats.keys == old(player_stats).keys,
                player_stats.teleport_timer == old(player_stats).teleport_timer,
                hit == (old(player_stats)@.hit_lands(delta_micros as int) && exists|j: int|
                    0 <= j < i && cell_of((#[trigger] cows@[j]).x as int, cows@[j].y as int)
                        == coords),
                player_stats.hit_timer@ == if hit {
                    old(player_stats)@.hit_timer.ticked(delta_micros as int).reset()
                } else {
                    old(player_stats)@.hit_timer.ticked(delta_micros as int)
                },
                player_stats.health as int == saturate_i64(
                    old(player_stats).health - if hit {
                        COW_HEALTH_HIT as int
                    } else {
                        0
                    },
                ),
                player_stats.score as int == saturate_i64(
                    old(player_stats).score - if hit {
                        COW_SCORE_HIT as int
                    } else {
                        0
                    },
                ),
            decreases cows.len() - i,
        {
            let cow_grid_pos = translation_to_grid_coords(cows[i]);
            if coords == cow_grid_pos && player_stats.hit_timer.finished() {
                player_stats.score = saturating(player_stats.score as i128 - COW_SCORE_HIT as i128);
                player_stats.health = saturating(
                    player_stats.health as i128 - COW_HEALTH_HIT as i128,
                );
                player_stats.hit_timer.reset();
                hit = true;
            }
            i += 1;
        }
    }

    let decay: u128 = (5 * delta_micros as u128) / (2 * (level as u128 + 1));
    player_stats.health = saturating(player_stats.health as i128 - decay as i128);
    hit
}

/// The drain is the whole part of five times the frame time over twice the
/// level number: multiplied back, it misses that product by less than the
/// divisor.
pub proof fn decay_is_the_whole_quotient(delta_micros: u64, level: usize)
    ensures
        ({
            let drain = health_decay(delta_micros as int, level as int);
            let divisor = 2 * (level + 1);
            drain * divisor <= 5 * delta_micros < (drain + 1) * divisor
        }),
{
    let total = 5 * delta_micros;
    let divisor = 2 * (level + 1);
    let drain = total / divisor;
    let rest = total % divisor;
    lemma_fundamental_div_mod(total, divisor);
    lemma_mod_bound(total, divisor);
    assert(drain * divisor <= total < (drain + 1) * divisor) by (nonlinear_arith)
        requires
            total == divisor * drain + rest,
            0 <= rest < divisor,
    ;
}

/// For a fixed frame time, a higher level index never drains more health than
/// a lower one.
pub proof fn decay_shrinks_with_level(delta_micros: u64, lower: usize, higher: usize)
    requires
        lower <= higher,
    ensures
        0 <= health_decay(delta_micros as int, higher as int) <= health_decay(
            delta_micros as int,
            lower as int,
        ),
{
    lemma_div_is_ordered_by_denominator(5 * delta_micros, 2 * (lower + 1), 2 * (higher + 1));
}

/// Where no time passes, or the level is the same, the drain is the same:
/// only there does a higher level index drain at least as much as a lower one.
pub proof fn decay_grows_only_at_rest(delta_micros: u64, lower: usize, higher: usize)
    requires
        lower <= higher,
        delta_micros == 0 || lower == higher,
    ensures
        health_decay(delta_micros as int, lower as int) <= health_decay(
            delta_micros as int,
            higher as int,
        ),
{
}

/// A hit starts the cooldown over. Of two frames with a cow on the player's
/// tile, the first of which hurts, the second hurts exactly when it lasts at
/// least the hit cooldown: then health has dropped by two hits, else by one.
pub proof fn second_contact_waits_for_cooldown(
    stats: StatsView,
    first_delta: u64,
    second_delta: u64,
    level: usize,
)
    requires
        stats.hit_lands(first_delta as int),
    ensures
        ({
            let once = stats.after_frame(first_delta as int, true, level as int);
            let twice = once.after_frame(second_delta as int, true, level as int);
            let waited = second_delta * 1_000 >= stats.hit_timer.duration;
            &&& once.hit_timer == stats.hit_timer.ticked(first_delta as int).reset()
            &&& once.health == saturate_i64(
                stats.health - COW_HEALTH_HIT - health_decay(first_delta as int, level as int),
            )
            &&& once.hit_lands(second_delta as int) == waited
            &&& twice.health == saturate_i64(
                once.health - (if waited {
                    COW_HEALTH_HIT as int
                } else {
                    0
                }) - health_decay(second_delta as int, level as int),
            )
        }),
{
}

} // verus!
