//! The whole game as one value, and the frame that moves it on.
//!
//! A frame works through the rules in a fixed order: the pause and music
//! keys; then, while the game runs, movement, pickups, the goal and the level
//! shortcut; then the portal, while the game runs or the player is inside it;
//! then, while the game runs, the patrols, the player's statistics and the
//! end of the run. Every rule sees the mode the frame began in; the mode
//! changes when the frame is over.

use vstd::prelude::*;
use crate::collisions::{cache_collision_locations, LevelCollisions};
use crate::consts::{BRONZE_SCORE, GRID_SIZE, PLAYER_MAX_HEALTH};
use crate::coords::{GridCoords, Position};
use crate::enemies::{herd_wf, patrol, translations, walked_all, Cow};
use crate::gameplay::{
    carried, check_cheats, check_game_over, check_goal, check_portal_entry, portal_engaged,
    stands_on, toggle_music, toggle_state, toggle_asked, toggled, GameState, MusicCommand,
};
use crate::items::{check_bronze, check_carrots, check_keys, healed, left_by, taken_by, Item};
use crate::math::{saturate_i64, saturate_usize, truncated_quotient};
use crate::player::{
    cow_contact, hit_cooldown_nanos, move_player, teleport_delay_nanos, update_player_stats,
    HeldKeys, Player, PlayerStats, StatsView,
};
use crate::timer::CooldownView;

verus! {

/// What the keyboard reports for one frame.
#[derive(Clone, Copy, Debug, PartialEq, Eq, Structural, Hash)]
pub struct Input {
    /// The directions held.
    pub keys: HeldKeys,
    /// Whether the P key was let go in this frame.
    pub key_p_released: bool,
    /// Whether the space bar was let go in this frame.
    pub space_released: bool,
    /// Whether the M key was pressed in this frame.
    pub key_m_pressed: bool,
    /// Whether the right control key was let go in this frame.
    pub control_right_released: bool,
    /// Whether the L key was let go in this frame.
    pub key_l_released: bool,
}

/// The game: its mode, the level and everything alive in it.
pub struct World {
    /// The mode of the game.
    pub state: GameState,
    /// The index of the level, counted from zero.
    pub level: usize,
    /// The walls and bounds of the level.
    pub level_collisions: LevelCollisions,
    /// The player, where there is one.
    pub player: Option<Player>,
    /// Whether the player's tile has changed since pickups and goal last
    /// looked at it.
    pub tile_changed: bool,
    /// Health, keys and score of the player, and the two timers.
    pub player_stats: PlayerStats,
    /// The enemies.
    pub cows: Vec<Cow>,
    /// The keys still lying in the level.
    pub keys: Vec<Item>,
    /// The carrots still lying in the level.
    pub carrots: Vec<Item>,
    /// The bronze still lying in the level.
    pub bronze: Vec<Item>,
    /// The goal of the level, where there is one.
    pub goal: Option<GridCoords>,
    /// The entry of the portal, where there is one.
    pub portal_entry: Option<GridCoords>,
    /// The exit of the portal, where there is one.
    pub portal_exit: Option<GridCoords>,
    /// Whether the background music is paused, where there is any.
    pub music_paused: Option<bool>,
}

/// What happened in one frame, for sound and display to follow.
pub struct Frame {
    /// The items that left the level: keys first, then carrots, then bronze.
    /// Each one makes a pickup sound.
    pub picked: Vec<Item>,
    /// Whether a cow hit the player.
    pub hit: bool,
    /// Whether the player came out of the portal.
    pub teleported: bool,
    /// Whether the level was completed.
    pub level_completed: bool,
    /// Whether the run was lost.
    pub lost: bool,
}

/// What a `World` holds, apart from its collision map.
pub struct WorldView {
    pub state: GameState,
    pub level: usize,
    pub player: Option<Player>,
    pub tile_changed: bool,
    pub stats: StatsView,
    pub cows: Seq<Cow>,
    pub keys: Seq<Item>,
    pub carrots: Seq<Item>,
    pub bronze: Seq<Item>,
    pub goal: Option<GridCoords>,
    pub portal_entry: Option<GridCoords>,
    pub portal_exit: Option<GridCoords>,
    pub music_paused: Option<bool>,
}

/// A world after a frame, with what happened in the frame.
pub struct Outcome {
    pub world: WorldView,
    pub picked: Seq<Item>,
    pub hit: bool,
    pub teleported: bool,
    pub level_completed: bool,
    pub lost: bool,
}

impl View for World {
    type V = WorldView;

    open spec fn view(&self) -> WorldView {
        WorldView {
            state: self.state,
            level: self.level,
            player: self.player,
            tile_changed: self.tile_changed,
            stats: self.player_stats@,
            cows: self.cows@,
            keys: self.keys@,
            carrots: self.carrots@,
            bronze: self.bronze@,
            goal: self.goal,
            portal_entry: self.portal_entry,
            portal_exit: self.portal_exit,
            music_paused: self.music_paused,
        }
    }
}

/// Whether the music is paused after `command`, where there is any.
pub open spec fn music_after(command: MusicCommand, music_paused: Option<bool>) -> Option<bool> {
    match music_paused {
        None => None,
        Some(paused) => Some(
            match command {
                MusicCommand::Keep => paused,
                MusicCommand::Play => false,
                MusicCommand::Pause => true,
                MusicCommand::Toggle => !paused,
            },
        ),
    }
}

impl MusicCommand {
    /// Whether the music is paused after this command, where there is any.
    pub fn apply(self, music_paused: Option<bool>) -> (after: Option<bool>)
        ensures
            after == music_after(self, music_paused),
    {
        match music_paused {
            None => None,
            Some(paused) => Some(
                match self {
                    MusicCommand::Keep => paused,
                    MusicCommand::Play => false,
                    MusicCommand::Pause => true,
                    MusicCommand::Toggle => !paused,
                },
            ),
        }
    }
}

impl WorldView {
    /// Whether the pause key changes the mode in this frame.
    pub open spec fn pause_answers(self, input: Input) -> bool {
        toggle_asked(input.key_p_released, input.space_released) && self.music_paused is Some
    }

    /// The mode the pause key asks for, if it asks for one.
    pub open spec fn asked(self, input: Input) -> Option<GameState> {
        if self.pause_answers(input) {
            toggled(self.state, self.music_paused->Some_0).next_state
        } else {
            None
        }
    }

    /// The world after the pause key and the music key were read: only the
    /// music may have changed.
    pub open spec fn switched(self, input: Input) -> WorldView {
        let by_pause = if self.pause_answers(input) {
            music_after(toggled(self.state, self.music_paused->Some_0).music, self.music_paused)
        } else {
            self.music_paused
        };
        WorldView {
            music_paused: if input.key_m_pressed {
                music_after(MusicCommand::Toggle, by_pause)
            } else {
                by_pause
            },
            ..self
        }
    }

    /// The world after the player moved against `level_collisions`.
    pub open spec fn moved(
        self,
        level_collisions: LevelCollisions,
        keys: HeldKeys,
        delta_micros: u64,
    ) -> WorldView {
        match self.player {
            Some(player) => {
                let after = player.after_move(keys, level_collisions, delta_micros);
                WorldView {
                    player: Some(after),
                    tile_changed: self.tile_changed || after.grid_coords != player.grid_coords,
                    ..self
                }
            },
            None => self,
        }
    }

    /// The player's tile, if it has changed since pickups and goal last
    /// looked at it.
    pub open spec fn seen(self) -> Option<GridCoords> {
        match self.player {
            Some(player) if self.tile_changed => Some(player.grid_coords),
            _ => None,
        }
    }

    /// The items picked up from the player's tile: keys, carrots, bronze.
    pub open spec fn picked(self) -> Seq<Item> {
        self.keys.filter(taken_by(self.seen())) + self.carrots.filter(taken_by(self.seen()))
            + self.bronze.filter(taken_by(self.seen()))
    }

    /// The world after the items on the player's tile were picked up.
    pub open spec fn gathered(self) -> WorldView {
        let tile = self.seen();
        WorldView {
            keys: self.keys.filter(left_by(tile)),
            carrots: self.carrots.filter(left_by(tile)),
            bronze: self.bronze.filter(left_by(tile)),
            stats: StatsView {
                keys: saturate_usize(
                    (self.stats.keys + self.keys.filter(taken_by(tile)).len()) as int,
                ) as nat,
                health: healed(self.stats.health, self.carrots.filter(taken_by(tile)).len()),
                score: saturate_i64(
                    self.stats.score + self.bronze.filter(taken_by(tile)).len() * BRONZE_SCORE,
                ),
                ..self.stats
            },
            ..self
        }
    }

    /// Whether the player, on the tile `tile`, completes the level.
    pub open spec fn completes(self, tile: Option<GridCoords>) -> bool {
        stands_on(tile, self.goal) && self.stats.keys == self.level + 1
    }

    /// The world after the goal was looked at with the player on `tile`.
    pub open spec fn goal_checked(self, tile: Option<GridCoords>) -> WorldView {
        if self.completes(tile) {
            WorldView {
                level: (self.level + 1) as usize,
                stats: StatsView { keys: 0, health: PLAYER_MAX_HEALTH as int, ..self.stats },
                ..self
            }
        } else {
            self
        }
    }

    /// The world after the level shortcut was read.
    pub open spec fn cheated(self, input: Input) -> WorldView {
        if input.control_right_released && input.key_l_released && self.level < usize::MAX {
            WorldView { level: (self.level + 1) as usize, ..self }
        } else {
            self
        }
    }

    /// Whether the portal takes hold of the player in this frame.
    pub open spec fn engaged(self) -> bool {
        self.player matches Some(player) && portal_engaged(
            self.state,
            player,
            self.portal_entry,
            self.portal_exit,
        )
    }

    /// What the portal timer shows at the end of a frame in which the portal
    /// holds the player.
    pub open spec fn counted(self, delta_micros: u64) -> CooldownView {
        self.stats.teleport_timer.ticked(delta_micros as int)
    }

    /// Whether the player comes out of the portal in this frame.
    pub open spec fn arrives(self, delta_micros: u64) -> bool {
        self.engaged() && self.counted(delta_micros).finished
    }

    /// The world after the portal was worked on.
    pub open spec fn through_portal(self, delta_micros: u64) -> WorldView {
        if self.engaged() {
            WorldView {
                player: Some(
                    carried(
                        self.player->Some_0,
                        self.portal_exit->Some_0,
                        self.arrives(delta_micros),
                    ),
                ),
                tile_changed: self.tile_changed || self.arrives(delta_micros),
                stats: StatsView {
                    teleport_timer: if self.arrives(delta_micros) {
                        self.counted(delta_micros).reset()
                    } else {
                        self.counted(delta_micros)
                    },
                    ..self.stats
                },
                ..self
            }
        } else {
            self
        }
    }

    /// The world after every enemy walked for one frame.
    pub open spec fn patrolled(self, delta_micros: u64) -> WorldView {
        WorldView { cows: walked_all(self.cows, delta_micros as int), ..self }
    }

    /// The player's tile, for the cows to find.
    pub open spec fn player_tile(self) -> Option<GridCoords> {
        match self.player {
            Some(player) => Some(player.grid_coords),
            None => None,
        }
    }

    /// Whether a cow stands on the player's tile.
    pub open spec fn contact(self) -> bool {
        cow_contact(self.player_tile(), translations(self.cows))
    }

    /// The world after the player's statistics were brought up to date.
    pub open spec fn drained(self, delta_micros: u64) -> WorldView {
        WorldView {
            stats: self.stats.after_frame(delta_micros as int, self.contact(), self.level as int),
            ..self
        }
    }

    /// The world as gameplay leaves it: after movement, pickups, goal and
    /// shortcut, in this order.
    pub open spec fn played(
        self,
        level_collisions: LevelCollisions,
        input: Input,
        delta_micros: u64,
    ) -> WorldView {
        let moved = self.moved(level_collisions, input.keys, delta_micros);
        let gathered = WorldView { tile_changed: false, ..moved.gathered() };
        gathered.goal_checked(moved.seen()).cheated(input)
    }

    /// The world after one frame of `delta_micros` microseconds with `input`,
    /// and what happened in it.
    pub open spec fn tick(
        self,
        level_collisions: LevelCollisions,
        input: Input,
        delta_micros: u64,
    ) -> Outcome {
        let switched = self.switched(input);
        let running = self.state == GameState::Running;
        let moved = switched.moved(level_collisions, input.keys, delta_micros);
        let played = if running {
            switched.played(level_collisions, input, delta_micros)
        } else {
            switched
        };
        let carried = played.through_portal(delta_micros);
        let settled = if running {
            carried.patrolled(delta_micros).drained(delta_micros)
        } else {
            carried
        };
        let lost = running && settled.stats.health <= 0;
        Outcome {
            world: WorldView {
                state: if lost {
                    GameState::GameOver
                } else if played.engaged() {
                    if played.arrives(delta_micros) {
                        GameState::Running
                    } else {
                        GameState::Teleporting
                    }
                } else {
                    match self.asked(input) {
                        Some(state) => state,
                        None => self.state,
                    }
                },
                music_paused: if lost {
                    music_after(MusicCommand::Pause, settled.music_paused)
                } else {
                    settled.music_paused
                },
                ..settled
            },
            picked: if running {
                moved.picked()
            } else {
                Seq::empty()
            },
            hit: running && carried.patrolled(delta_micros).contact() && carried.stats.hit_lands(
                delta_micros as int,
            ),
            teleported: played.arrives(delta_micros),
            level_completed: running && moved.gathered().completes(moved.seen()),
            lost,
        }
    }
}

impl World {
    /// Every route is in reach.
    pub open spec fn wf(&self) -> bool {
        herd_wf(self.cows@)
    }

    /// The game before it starts: in the menu, at the first level, with a
    /// fresh player's statistics and nothing loaded.
    pub fn new() -> (world: World)
        ensures
            world.wf(),
            world.level_collisions.walls() == Set::<GridCoords>::empty(),
            world.level_collisions.width() == 0,
            world.level_collisions.height() == 0,
            world@ == (WorldView {
                state: GameState::Menu,
                level: 0,
                player: None,
                tile_changed: false,
                stats: StatsView {
                    health: PLAYER_MAX_HEALTH as int,
                    keys: 0,
                    score: 0,
                    hit_timer: CooldownView {
                        elapsed: 0,
                        duration: hit_cooldown_nanos(),
                        finished: false,
                    },
                    teleport_timer: CooldownView {
                        elapsed: 0,
                        duration: teleport_delay_nanos(),
                        finished: false,
                    },
                },
                cows: Seq::empty(),
                keys: Seq::empty(),
                carrots: Seq::empty(),
                bronze: Seq::empty(),
                goal: None,
                portal_entry: None,
                portal_exit: None,
                music_paused: None,
            }),
    {
        World {
            state: GameState::Menu,
            level: 0,
            level_collisions: LevelCollisions::default(),
            player: None,
            tile_changed: false,
            player_stats: PlayerStats::default(),
            cows: Vec::new(),
            keys: Vec::new(),
            carrots: Vec::new(),
            bronze: Vec::new(),
            goal: None,
            portal_entry: None,
            portal_exit: None,
            music_paused: None,
        }
    }
}

/// Puts a freshly spawned level of `px_wid` by `px_hei` pixels into the
/// world: its walls on `cells`, and everything alive in it. What the last
/// level held is dropped. Mode, level index, statistics and music stay; the
/// player's tile counts as changed.
pub fn spawn_level(
    world: &mut World,
    cells: &Vec<GridCoords>,
    px_wid: i32,
    px_hei: i32,
    player: Option<Player>,
    cows: Vec<Cow>,
    keys: Vec<Item>,
    carrots: Vec<Item>,
    bronze: Vec<Item>,
    goal: Option<GridCoords>,
    portal_entry: Option<GridCoords>,
    portal_exit: Option<GridCoords>,
)
    requires
        herd_wf(cows@),
    ensures
        final(world).wf(),
        final(world).level_collisions.walls() == cells@.to_set(),
        final(world).level_collisions.width() == truncated_quotient(
            px_wid as int,
            GRID_SIZE as int,
        ),
        final(world).level_collisions.height() == truncated_quotient(
            px_hei as int,
            GRID_SIZE as int,
        ),
        final(world)@ == (WorldView {
            player,
            tile_changed: true,
            cows: cows@,
            keys: keys@,
            carrots: carrots@,
            bronze: bronze@,
            goal,
            portal_entry,
            portal_exit,
            ..old(world)@
        }),
{
    cache_collision_locations(&mut world.level_collisions, cells, px_wid, px_hei);
    world.player = player;
    world.tile_changed = true;
    world.cows = cows;
    world.keys = keys;
    world.carrots = carrots;
    world.bronze = bronze;
    world.goal = goal;
    world.portal_entry = portal_entry;
    world.portal_exit = portal_exit;
}

/// Where the enemies stand.
fn positions_of(cows: &Vec<Cow>) -> (positions: Vec<Position>)
    ensures
        positions@ == translations(cows@),
{
    let mut positions: Vec<Position> = Vec::new();
    let mut i: usize = 0;
    while i < cows.len()
        invariant
            i <= cows.len(),
            positions@.len() == i,
            forall|j: int| 0 <= j < i ==> positions@[j] == (#[trigger] cows@[j]).translation,
        decreases cows.len() - i,
    {
        positions.push(cows[i].translation);
        i += 1;
    }
    assert(positions@ =~= translations(cows@));
    positions
}

/// Reads the pause key and the music key. Returns the mode the pause key
/// asks for.
fn switch(world: &mut World, input: Input) -> (asked: Option<GameState>)
    ensures
        final(world)@ == old(world)@.switched(input),
        asked == old(world)@.asked(input),
        final(world).level_collisions == old(world).level_collisions,
{
    let switch = toggle_state(
        input.key_p_released,
        input.space_released,
        world.state,
        world.music_paused,
    );
    world.music_paused = switch.music.apply(world.music_paused);
    let music = toggle_music(input.key_m_pressed, world.music_paused);
    world.music_paused = music.apply(world.music_paused);
    switch.next_state
}

/// Moves the player and lets pickups, goal and shortcut follow. Returns the
/// items picked up and whether the level was completed.
fn play(world: &mut World, input: Input, delta_micros: u64) -> (found: (Vec<Item>, bool))
    ensures
        final(world)@ == old(world)@.played(old(world).level_collisions, input, delta_micros),
        found.0@ == old(world)@.moved(
            old(world).level_collisions,
            input.keys,
            delta_micros,
        ).picked(),
        found.1 == ({
            let moved = old(world)@.moved(old(world).level_collisions, input.keys, delta_micros);
            moved.gathered().completes(moved.seen())
        }),
        final(world).level_collisions == old(world).level_collisions,
{
    let mut tile: Option<GridCoords> = None;
    if let Some(mut player) = world.player {
        let before = player.grid_coords;
        move_player(&mut player, input.keys, &world.level_collisions, delta_micros);
        if player.grid_coords != before {
            world.tile_changed = true;
        }
        world.player = Some(player);
        if world.tile_changed {
            tile = Some(player.grid_coords);
        }
    }
    let ghost moved = world@;
    assert(tile == moved.seen());

    world.tile_changed = false;
    let mut picked = check_keys(tile, &mut world.keys, &mut world.player_stats);
    let mut carrots = check_carrots(tile, &mut world.carrots, &mut world.player_stats);
    let mut bronze = check_bronze(tile, &mut world.bronze, &mut world.player_stats);
    picked.append(&mut carrots);
    picked.append(&mut bronze);
    assert(world@ == (WorldView { tile_changed: false, ..moved.gathered() }));

    let completed = check_goal(tile, world.goal, &mut world.player_stats, &mut world.level);
    check_cheats(input.control_right_released, input.key_l_released, &mut world.level);
    (picked, completed)
}

/// Works on the portal. Returns the mode the portal asks for, if it holds
/// the player, and whether the player came out of it.
fn pass_portal(world: &mut World, delta_micros: u64) -> (through: (Option<GameState>, bool))
    ensures
        final(world)@ == old(world)@.through_portal(delta_micros),
        through.0 == if old(world)@.engaged() {
            Some(
                if old(world)@.arrives(delta_micros) {
                    GameState::Running
                } else {
                    GameState::Teleporting
                },
            )
        } else {
            None
        },
        through.1 == old(world)@.arrives(delta_micros),
        final(world).level_collisions == old(world).level_collisions,
{
    if let Some(mut player) = world.player {
        let on_entry = match world.portal_entry {
            Some(entry) => entry == player.grid_coords,
            None => false,
        };
        let engaged = world.state.runs_portal() && on_entry && world.portal_exit.is_some();
        let step = check_portal_entry(
            world.state,
            &mut player,
            world.portal_entry,
            world.portal_exit,
            &mut world.player_stats,
            delta_micros,
        );
        world.player = Some(player);
        if step.teleported {
            world.tile_changed = true;
        }
        if engaged {
            (Some(step.state), step.teleported)
        } else {
            (None, false)
        }
    } else {
        (None, false)
    }
}

/// Walks the enemies, brings the player's statistics up to date and looks
/// whether the run is lost. Returns whether the player was hit and whether
/// the run is lost.
fn settle(world: &mut World, delta_micros: u64) -> (harm: (bool, bool))
    requires
        old(world).wf(),
    ensures
        final(world).wf(),
        ({
            let settled = old(world)@.patrolled(delta_micros).drained(delta_micros);
            &&& harm.0 == (old(world)@.patrolled(delta_micros).contact() && old(
                world,
            )@.stats.hit_lands(delta_micros as int))
            &&& harm.1 == (settled.stats.health <= 0)
            &&& final(world)@ == (WorldView {
                music_paused: if harm.1 {
                    music_after(MusicCommand::Pause, settled.music_paused)
                } else {
                    settled.music_paused
                },
                ..settled
            })
        }),
        final(world).level_collisions == old(world).level_collisions,
{
    patrol(&mut world.cows, delta_micros);
    let positions = positions_of(&world.cows);
    let tile = match world.player {
        Some(player) => Some(player.grid_coords),
        None => None,
    };
    let hit = update_player_stats(
        &mut world.player_stats,
        delta_micros,
        tile,
        &positions,
        world.level,
    );
    let over = check_game_over(&world.player_stats, world.music_paused);
    let lost = over.next_state.is_some();
    if lost {
        world.music_paused = over.music.apply(world.music_paused);
    }
    (hit, lost)
}

/// Moves the game on by one frame of `delta_micros` microseconds.
///
/// The pause key and the music key are read in every mode. Movement,
/// pickups, the goal, the level shortcut, the patrols, the player's
/// statistics and the end of the run are worked on only while the game runs;
/// the portal also while the player is inside it. Pickups and goal look at
/// the player's tile only if it has changed since they last looked. The mode
/// changes at the end of the frame: to game over if the run was lost, else to
/// what the portal asks for, else to what the pause key asks for.
pub fn tick(world: &mut World, input: Input, delta_micros: u64) -> (frame: Frame)
    requires
        old(world).wf(),
    ensures
        final(world).wf(),
        final(world).level_collisions == old(world).level_collisions,
        ({
            let outcome = old(world)@.tick(old(world).level_collisions, input, delta_micros);
            &&& final(world)@ == outcome.world
            &&& frame.picked@ == outcome.picked
            &&& frame.hit == outcome.hit
            &&& frame.teleported == outcome.teleported
            &&& frame.level_completed == outcome.level_completed
            &&& frame.lost == outcome.lost
        }),
{
    let state = world.state;
    let running = state.runs_gameplay();
    let asked = switch(world, input);

    let mut picked: Vec<Item> = Vec::new();
    let mut level_completed = false;
    if running {
        let found = play(world, input, delta_micros);
        picked = found.0;
        level_completed = found.1;
    }
    let through = pass_portal(world, delta_micros);
    let mut hit = false;
    let mut lost = false;
    if running {
        let harm = settle(world, delta_micros);
        hit = harm.0;
        lost = harm.1;
    }

    world.state = if lost {
        GameState::GameOver
    } else {
        match through.0 {
            Some(next) => next,
            None => match asked {
                Some(next) => next,
                None => state,
            },
        }
    };
    Frame { picked, hit, teleported: through.1, level_completed, lost }
}

/// The level index never goes down.
pub proof fn level_never_decreases(
    world: WorldView,
    level_collisions: LevelCollisions,
    input: Input,
    delta_micros: u64,
)
    ensures
        world.tick(level_collisions, input, delta_micros).world.level >= world.level,
{
}

/// A lost run stays lost: no frame leads out of game over.
pub proof fn game_over_is_final(
    world: WorldView,
    level_collisions: LevelCollisions,
    input: Input,
    delta_micros: u64,
)
    requires
        world.state == GameState::GameOver,
    ensures
        world.tick(level_collisions, input, delta_micros).world.state == GameState::GameOver,
{
}

/// In the menu, while paused and after the end of the run, a frame changes
/// nothing but the music and the mode, and nothing happens in it.
pub proof fn idle_modes_leave_the_game_alone(
    world: WorldView,
    level_collisions: LevelCollisions,
    input: Input,
    delta_micros: u64,
)
    requires
        world.state != GameState::Running,
        world.state != GameState::Teleporting,
    ensures
        ({
            let outcome = world.tick(level_collisions, input, delta_micros);
            &&& outcome.world == (WorldView {
                state: outcome.world.state,
                music_paused: outcome.world.music_paused,
                ..world
            })
            &&& outcome.picked == Seq::<Item>::empty()
            &&& !outcome.hit
            &&& !outcome.teleported
            &&& !outcome.level_completed
            &&& !outcome.lost
        }),
{
}

/// While the player is inside the portal only the portal works: the level,
/// the enemies, the items and health, keys and score stay as they are.
pub proof fn teleporting_suspends_the_game(
    world: WorldView,
    level_collisions: LevelCollisions,
    input: Input,
    delta_micros: u64,
)
    requires
        world.state == GameState::Teleporting,
    ensures
        ({
            let after = world.tick(level_collisions, input, delta_micros).world;
            &&& after.level == world.level
            &&& after.cows == world.cows
            &&& after.keys == world.keys
            &&& after.carrots == world.carrots
            &&& after.bronze == world.bronze
            &&& after.stats.health == world.stats.health
            &&& after.stats.keys == world.stats.keys
            &&& after.stats.score == world.stats.score
            &&& after.stats.hit_timer == world.stats.hit_timer
            &&& after.state == GameState::Teleporting || after.state == GameState::Running
        }),
{
}

/// Health never rises above full health.
pub proof fn health_stays_within_full_health(
    world: WorldView,
    level_collisions: LevelCollisions,
    input: Input,
    delta_micros: u64,
)
    requires
        world.stats.health <= PLAYER_MAX_HEALTH,
    ensures
        world.tick(level_collisions, input, delta_micros).world.stats.health
            <= PLAYER_MAX_HEALTH,
{
}

} // verus!
