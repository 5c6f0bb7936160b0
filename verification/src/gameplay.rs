//! The modes of the game and the rules that move it from one to another:
//! pausing, the goal, the portal and the end of a run.

use vstd::prelude::*;
use crate::consts::PLAYER_MAX_HEALTH;
use crate::coords::{cell_centre, grid_coords_to_translation, GridCoords, Position};
use crate::player::{Facing, Player, PlayerStats, StatsView};

verus! {

/// The mode the game is in. Exactly one holds at any time.
#[derive(Clone, Copy, Debug, PartialEq, Eq, Structural, Hash)]
pub enum GameState {
    Menu,
    PauseMenu,
    Running,
    Teleporting,
    GameOver,
}

impl GameState {
    /// Whether movement, patrols, pickups, the goal, decay and the end of the
    /// run are worked on in this mode: only while the game runs.
    pub fn runs_gameplay(&self) -> (runs: bool)
        ensures
            runs == (*self == GameState::Running),
    {
        match self {
            GameState::Running => true,
            _ => false,
        }
    }

    /// Whether the portal is worked on in this mode: while the game runs and
    /// while the player is inside the portal.
    pub fn runs_portal(&self) -> (runs: bool)
        ensures
            runs == (*self == GameState::Running || *self == GameState::Teleporting),
    {
        match self {
            GameState::Running | GameState::Teleporting => true,
            _ => false,
        }
    }
}

/// What is asked of the background music.
#[derive(Clone, Copy, Debug, PartialEq, Eq, Structural, Hash)]
pub enum MusicCommand {
    /// Leave it as it is.
    Keep,
    /// Let it play.
    Play,
    /// Pause it.
    Pause,
    /// Pause it if it plays, let it play if it is paused.
    Toggle,
}

/// A change of mode, if any, with what it asks of the background music.
#[derive(Clone, Copy, Debug, PartialEq, Eq, Structural, Hash)]
pub struct Switch {
    pub next_state: Option<GameState>,
    pub music: MusicCommand,
}

/// Whether the player, having just changed tile, stands on the goal.
pub open spec fn stands_on(player_grid_pos: Option<GridCoords>, target: Option<GridCoords>) -> bool {
    player_grid_pos is Some && player_grid_pos == target
}

/// Completes the level if the player may leave it.
///
/// `player_grid_pos` is the player's tile if it changed in this frame. When it
/// is the goal and the player holds exactly as many keys as the level asks
/// for, one more than its index, the keys are used up, health is restored and
/// the level index goes up by one. In every other case nothing changes.
/// Returns whether the level was completed.
pub fn check_goal(
    player_grid_pos: Option<GridCoords>,
    goal: Option<GridCoords>,
    player_stats: &mut PlayerStats,
    level: &mut usize,
) -> (completed: bool)
    ensures
        completed == (stands_on(player_grid_pos, goal) && old(player_stats).keys == *old(level)
            + 1),
        completed ==> *final(player_stats) == (PlayerStats {
            keys: 0,
            health: PLAYER_MAX_HEALTH,
            ..*old(player_stats)
        }) && *final(level) == *old(level) + 1,
        !completed ==> *final(player_stats) == *old(player_stats) && *final(level) == *old(level),
{
    let on_goal = match (player_grid_pos, goal) {
        (Some(player), Some(target)) => player == target,
        _ => false,
    };
    if on_goal && *level < usize::MAX && player_stats.keys == *level + 1 {
        player_stats.keys = 0;
        player_stats.health = PLAYER_MAX_HEALTH;
        *level = *level + 1;
        true
    } else {
        false
    }
}

/// What one frame at the portal came to.
#[derive(Clone, Copy, Debug, PartialEq, Eq, Structural, Hash)]
pub struct PortalStep {
    /// The mode after the frame.
    pub state: GameState,
    /// Whether the player came out of the exit in this frame.
    pub teleported: bool,
}

/// Whether the portal takes hold of the player: the mode works on the portal,
/// the level has both ends of it, and the player stands on the entry.
pub open spec fn portal_engaged(
    state: GameState,
    player: Player,
    portal_entry: Option<GridCoords>,
    portal_exit: Option<GridCoords>,
) -> bool {
    &&& state == GameState::Running || state == GameState::Teleporting
    &&& portal_entry == Some(player.grid_coords)
    &&& portal_exit is Some
}

/// The player after a frame at the portal: looking down, and set on the
/// centre of the exit tile if the portal delay is over.
pub open spec fn carried(player: Player, portal_exit: GridCoords, arrived: bool) -> Player {
    if arrived {
        Player {
            translation: Position {
                x: cell_centre(portal_exit.x as int) as i64,
                y: cell_centre(portal_exit.y as int) as i64,
            },
            grid_coords: portal_exit,
            facing: Facing::Down,
        }
    } else {
        Player { facing: Facing::Down, ..player }
    }
}

/// Works on the portal for one frame of `delta_micros` microseconds.
///
/// While the player stands on the entry of a portal, the game is in the
/// teleporting mode, the sprite looks down and the portal timer counts the
/// frame times up. In the frame in which they reach the portal delay, the
/// player is set on the centre of the exit tile, the timer starts over and the
/// game runs again. Before that the player stays where it is. Standing on the
/// entry again while teleporting goes on with the same count. Where the portal
/// does not take hold, nothing changes.
pub fn check_portal_entry(
    state: GameState,
    player: &mut Player,
    portal_entry: Option<GridCoords>,
    portal_exit: Option<GridCoords>,
    player_stats: &mut PlayerStats,
    delta_micros: u64,
) -> (step: PortalStep)
    ensures
        !portal_engaged(state, *old(player), portal_entry, portal_exit) ==> {
            &&& step == (PortalStep { state, teleported: false })
            &&& *final(player) == *old(player)
            &&& *final(player_stats) == *old(player_stats)
        },
        portal_engaged(state, *old(player), portal_entry, portal_exit) ==> {
            let counted = old(player_stats)@.teleport_timer.ticked(delta_micros as int);
            &&& step.teleported == counted.finished
            &&& step.state == if step.teleported {
                GameState::Running
            } else {
                GameState::Teleporting
            }
            &&& *final(player) == carried(*old(player), portal_exit->Some_0, step.teleported)
            &&& final(player_stats)@ == (StatsView {
                teleport_timer: if step.teleported {
                    counted.reset()
                } else {
                    counted
                },
                ..old(player_stats)@
            })
        },
{
    if !state.runs_portal() {
        return PortalStep { state, teleported: false };
    }
    if let Some(entry) = portal_entry {
        if let Some(exit) = portal_exit {
            if player.grid_coords == entry {
                player.facing = Facing::Down;
                player_stats.teleport_timer.tick(delta_micros);

                if player_stats.teleport_timer.finished() {
                    player.translation = grid_coords_to_translation(exit);
                    player.grid_coords = exit;
                    player_stats.teleport_timer.reset();
                    return PortalStep { state: GameState::Running, teleported: true };
                }
                return PortalStep { state: GameState::Teleporting, teleported: false };
            }
        }
    }
    PortalStep { state, teleported: false }
}

/// Ends the run once the player's health is used up: at zero health or less
/// the game is over and the music, if it plays, is paused. `music_paused`
/// tells whether the music is paused, where there is any.
pub fn check_game_over(player_stats: &PlayerStats, music_paused: Option<bool>) -> (switch: Switch)
    ensures
        switch.next_state == if player_stats.health <= 0 {
            Some(GameState::GameOver)
        } else {
            None
        },
        switch.music == if player_stats.health <= 0 && music_paused == Some(false) {
            MusicCommand::Pause
        } else {
            MusicCommand::Keep
        },
{
    if player_stats.health <= 0 {
        let music = match music_paused {
            Some(false) => MusicCommand::Pause,
            _ => MusicCommand::Keep,
        };
        Switch { next_state: Some(GameState::GameOver), music }
    } else {
        Switch { next_state: None, music: MusicCommand::Keep }
    }
}

/// Whether the pause key was let go in this frame, on either of its bindings.
pub open spec fn toggle_asked(key_p_released: bool, space_released: bool) -> bool {
    key_p_released || space_released
}

/// What letting go of the pause key does in mode `state` while the music is
/// paused or not: the menu starts the game and the music, a running game is
/// paused with its music, a paused game goes on with its music. The other
/// modes do not answer.
pub open spec fn toggled(state: GameState, music_paused: bool) -> Switch {
    match state {
        GameState::Menu => Switch {
            next_state: Some(GameState::Running),
            music: MusicCommand::Play,
        },
        GameState::Running => Switch {
            next_state: Some(GameState::PauseMenu),
            music: if music_paused {
                MusicCommand::Keep
            } else {
                MusicCommand::Pause
            },
        },
        GameState::PauseMenu => Switch {
            next_state: Some(GameState::Running),
            music: if music_paused {
                MusicCommand::Play
            } else {
                MusicCommand::Keep
            },
        },
        _ => Switch { next_state: None, music: MusicCommand::Keep },
    }
}

/// Starts, pauses or resumes the game when the pause key is let go.
/// `music_paused` tells whether the music is paused, where there is any;
/// without music nothing happens.
pub fn toggle_state(
    key_p_released: bool,
    space_released: bool,
    state: GameState,
    music_paused: Option<bool>,
) -> (switch: Switch)
    ensures
        switch == if toggle_asked(key_p_released, space_released) && music_paused is Some {
            toggled(state, music_paused->Some_0)
        } else {
            Switch { next_state: None, music: MusicCommand::Keep }
        },
{
    if key_p_released || space_released {
        if let Some(paused) = music_paused {
            match state {
                GameState::Menu => {
                    return Switch {
                        next_state: Some(GameState::Running),
                        music: MusicCommand::Play,
                    };
                },
                GameState::Running => {
                    let music = if !paused {
                        MusicCommand::Pause
                    } else {
                        MusicCommand::Keep
                    };
                    return Switch { next_state: Some(GameState::PauseMenu), music };
                },
                GameState::PauseMenu => {
                    let music = if paused {
                        MusicCommand::Play
                    } else {
                        MusicCommand::Keep
                    };
                    return Switch { next_state: Some(GameState::Running), music };
                },
                _ => {},
            }
        }
    }
    Switch { next_state: None, music: MusicCommand::Keep }
}

/// Switches the music on or off when the music key was pressed in this frame
/// and there is music.
pub fn toggle_music(key_m_pressed: bool, music_paused: Option<bool>) -> (music: MusicCommand)
    ensures
        music == if key_m_pressed && music_paused is Some {
            MusicCommand::Toggle
        } else {
            MusicCommand::Keep
        },
{
    if key_m_pressed && music_paused.is_some() {
        MusicCommand::Toggle
    } else {
        MusicCommand::Keep
    }
}

/// Skips to the next level when both keys of the shortcut were let go in this
/// frame. The level index never goes down; at the largest index it stays.
pub fn check_cheats(control_right_released: bool, key_l_released: bool, level: &mut usize)
    ensures
        *final(level) == if control_right_released && key_l_released && *old(level) < usize::MAX {
            *old(level) + 1
        } else {
            *old(level) as int
        },
{
    if control_right_released && key_l_released {
        if *level < usize::MAX {
            *level = *level + 1;
        }
    }
}

} // verus!
