use glulands::collisions::LevelCollisions;
use glulands::consts::{
    PLAYER_ATLAS_INDEX_DOWN, PLAYER_ATLAS_INDEX_LEFT, PLAYER_ATLAS_INDEX_RIGHT,
    PLAYER_ATLAS_INDEX_UP,
};
use glulands::coords::{grid_coords_to_translation, GridCoords, Position};
use glulands::player::{move_player, update_player_stats, Facing, HeldKeys, Player, PlayerStats};

const NONE: HeldKeys = HeldKeys { left: false, right: false, up: false, down: false };
const LEFT: HeldKeys = HeldKeys { left: true, right: false, up: false, down: false };
const RIGHT: HeldKeys = HeldKeys { left: false, right: true, up: false, down: false };
const UP: HeldKeys = HeldKeys { left: false, right: false, up: true, down: false };
const DOWN: HeldKeys = HeldKeys { left: false, right: false, up: false, down: true };

fn player_on(x: i32, y: i32) -> Player {
    let grid_coords = GridCoords::new(x, y);
    Player { translation: grid_coords_to_translation(grid_coords), grid_coords, facing: Facing::Down }
}

fn level(walls: &[GridCoords]) -> LevelCollisions {
    LevelCollisions::new(&walls.to_vec(), 160, 160)
}

fn cow_on(x: i32, y: i32) -> Position {
    grid_coords_to_translation(GridCoords::new(x, y))
}

#[test]
fn a_move_into_a_wall_is_rejected() {
    let map = level(&[GridCoords::new(6, 5)]);
    let mut player = player_on(5, 5);
    let accepted = move_player(&mut player, RIGHT, &map, 16_667);
    assert!(!accepted);
    assert_eq!(player.grid_coords, GridCoords::new(5, 5));
    assert_eq!(player.translation, Position::new(88_000_000, 88_000_000));
}

#[test]
fn a_rejected_move_changes_nothing_however_often_it_is_tried() {
    let map = level(&[GridCoords::new(6, 5)]);
    let mut player = player_on(5, 5);
    for _ in 0..10 {
        assert!(!move_player(&mut player, RIGHT, &map, 16_667));
    }
    assert_eq!(player.grid_coords, GridCoords::new(5, 5));
    assert_eq!(player.translation, Position::new(88_000_000, 88_000_000));
}

#[test]
fn a_rejected_move_still_turns_the_sprite() {
    let map = level(&[GridCoords::new(6, 5)]);
    let mut player = player_on(5, 5);
    assert!(!move_player(&mut player, RIGHT, &map, 16_667));
    assert_eq!(player.facing, Facing::Right);
}

#[test]
fn a_free_move_is_taken_exactly() {
    let map = level(&[]);
    let mut player = player_on(5, 5);
    assert!(move_player(&mut player, RIGHT, &map, 16_667));
    assert_eq!(player.translation, Position::new(89_333_360, 88_000_000));
    assert_eq!(player.grid_coords, GridCoords::new(6, 5));
    assert_eq!(player.facing, Facing::Right);
}

#[test]
fn each_direction_moves_along_its_axis() {
    let map = level(&[]);
    let mut player = player_on(5, 5);
    assert!(move_player(&mut player, LEFT, &map, 1_000));
    assert_eq!(player.translation, Position::new(87_920_000, 88_000_000));
    assert_eq!(player.grid_coords, GridCoords::new(4, 5));
    let mut player = player_on(5, 5);
    assert!(move_player(&mut player, UP, &map, 1_000));
    assert_eq!(player.translation, Position::new(88_000_000, 88_080_000));
    assert_eq!(player.grid_coords, GridCoords::new(5, 6));
    let mut player = player_on(5, 5);
    assert!(move_player(&mut player, DOWN, &map, 1_000));
    assert_eq!(player.translation, Position::new(88_000_000, 87_920_000));
    assert_eq!(player.grid_coords, GridCoords::new(5, 4));
}

#[test]
fn the_correction_favours_the_tile_ahead() {
    let map = level(&[]);
    let mut player = Player {
        translation: Position::new(85_000_000, 88_000_000),
        grid_coords: GridCoords::new(5, 5),
        facing: Facing::Down,
    };
    assert!(move_player(&mut player, RIGHT, &map, 12_500));
    assert_eq!(player.translation, Position::new(86_000_000, 88_000_000));
    assert_eq!(player.grid_coords, GridCoords::new(6, 5));
    assert!(move_player(&mut player, NONE, &map, 12_500));
    assert_eq!(player.translation, Position::new(86_000_000, 88_000_000));
    assert_eq!(player.grid_coords, GridCoords::new(6, 5));
    assert!(move_player(&mut player, LEFT, &map, 0));
    assert_eq!(player.translation, Position::new(86_000_000, 88_000_000));
    assert_eq!(player.grid_coords, GridCoords::new(4, 5));
}

#[test]
fn diagonal_moves_are_dampened_on_both_axes() {
    let map = level(&[]);
    let mut player = player_on(5, 5);
    let keys = HeldKeys { left: false, right: true, up: true, down: false };
    assert!(move_player(&mut player, keys, &map, 10_000));
    assert_eq!(player.translation, Position::new(88_600_000, 88_600_000));
    assert_eq!(player.grid_coords, GridCoords::new(6, 6));
    let mut player = player_on(5, 5);
    let keys = HeldKeys { left: true, right: false, up: false, down: true };
    assert!(move_player(&mut player, keys, &map, 10_000));
    assert_eq!(player.translation, Position::new(87_400_000, 87_400_000));
}

#[test]
fn a_single_axis_move_stays_within_the_speed() {
    let map = level(&[]);
    for keys in [LEFT, RIGHT, UP, DOWN, NONE] {
        let mut player = player_on(5, 5);
        assert!(move_player(&mut player, keys, &map, 10_000));
        let dx = (player.translation.x - 88_000_000) as i128;
        let dy = (player.translation.y - 88_000_000) as i128;
        assert!(dx * dx + dy * dy <= 800_000 * 800_000);
    }
}

#[test]
fn a_diagonal_move_stays_within_the_speed_on_each_axis() {
    let map = level(&[]);
    let mut player = player_on(5, 5);
    let keys = HeldKeys { left: false, right: true, up: true, down: false };
    assert!(move_player(&mut player, keys, &map, 10_000));
    let dx = (player.translation.x - 88_000_000) as i128;
    let dy = (player.translation.y - 88_000_000) as i128;
    assert!(dx.abs() <= 800_000 && dy.abs() <= 800_000);
    assert_eq!(8 * (dx * dx + dy * dy), 9 * 800_000 * 800_000);
}

#[test]
fn right_wins_over_left_and_down_over_up() {
    let map = level(&[]);
    let mut player = player_on(5, 5);
    let keys = HeldKeys { left: true, right: true, up: false, down: false };
    assert!(move_player(&mut player, keys, &map, 1_000));
    assert_eq!(player.translation, Position::new(88_080_000, 88_000_000));
    assert_eq!(player.facing, Facing::Right);
    let mut player = player_on(5, 5);
    let keys = HeldKeys { left: false, right: false, up: true, down: true };
    assert!(move_player(&mut player, keys, &map, 1_000));
    assert_eq!(player.translation, Position::new(88_000_000, 87_920_000));
    assert_eq!(player.facing, Facing::Down);
}

#[test]
fn the_sprite_looks_toward_the_last_direction_read() {
    let map = level(&[]);
    let cases = [
        (HeldKeys { left: true, right: false, up: false, down: false }, Facing::Left),
        (HeldKeys { left: true, right: true, up: false, down: false }, Facing::Right),
        (HeldKeys { left: true, right: true, up: true, down: false }, Facing::Up),
        (HeldKeys { left: true, right: true, up: true, down: true }, Facing::Down),
        (HeldKeys { left: false, right: true, up: false, down: true }, Facing::Down),
    ];
    for (keys, facing) in cases {
        let mut player = player_on(5, 5);
        player.facing = Facing::Up;
        move_player(&mut player, keys, &map, 1_000);
        assert_eq!(player.facing, facing);
    }
}

#[test]
fn without_keys_the_player_stays() {
    let map = level(&[]);
    let mut player = player_on(5, 5);
    player.facing = Facing::Left;
    assert!(move_player(&mut player, NONE, &map, 16_667));
    assert_eq!(player.translation, Position::new(88_000_000, 88_000_000));
    assert_eq!(player.grid_coords, GridCoords::new(5, 5));
    assert_eq!(player.facing, Facing::Left);
}

#[test]
fn without_keys_even_a_walled_in_player_is_left_alone() {
    let map = level(&[GridCoords::new(5, 5)]);
    let mut player = player_on(5, 5);
    assert!(move_player(&mut player, NONE, &map, 16_667));
    assert_eq!(player, player_on(5, 5));
    let mut outside = player_on(-3, 12);
    assert!(move_player(&mut outside, NONE, &map, 16_667));
    assert_eq!(outside, player_on(-3, 12));
    let mut astray = Player {
        translation: Position::new(1, 2),
        grid_coords: GridCoords::new(7, 7),
        facing: Facing::Up,
    };
    assert!(move_player(&mut astray, NONE, &map, 16_667));
    assert_eq!(astray.translation, Position::new(1, 2));
    assert_eq!(astray.grid_coords, GridCoords::new(7, 7));
    assert_eq!(astray.facing, Facing::Up);
}

#[test]
fn a_frame_of_no_length_moves_nothing() {
    let map = level(&[]);
    let mut player = player_on(5, 5);
    assert!(move_player(&mut player, UP, &map, 0));
    assert_eq!(player.translation, Position::new(88_000_000, 88_000_000));
    assert_eq!(player.grid_coords, GridCoords::new(5, 6));
}

#[test]
fn the_level_bounds_stop_the_player() {
    let map = level(&[]);
    let mut player = player_on(9, 0);
    assert!(!move_player(&mut player, RIGHT, &map, 100_000));
    assert!(!move_player(&mut player, DOWN, &map, 200_000));
    assert_eq!(player.grid_coords, GridCoords::new(9, 0));
    assert_eq!(player.translation, Position::new(152_000_000, 8_000_000));
}

#[test]
fn the_longest_frame_is_rejected_without_harm() {
    let map = level(&[]);
    for keys in [LEFT, RIGHT, UP, DOWN] {
        let mut player = player_on(5, 5);
        assert!(!move_player(&mut player, keys, &map, u64::MAX));
        assert_eq!(player.translation, Position::new(88_000_000, 88_000_000));
    }
    let mut player = Player {
        translation: Position::new(i64::MAX, i64::MIN),
        grid_coords: GridCoords::new(0, 0),
        facing: Facing::Down,
    };
    assert!(!move_player(&mut player, HeldKeys { left: false, right: true, up: false, down: true }, &map, u64::MAX));
    assert_eq!(player.translation, Position::new(i64::MAX, i64::MIN));
}

#[test]
fn either_binding_holds_a_direction() {
    let keys = HeldKeys::new(true, false, false, true, false, false, false, false);
    assert_eq!(keys, HeldKeys { left: true, right: true, up: false, down: false });
    let keys = HeldKeys::new(false, false, false, false, true, false, false, true);
    assert_eq!(keys, HeldKeys { left: false, right: false, up: true, down: true });
    let keys = HeldKeys::new(false, false, false, false, false, false, false, false);
    assert_eq!(keys, NONE);
}

#[test]
fn each_facing_has_its_sprite() {
    assert_eq!(Facing::Left.atlas_index(), 452);
    assert_eq!(Facing::Right.atlas_index(), 644);
    assert_eq!(Facing::Up.atlas_index(), 257);
    assert_eq!(Facing::Down.atlas_index(), 68);
    assert_eq!(Facing::Left.atlas_index(), PLAYER_ATLAS_INDEX_LEFT);
    assert_eq!(Facing::Right.atlas_index(), PLAYER_ATLAS_INDEX_RIGHT);
    assert_eq!(Facing::Up.atlas_index(), PLAYER_ATLAS_INDEX_UP);
    assert_eq!(Facing::Down.atlas_index(), PLAYER_ATLAS_INDEX_DOWN);
}

#[test]
fn a_fresh_player_is_healthy_and_poor() {
    let stats = PlayerStats::default();
    assert_eq!(stats.health, 100_000_000);
    assert_eq!(stats.keys, 0);
    assert_eq!(stats.score, 0);
    assert!(!stats.hit_timer.finished());
    assert!(!stats.teleport_timer.finished());
}

#[test]
fn health_drains_with_time() {
    let mut stats = PlayerStats::default();
    assert!(!update_player_stats(&mut stats, 1_000_000, None, &Vec::new(), 0));
    assert_eq!(stats.health, 97_500_000);
    assert_eq!(stats.score, 0);
    assert_eq!(stats.keys, 0);
    assert!(!update_player_stats(&mut stats, 16_667, None, &Vec::new(), 0));
    assert_eq!(stats.health, 97_458_333);
}

#[test]
fn the_drain_is_divided_by_the_level_number() {
    let drained = |level: usize| {
        let mut stats = PlayerStats::default();
        update_player_stats(&mut stats, 1_000_000, None, &Vec::new(), level);
        100_000_000 - stats.health
    };
    assert_eq!(drained(0), 2_500_000);
    assert_eq!(drained(1), 1_250_000);
    assert_eq!(drained(2), 833_333);
    assert_eq!(drained(4), 500_000);
    assert_eq!(drained(usize::MAX), 0);
}

#[test]
fn a_higher_level_never_drains_more() {
    let drained = |level: usize, delta: u64| {
        let mut stats = PlayerStats::default();
        update_player_stats(&mut stats, delta, None, &Vec::new(), level);
        100_000_000 - stats.health
    };
    for delta in [0, 1, 7, 16_667, 250_000, 1_000_000] {
        for level in 0..20 {
            assert!(drained(level + 1, delta) <= drained(level, delta));
        }
        assert_eq!(drained(3, delta), drained(3, delta));
    }
    assert_eq!(drained(0, 0), drained(9, 0));
}

#[test]
fn contacts_within_the_cooldown_hurt_once() {
    let mut stats = PlayerStats::default();
    let player = Some(GridCoords::new(1, 1));
    let cows = vec![cow_on(1, 1)];
    assert!(update_player_stats(&mut stats, 250_000, player, &cows, 0));
    assert_eq!(stats.health, 79_375_000);
    assert_eq!(stats.score, -100);
    assert!(!update_player_stats(&mut stats, 100_000, player, &cows, 0));
    assert_eq!(stats.health, 79_125_000);
    assert!(!update_player_stats(&mut stats, 149_999, player, &cows, 0));
    assert_eq!(stats.health, 78_750_003);
    assert_eq!(stats.score, -100);
}

#[test]
fn contacts_a_cooldown_apart_hurt_twice() {
    let mut stats = PlayerStats::default();
    let player = Some(GridCoords::new(1, 1));
    let cows = vec![cow_on(1, 1)];
    assert!(update_player_stats(&mut stats, 250_000, player, &cows, 0));
    assert!(!update_player_stats(&mut stats, 100_000, player, &cows, 0));
    assert!(!update_player_stats(&mut stats, 100_000, player, &cows, 0));
    assert!(update_player_stats(&mut stats, 50_000, player, &cows, 0));
    assert_eq!(stats.health, 58_750_000);
    assert_eq!(stats.score, -200);
}

#[test]
fn a_single_long_frame_after_a_hit_hurts_again() {
    let mut stats = PlayerStats::default();
    let player = Some(GridCoords::new(1, 1));
    let cows = vec![cow_on(1, 1)];
    assert!(update_player_stats(&mut stats, 250_000, player, &cows, 4));
    assert_eq!(stats.health, 79_875_000);
    assert!(update_player_stats(&mut stats, 250_000, player, &cows, 4));
    assert_eq!(stats.health, 59_750_000);
    assert_eq!(stats.score, -200);
}

#[test]
fn a_fresh_player_cannot_be_hit_during_the_first_cooldown() {
    let mut stats = PlayerStats::default();
    let player = Some(GridCoords::new(1, 1));
    let cows = vec![cow_on(1, 1)];
    assert!(!update_player_stats(&mut stats, 249_999, player, &cows, 0));
    assert_eq!(stats.score, 0);
    assert!(update_player_stats(&mut stats, 1, player, &cows, 0));
    assert_eq!(stats.score, -100);
}

#[test]
fn several_cows_in_one_frame_hurt_once() {
    let mut stats = PlayerStats::default();
    let player = Some(GridCoords::new(1, 1));
    let cows = vec![cow_on(3, 3), cow_on(1, 1), cow_on(1, 1), Position::new(16_000_000, 31_999_999)];
    assert!(update_player_stats(&mut stats, 300_000, player, &cows, 0));
    assert_eq!(stats.health, 100_000_000 - 20_000_000 - 750_000);
    assert_eq!(stats.score, -100);
}

#[test]
fn a_cow_elsewhere_does_not_hurt() {
    let mut stats = PlayerStats::default();
    let player = Some(GridCoords::new(1, 1));
    let cows = vec![cow_on(1, 2), cow_on(0, 1), Position::new(15_999_999, 16_000_000)];
    assert!(!update_player_stats(&mut stats, 300_000, player, &cows, 0));
    assert_eq!(stats.health, 99_250_000);
    assert_eq!(stats.score, 0);
}

#[test]
fn a_finished_cooldown_waits_for_the_next_contact() {
    let mut stats = PlayerStats::default();
    let player = Some(GridCoords::new(1, 1));
    assert!(!update_player_stats(&mut stats, 300_000, player, &vec![cow_on(5, 5)], 0));
    assert!(!update_player_stats(&mut stats, 300_000, player, &Vec::new(), 0));
    assert!(update_player_stats(&mut stats, 0, player, &vec![cow_on(1, 1)], 0));
    assert_eq!(stats.health, 100_000_000 - 1_500_000 - 20_000_000);
    assert!(!update_player_stats(&mut stats, 0, player, &vec![cow_on(1, 1)], 0));
}

#[test]
fn without_a_player_cows_do_not_hurt() {
    let mut stats = PlayerStats::default();
    assert!(!update_player_stats(&mut stats, 300_000, None, &vec![cow_on(1, 1)], 0));
    assert_eq!(stats.health, 99_250_000);
    assert_eq!(stats.score, 0);
}

#[test]
fn health_falls_below_zero() {
    let mut stats = PlayerStats::default();
    stats.health = 1_000_000;
    update_player_stats(&mut stats, 1_000_000, None, &Vec::new(), 0);
    assert_eq!(stats.health, -1_500_000);
}

#[test]
fn health_and_score_stop_at_the_end_of_their_range() {
    let mut stats = PlayerStats::default();
    stats.health = i64::MIN + 5;
    stats.score = i64::MIN + 5;
    let player = Some(GridCoords::new(1, 1));
    assert!(update_player_stats(&mut stats, 1_000_000, player, &vec![cow_on(1, 1)], 0));
    assert_eq!(stats.health, i64::MIN);
    assert_eq!(stats.score, i64::MIN);
    let mut stats = PlayerStats::default();
    update_player_stats(&mut stats, u64::MAX, None, &Vec::new(), 0);
    assert_eq!(stats.health, i64::MIN);
}
