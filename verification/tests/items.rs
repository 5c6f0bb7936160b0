use glulands::coords::GridCoords;
use glulands::items::{check_bronze, check_carrots, check_keys, Item};
use glulands::player::PlayerStats;

fn item(entity: u64, x: i32, y: i32) -> Item {
    Item { entity, grid_coords: GridCoords::new(x, y) }
}

#[test]
fn a_key_on_the_players_tile_is_picked_up() {
    let mut stats = PlayerStats::default();
    let mut keys = vec![item(1, 0, 0), item(2, 1, 1), item(3, 2, 2)];
    let picked = check_keys(Some(GridCoords::new(1, 1)), &mut keys, &mut stats);
    assert_eq!(picked, vec![item(2, 1, 1)]);
    assert_eq!(keys, vec![item(1, 0, 0), item(3, 2, 2)]);
    assert_eq!(stats.keys, 1);
    assert_eq!(stats.health, 100_000_000);
    assert_eq!(stats.score, 0);
}

#[test]
fn all_items_on_one_tile_are_picked_up_together() {
    let mut stats = PlayerStats::default();
    stats.keys = 4;
    let mut keys = vec![item(1, 1, 1), item(2, 5, 1), item(3, 1, 1), item(4, 1, 1), item(5, 1, 5)];
    let picked = check_keys(Some(GridCoords::new(1, 1)), &mut keys, &mut stats);
    assert_eq!(picked, vec![item(1, 1, 1), item(3, 1, 1), item(4, 1, 1)]);
    assert_eq!(keys, vec![item(2, 5, 1), item(5, 1, 5)]);
    assert_eq!(stats.keys, 7);
}

#[test]
fn an_item_is_picked_up_only_once() {
    let mut stats = PlayerStats::default();
    let mut keys = vec![item(1, 1, 1)];
    assert_eq!(check_keys(Some(GridCoords::new(1, 1)), &mut keys, &mut stats).len(), 1);
    assert_eq!(check_keys(Some(GridCoords::new(1, 1)), &mut keys, &mut stats).len(), 0);
    assert_eq!(stats.keys, 1);
    assert!(keys.is_empty());
}

#[test]
fn nothing_is_picked_up_while_the_player_stays_on_its_tile() {
    let mut stats = PlayerStats::default();
    let mut keys = vec![item(1, 1, 1)];
    let mut carrots = vec![item(2, 1, 1)];
    let mut bronze = vec![item(3, 1, 1)];
    stats.health = 10_000_000;
    assert!(check_keys(None, &mut keys, &mut stats).is_empty());
    assert!(check_carrots(None, &mut carrots, &mut stats).is_empty());
    assert!(check_bronze(None, &mut bronze, &mut stats).is_empty());
    assert_eq!((keys.len(), carrots.len(), bronze.len()), (1, 1, 1));
    assert_eq!((stats.keys, stats.health, stats.score), (0, 10_000_000, 0));
}

#[test]
fn nothing_is_picked_up_from_other_tiles() {
    let mut stats = PlayerStats::default();
    let mut keys = vec![item(1, 1, 2), item(2, 2, 1)];
    assert!(check_keys(Some(GridCoords::new(1, 1)), &mut keys, &mut stats).is_empty());
    assert!(check_keys(Some(GridCoords::new(1, 1)), &mut Vec::new(), &mut stats).is_empty());
    assert_eq!(keys.len(), 2);
    assert_eq!(stats.keys, 0);
}

#[test]
fn the_key_count_stops_at_the_end_of_its_range() {
    let mut stats = PlayerStats::default();
    stats.keys = usize::MAX - 1;
    let mut keys = vec![item(1, 1, 1), item(2, 1, 1), item(3, 1, 1)];
    assert_eq!(check_keys(Some(GridCoords::new(1, 1)), &mut keys, &mut stats).len(), 3);
    assert_eq!(stats.keys, usize::MAX);
}

#[test]
fn a_carrot_heals() {
    let mut stats = PlayerStats::default();
    stats.health = 50_000_000;
    let mut carrots = vec![item(1, 1, 1), item(2, 3, 3)];
    let picked = check_carrots(Some(GridCoords::new(1, 1)), &mut carrots, &mut stats);
    assert_eq!(picked, vec![item(1, 1, 1)]);
    assert_eq!(carrots, vec![item(2, 3, 3)]);
    assert_eq!(stats.health, 75_000_000);
    assert_eq!((stats.keys, stats.score), (0, 0));
}

#[test]
fn carrots_never_heal_beyond_full_health() {
    let mut stats = PlayerStats::default();
    stats.health = 90_000_000;
    let mut carrots = vec![item(1, 1, 1)];
    check_carrots(Some(GridCoords::new(1, 1)), &mut carrots, &mut stats);
    assert_eq!(stats.health, 100_000_000);
    stats.health = 75_000_000;
    let mut carrots = vec![item(1, 1, 1)];
    check_carrots(Some(GridCoords::new(1, 1)), &mut carrots, &mut stats);
    assert_eq!(stats.health, 100_000_000);
    stats.health = 74_999_999;
    let mut carrots = vec![item(1, 1, 1)];
    check_carrots(Some(GridCoords::new(1, 1)), &mut carrots, &mut stats);
    assert_eq!(stats.health, 99_999_999);
}

#[test]
fn several_carrots_heal_one_after_the_other() {
    let mut stats = PlayerStats::default();
    stats.health = -30_000_000;
    let mut carrots = vec![item(1, 1, 1), item(2, 1, 1), item(3, 1, 1)];
    check_carrots(Some(GridCoords::new(1, 1)), &mut carrots, &mut stats);
    assert_eq!(stats.health, 45_000_000);
    let mut carrots = vec![item(1, 1, 1), item(2, 1, 1), item(3, 1, 1)];
    check_carrots(Some(GridCoords::new(1, 1)), &mut carrots, &mut stats);
    assert_eq!(stats.health, 100_000_000);
    stats.health = i64::MIN;
    let mut carrots = vec![item(1, 1, 1)];
    check_carrots(Some(GridCoords::new(1, 1)), &mut carrots, &mut stats);
    assert_eq!(stats.health, i64::MIN + 25_000_000);
}

#[test]
fn bronze_adds_to_the_score() {
    let mut stats = PlayerStats::default();
    stats.score = -100;
    let mut bronze = vec![item(1, 1, 1), item(2, 2, 2), item(3, 1, 1)];
    let picked = check_bronze(Some(GridCoords::new(1, 1)), &mut bronze, &mut stats);
    assert_eq!(picked, vec![item(1, 1, 1), item(3, 1, 1)]);
    assert_eq!(bronze, vec![item(2, 2, 2)]);
    assert_eq!(stats.score, 0);
    let picked = check_bronze(Some(GridCoords::new(2, 2)), &mut bronze, &mut stats);
    assert_eq!(picked.len(), 1);
    assert_eq!(stats.score, 50);
    assert_eq!((stats.keys, stats.health), (0, 100_000_000));
}

#[test]
fn the_score_stops_at_the_end_of_its_range() {
    let mut stats = PlayerStats::default();
    stats.score = i64::MAX - 60;
    let mut bronze = vec![item(1, 1, 1), item(2, 1, 1)];
    check_bronze(Some(GridCoords::new(1, 1)), &mut bronze, &mut stats);
    assert_eq!(stats.score, i64::MAX);
}
