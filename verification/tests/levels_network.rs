use sea_of_fortune::level::{
    background_tile_position, dungeon_for_islands, dungeon_gate_index, island_type_for_zone, ocean_island_types,
    ocean_tile_for_roll, random_ocean_tile, random_sand_tile, sand_tile_for_roll, tiles_along, IslandType,
    OCEAN_LENGTH, OCEAN_LEVEL_H, OCEAN_LEVEL_W, SAND_LEVEL_W,
};
use sea_of_fortune::network::{message_kind, message_name, Counter, JoinAction, JoinState, LobbyEvent, MessageKind};
use sea_of_fortune::states::Point;

#[test]
fn tile_rolls() {
    for roll in 0..9 {
        assert_eq!(ocean_tile_for_roll(roll), 0);
    }
    assert_eq!(ocean_tile_for_roll(9), 1);
    assert_eq!(ocean_tile_for_roll(10), 1);
    assert_eq!(sand_tile_for_roll(3), 0);
    assert_eq!(sand_tile_for_roll(4), 1);
    assert_eq!(sand_tile_for_roll(7), 1);
    assert_eq!(sand_tile_for_roll(8), 2);
    let ocean: Vec<usize> = (0..300).map(|_| random_ocean_tile()).collect();
    let sand: Vec<usize> = (0..300).map(|_| random_sand_tile()).collect();
    assert!(ocean.iter().all(|t| *t <= 1));
    assert!(sand.iter().all(|t| *t <= 2));
    // Dark water and plain sand come up on most rolls.
    assert!(ocean.contains(&0));
    assert!(sand.contains(&0));
    assert!(sand.contains(&1));
}

#[test]
fn islands_by_zone() {
    assert_eq!(island_type_for_zone(0), IslandType::Boss);
    assert_eq!(island_type_for_zone(1), IslandType::Level2);
    assert_eq!(island_type_for_zone(2), IslandType::Level3);
    assert_eq!(island_type_for_zone(3), IslandType::Boss);
    assert_eq!(ocean_island_types(), vec![IslandType::Boss, IslandType::Level2, IslandType::Level3, IslandType::Boss]);
}

#[test]
fn dungeons() {
    assert_eq!(dungeon_for_islands(&vec![]), IslandType::Level1);
    assert_eq!(dungeon_for_islands(&vec![IslandType::Level3, IslandType::Start]), IslandType::Level1);
    assert_eq!(dungeon_for_islands(&vec![IslandType::Start, IslandType::Level2]), IslandType::Level2);
    assert_eq!(dungeon_gate_index(IslandType::Boss), 3);
    assert_eq!(dungeon_gate_index(IslandType::Start), 0);
    assert_eq!(dungeon_gate_index(IslandType::Level3), 2);
}

#[test]
fn tile_layout() {
    assert_eq!(tiles_along(OCEAN_LEVEL_W), 1000);
    assert_eq!(tiles_along(SAND_LEVEL_W), 94);
    assert_eq!(tiles_along(0), 0);
    assert_eq!(tiles_along(33), 2);
    assert_eq!(tiles_along(32), 1);
    assert_eq!(tiles_along(u32::MAX), 134217728);
    assert_eq!(tiles_along(u32::MAX - 31), 134217727);
    assert_eq!(background_tile_position(0, 0, OCEAN_LEVEL_W, OCEAN_LEVEL_H), Point { x: -15984, y: -15984, z: -1 });
    assert_eq!(background_tile_position(1, 0, OCEAN_LEVEL_W, OCEAN_LEVEL_H), Point { x: -15920, y: -15984, z: -1 });
    assert_eq!(background_tile_position(0, 1, OCEAN_LEVEL_W, OCEAN_LEVEL_H), Point { x: -15968, y: -15920, z: -1 });
    assert_eq!(background_tile_position(2, 3, 3000, 3000), Point { x: -1340, y: -1292, z: -1 });
    assert_eq!(background_tile_position(0, 0, u32::MAX, u32::MAX), Point { x: -2147483631, y: -2147483631, z: -1 });
}

#[test]
fn message_names_round_trip() {
    let kinds = [
        MessageKind::NewPlayer, MessageKind::JoinedLobby, MessageKind::FullLobby, MessageKind::LoadOcean,
        MessageKind::PlayerUpdate, MessageKind::PlayerLeave, MessageKind::GotHereLate, MessageKind::UpdateEnemies,
        MessageKind::UpdatePlayers, MessageKind::SpawnEnemy, MessageKind::LeaveSuccess,
    ];
    for k in kinds {
        assert_eq!(message_kind(message_name(k)), Some(k));
    }
    assert_eq!(message_name(MessageKind::JoinedLobby), "joined_lobby");
    assert_eq!(message_name(MessageKind::GotHereLate), "got_here_late");
    assert_eq!(message_kind("hello"), None);
    assert_eq!(message_kind("Joined_lobby"), None);
    assert_eq!(message_kind(""), None);
}

#[test]
fn joining_the_lobby() {
    let mut s = JoinState::new();
    assert!(s.wants_join_request());
    assert_eq!(s.player_id, -1);
    assert_eq!(s.receive(LobbyEvent::LoadOcean), JoinAction::StoreTile);
    assert_eq!(s.receive(LobbyEvent::Invalid), JoinAction::Ignore);
    assert_eq!(s.receive(LobbyEvent::JoinedLobby(2)), JoinAction::Joined(2));
    assert!(!s.wants_join_request());
    assert_eq!(s.player_id, 2);
    assert_eq!(s.receive(LobbyEvent::FullLobby), JoinAction::Abort);
    assert_eq!(s.tiles, 1);
    while !s.finished() {
        s.receive(LobbyEvent::LoadOcean);
    }
    assert_eq!(s.tiles, OCEAN_LENGTH);
    assert!(s.joined);
}

#[test]
fn counter_counts_from_one() {
    let mut c = Counter::init();
    assert_eq!(c.count, 0);
    assert_eq!(c.next(), 1);
    assert_eq!(c.next(), 2);
    assert_eq!(c.count, 2);
}
