use sea_of_fortune::level::IslandType;
use sea_of_fortune::states::{
    change_game_state, change_gameworld_state, handle_door_translation, handle_dungeon_entry, GameState,
    GameworldState, Point, TransitionBox, WorldProbe, WorldTransition,
};

fn probe(enter: bool, eligible: bool, islands: Vec<IslandType>, dungeon: bool, door: bool) -> WorldProbe {
    WorldProbe { enter_pressed: enter, eligible_player: eligible, island_hits: islands, dungeon_hit: dungeon, door_hit: door }
}

#[test]
fn shop_opens_on_land_only() {
    assert_eq!(change_game_state(GameState::Running, GameworldState::Island, true), Some(GameState::InShop));
    assert_eq!(change_game_state(GameState::Running, GameworldState::Dungeon, true), Some(GameState::InShop));
    assert_eq!(change_game_state(GameState::Running, GameworldState::Ocean, true), None);
    assert_eq!(change_game_state(GameState::Running, GameworldState::MainMenu, true), None);
    assert_eq!(change_game_state(GameState::Running, GameworldState::Island, false), None);
    assert_eq!(change_game_state(GameState::InShop, GameworldState::Ocean, true), Some(GameState::Running));
    assert_eq!(change_game_state(GameState::InShop, GameworldState::Island, false), None);
}

#[test]
fn shop_key_twice_restores() {
    for g in [GameState::Running, GameState::InShop] {
        let once = change_game_state(g, GameworldState::Dungeon, true).unwrap();
        assert_eq!(change_game_state(once, GameworldState::Dungeon, true), Some(g));
    }
}

#[test]
fn start_key_leaves_main_menu() {
    let t = change_gameworld_state(GameworldState::MainMenu, &probe(true, false, vec![], false, false));
    assert_eq!(t, WorldTransition { next: Some(GameworldState::Island), island_type: Some(IslandType::Start), grant_immunity: false });
    let t = change_gameworld_state(GameworldState::Island, &probe(true, false, vec![], true, false));
    assert_eq!(t, WorldTransition { next: None, island_type: None, grant_immunity: false });
}

#[test]
fn boat_lands_on_last_island_touched() {
    let t = change_gameworld_state(GameworldState::Ocean, &probe(false, true, vec![IslandType::Level2, IslandType::Boss], false, false));
    assert_eq!(t, WorldTransition { next: Some(GameworldState::Island), island_type: Some(IslandType::Boss), grant_immunity: true });
    let t = change_gameworld_state(GameworldState::Ocean, &probe(false, true, vec![], false, false));
    assert_eq!(t, WorldTransition { next: None, island_type: None, grant_immunity: true });
}

#[test]
fn door_beats_dungeon_gate_on_island() {
    let t = change_gameworld_state(GameworldState::Island, &probe(false, true, vec![], true, true));
    assert_eq!(t.next, Some(GameworldState::Ocean));
    let t = change_gameworld_state(GameworldState::Island, &probe(false, true, vec![], true, false));
    assert_eq!(t.next, Some(GameworldState::Dungeon));
    let t = change_gameworld_state(GameworldState::Dungeon, &probe(false, true, vec![], true, true));
    assert_eq!(t.next, Some(GameworldState::Island));
    let t = change_gameworld_state(GameworldState::Dungeon, &probe(false, true, vec![], false, true));
    assert_eq!(t.next, None);
    assert!(t.grant_immunity);
}

#[test]
fn no_eligible_pirate_no_transition() {
    let t = change_gameworld_state(GameworldState::Ocean, &probe(false, false, vec![IslandType::Level1], false, false));
    assert_eq!(t, WorldTransition { next: None, island_type: None, grant_immunity: false });
}

#[test]
fn doors_and_spawns() {
    assert_eq!(handle_door_translation(GameworldState::Dungeon), Some(Point { x: 2976, y: 2976, z: 10 }));
    assert_eq!(handle_door_translation(GameworldState::Island), Some(Point { x: 0, y: 256, z: 10 }));
    assert_eq!(handle_door_translation(GameworldState::Ocean), None);
    assert_eq!(handle_dungeon_entry(GameworldState::Dungeon), Some(Point { x: -2976, y: -2976, z: 0 }));
    assert_eq!(handle_dungeon_entry(GameworldState::Island), None);
    let b = TransitionBox { position: Point { x: 4, y: 5, z: 0 } };
    assert_eq!(b.position.x, 4);
}
