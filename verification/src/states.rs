use vstd::prelude::*;
use crate::level::IslandType;

verus! {

/// The world the player is exploring. Which enemies spawn and which entity the
/// player steers (the pirate or the boat) depends on it.
#[derive(Clone, Copy, PartialEq, Eq, Structural, Debug)]
pub enum GameworldState {
    MainMenu,
    Island,
    Ocean,
    Dungeon,
}

/// Whether the game is running or paused in the shop.
#[derive(Clone, Copy, PartialEq, Eq, Structural, Debug)]
pub enum GameState {
    Running,
    InShop,
}

/// The state that pressing the shop key asks for, if any.
pub open spec fn shop_toggle_target(game: GameState, world: GameworldState, shop_key: bool) -> Option<GameState> {
    if game == GameState::Running && (world == GameworldState::Island || world == GameworldState::Dungeon) && shop_key {
        Some(GameState::InShop)
    } else if game == GameState::InShop && shop_key {
        Some(GameState::Running)
    } else {
        None
    }
}

/// Opens the shop from an island or a dungeon, and closes it again, when the
/// shop key was just pressed. Returns the state to switch to, or `None` to
/// stay.
pub fn change_game_state(game: GameState, world: GameworldState, shop_key: bool) -> (next: Option<GameState>)
    ensures
        next == shop_toggle_target(game, world, shop_key),
{
    if game == GameState::Running && (world == GameworldState::Island || world == GameworldState::Dungeon) && shop_key {
        Some(GameState::InShop)
    } else if game == GameState::InShop && shop_key {
        Some(GameState::Running)
    } else {
        None
    }
}

/// A point of the game world, in whole pixels.
#[derive(Clone, Copy, PartialEq, Eq, Structural, Debug)]
pub struct Point {
    pub x: i32,
    pub y: i32,
    pub z: i32,
}

/// A box that, when the player walks into it, moves the player to another
/// part of the world.
#[derive(Clone, Copy, PartialEq, Eq, Structural, Debug)]
pub struct TransitionBox {
    pub position: Point,
}

/// Where the player starts in a dungeon.
pub open spec fn dungeon_spawn() -> Point {
    Point { x: -2976i32, y: -2976i32, z: 0 }
}

/// What the engine has observed this frame that can move the player to
/// another part of the world.
pub struct WorldProbe {
    /// The start key was just pressed.
    pub enter_pressed: bool,
    /// A pirate without transition immunity is in the world.
    pub eligible_player: bool,
    /// The islands the boat touches, in the order the engine lists them.
    pub island_hits: Vec<IslandType>,
    /// The pirate touches a dungeon gate.
    pub dungeon_hit: bool,
    /// The pirate touches the door to the ocean.
    pub door_hit: bool,
}

/// What the world does after a probe.
#[derive(Clone, Copy, PartialEq, Eq, Structural, Debug)]
pub struct WorldTransition {
    /// The state to switch to, if any.
    pub next: Option<GameworldState>,
    /// The island the player is about to land on, if it changed.
    pub island_type: Option<IslandType>,
    /// The pirates taking part get a short immunity against transitions.
    pub grant_immunity: bool,
}

pub open spec fn spec_world_transition(world: GameworldState, probe: WorldProbe) -> WorldTransition {
    if probe.enter_pressed && world == GameworldState::MainMenu {
        WorldTransition { next: Some(GameworldState::Island), island_type: Some(IslandType::Start), grant_immunity: false }
    } else if !probe.eligible_player {
        WorldTransition { next: None, island_type: None, grant_immunity: false }
    } else {
        match world {
            GameworldState::Ocean => if probe.island_hits@.len() > 0 {
                WorldTransition {
                    next: Some(GameworldState::Island),
                    island_type: Some(probe.island_hits@.last()),
                    grant_immunity: true,
                }
            } else {
                WorldTransition { next: None, island_type: None, grant_immunity: true }
            },
            GameworldState::Island => WorldTransition {
                next: if probe.door_hit {
                    Some(GameworldState::Ocean)
                } else if probe.dungeon_hit {
                    Some(GameworldState::Dungeon)
                } else {
                    None
                },
                island_type: None,
                grant_immunity: true,
            },
            GameworldState::Dungeon => WorldTransition {
                next: if probe.dungeon_hit { Some(GameworldState::Island) } else { None },
                island_type: None,
                grant_immunity: true,
            },
            GameworldState::MainMenu => WorldTransition { next: None, island_type: None, grant_immunity: true },
        }
    }
}

/// Moves the player between the parts of the world.
///
/// From the main menu the start key leads to the starting island. Otherwise,
/// when a pirate without transition immunity is about: the boat landing on an
/// island leads there (the last island touched decides which); on an island,
/// the ocean door leads back to sea, taking precedence over a dungeon gate;
/// inside a dungeon, its gate returns the pirate to the island. Every such pirate then
/// gets a short immunity against transitions, whether or not one took place.
pub fn change_gameworld_state(world: GameworldState, probe: &WorldProbe) -> (t: WorldTransition)
    ensures
        t == spec_world_transition(world, *probe),
        travels_as_described(world, *probe, t),
{
    if probe.enter_pressed && world == GameworldState::MainMenu {
        return WorldTransition { next: Some(GameworldState::Island), island_type: Some(IslandType::Start), grant_immunity: false };
    }
    if !probe.eligible_player {
        return WorldTransition { next: None, island_type: None, grant_immunity: false };
    }
    let mut next: Option<GameworldState> = None;
    let mut island_type: Option<IslandType> = None;
    match world {
        GameworldState::Ocean => {
            let mut i: usize = 0;
            while i < probe.island_hits.len()
                invariant
                    i <= probe.island_hits@.len(),
                    i == 0 ==> next is None && island_type is None,
                    i > 0 ==> next == Some(GameworldState::Island) && island_type == Some(probe.island_hits@[i - 1]),
                decreases probe.island_hits@.len() - i,
            {
                island_type = Some(probe.island_hits[i]);
                next = Some(GameworldState::Island);
                i = i + 1;
            }
        },
        GameworldState::Island => {
            if probe.dungeon_hit {
                next = Some(GameworldState::Dungeon);
            }
            if probe.door_hit {
                next = Some(GameworldState::Ocean);
            }
        },
        GameworldState::Dungeon => {
            if probe.dungeon_hit {
                next = Some(GameworldState::Island);
            }
        },
        GameworldState::MainMenu => {},
    }
    WorldTransition { next, island_type, grant_immunity: true }
}

/// Where the door of the current part of the world stands: the dungeon's far
/// corner in a dungeon, above the island's centre on an island; elsewhere
/// there is no door to place.
pub fn handle_door_translation(world: GameworldState) -> (p: Option<Point>)
    ensures
        world == GameworldState::Dungeon ==> p == Some(Point { x: 2976, y: 2976, z: 10 }),
        world == GameworldState::Island ==> p == Some(Point { x: 0, y: 256, z: 10 }),
        world != GameworldState::Dungeon && world != GameworldState::Island ==> p is None,
{
    match world {
        GameworldState::Dungeon => Some(Point { x: 2976, y: 2976, z: 10 }),
        GameworldState::Island => Some(Point { x: 0, y: 256, z: 10 }),
        _ => None,
    }
}

/// Where the pirate is put on entering a dungeon; nowhere in particular
/// outside one.
pub fn handle_dungeon_entry(world: GameworldState) -> (p: Option<Point>)
    ensures
        world == GameworldState::Dungeon ==> p == Some(dungeon_spawn()),
        world != GameworldState::Dungeon ==> p is None,
{
    if world == GameworldState::Dungeon {
        Some(Point { x: -2976, y: -2976, z: 0 })
    } else {
        None
    }
}

/// On an island or in a dungeon, pressing the shop key twice leaves the game
/// in the state it was in: the shop opens and closes, or closes and opens.
pub proof fn lemma_shop_key_twice_restores(game: GameState, world: GameworldState)
    requires
        world == GameworldState::Island || world == GameworldState::Dungeon,
    ensures
        shop_toggle_target(game, world, true) is Some,
        shop_toggle_target(shop_toggle_target(game, world, true)->Some_0, world, true) == Some(game),
{
}

/// Without the shop key nothing changes; with it, a game in the shop always
/// leaves the shop.
pub proof fn lemma_shop_needs_key(game: GameState, world: GameworldState)
    ensures
        shop_toggle_target(game, world, false) is None,
        shop_toggle_target(GameState::InShop, world, true) == Some(GameState::Running),
{
}

/// At sea and in the main menu the shop key never opens the shop.
pub proof fn lemma_no_shop_at_sea(game: GameState, world: GameworldState, key: bool)
    requires
        world == GameworldState::Ocean || world == GameworldState::MainMenu,
    ensures
        shop_toggle_target(game, world, key) != Some(GameState::InShop),
{
}

/// Where each part of the world leads, told case by case: from the main
/// menu the start key leads to the starting island; a pirate with transition
/// immunity, or none at all, goes nowhere; at sea the boat lands on the last
/// island it touches; on an island the ocean door leads to sea whether or not
/// a dungeon gate is touched too, and a gate alone leads into the dungeon; in
/// a dungeon its gate leads back to the island.
pub open spec fn travels_as_described(world: GameworldState, probe: WorldProbe, t: WorldTransition) -> bool {
    let started = probe.enter_pressed && world == GameworldState::MainMenu;
    let free = !started && probe.eligible_player;
    &&& started ==> t.next == Some(GameworldState::Island) && t.island_type == Some(IslandType::Start)
    &&& !started && !probe.eligible_player ==> t.next is None && t.island_type is None && !t.grant_immunity
    &&& free ==> t.grant_immunity
    &&& free && world == GameworldState::Ocean ==> if probe.island_hits@.len() > 0 {
        t.next == Some(GameworldState::Island) && t.island_type == Some(
            probe.island_hits@[probe.island_hits@.len() - 1],
        )
    } else {
        t.next is None && t.island_type is None
    }
    &&& free && world == GameworldState::Island && probe.door_hit ==> t.next == Some(GameworldState::Ocean)
    &&& free && world == GameworldState::Island && !probe.door_hit && probe.dungeon_hit ==> t.next == Some(
        GameworldState::Dungeon,
    )
    &&& free && world == GameworldState::Island && !probe.door_hit && !probe.dungeon_hit ==> t.next is None
    &&& free && world == GameworldState::Dungeon ==> t.next == (if probe.dungeon_hit {
        Some(GameworldState::Island)
    } else {
        None
    })
    &&& free && world == GameworldState::MainMenu ==> t.next is None
    &&& free && world != GameworldState::Ocean ==> t.island_type is None
}

/// Moving through the world goes as told case by case above: in particular
/// the ocean door of an island always leads back to sea, whatever else the
/// pirate touches.
pub proof fn lemma_world_transitions(world: GameworldState, probe: WorldProbe)
    ensures
        travels_as_described(world, probe, spec_world_transition(world, probe)),
{
}

} // verus!
