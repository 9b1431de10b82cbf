use vstd::prelude::*;
use rand::Rng;
use crate::states::Point;

verus! {

/// Number of ocean tiles the server sends to a joining client.
pub const OCEAN_LENGTH: usize = 15625;
/// Highest roll of the die that picks background tiles (rolls run from zero).
pub const TILE_DIE_MAX: u32 = 10;
/// Number of zones the ocean is cut into, one island each.
pub const ISLAND_ZONES: u32 = 4;

/// Side of a background tile's grid cell, in pixels.
pub const TILE_SIZE: u32 = 32;
/// Width and height of the ocean, in pixels.
pub const OCEAN_LEVEL_W: u32 = 32000;
pub const OCEAN_LEVEL_H: u32 = 32000;
/// Width and height of an island's beach, in pixels.
pub const SAND_LEVEL_W: u32 = 3000;
pub const SAND_LEVEL_H: u32 = 3000;
/// Width and height of a dungeon, in pixels.
pub const DUNGEON_LEVEL_W: u32 = 16000;
pub const DUNGEON_LEVEL_H: u32 = 16000;

/// The kinds of island, from the starting beach to the boss's lair.
#[derive(Clone, Copy, PartialEq, Eq, Structural, Debug)]
pub enum IslandType {
    Start,
    Level1,
    Level2,
    Level3,
    Boss,
}

/// The ocean tile for a roll: mostly dark water, light water on the two
/// highest rolls.
pub open spec fn ocean_tile(roll: u32) -> usize {
    if roll < 9 { 0 } else { 1 }
}

/// The sand tile for a roll: plain sand on rolls below four, the second tile
/// on four to seven, the third above.
pub open spec fn sand_tile(roll: u32) -> usize {
    if roll < 4 {
        0
    } else if roll <= 7 {
        1
    } else {
        2
    }
}

/// The island placed in an ocean zone. The first zone's island is a boss
/// island as well as the last one's.
pub open spec fn zone_island(zone: u32) -> IslandType {
    if zone == 1 {
        IslandType::Level2
    } else if zone == 2 {
        IslandType::Level3
    } else {
        IslandType::Boss
    }
}

/// The dungeon that belongs to an island; the starting island leads to the
/// first dungeon.
pub open spec fn island_dungeon(t: IslandType) -> IslandType {
    match t {
        IslandType::Start => IslandType::Level1,
        _ => t,
    }
}

/// Which of the four dungeon gate images shows a dungeon.
pub open spec fn dungeon_gate(t: IslandType) -> usize {
    match t {
        IslandType::Level2 => 1,
        IslandType::Level3 => 2,
        IslandType::Boss => 3,
        _ => 0,
    }
}

/// Number of tiles laid along a side of a level: tiles are counted while
/// the count times the tile size falls short of the side.
pub open spec fn spec_tiles_along(side: u32) -> int {
    (side + TILE_SIZE - 1) / (TILE_SIZE as int)
}

/// Horizontal position of the background tile in column `w` and row `h`.
/// Tiles are laid every two tile sizes from the left edge; the first row
/// starts half a tile in, the later rows a whole tile in.
pub open spec fn tile_x(w: u32, h: u32, level_w: u32) -> int {
    let first_x = if h == 0 { TILE_SIZE / 2 } else { TILE_SIZE };
    -(level_w / 2) + first_x + w * (2 * TILE_SIZE)
}

/// Vertical position of the background tiles in row `h`: every two tile
/// sizes from half a tile above the bottom edge.
pub open spec fn tile_y(h: u32, level_h: u32) -> int {
    -(level_h / 2) + TILE_SIZE / 2 + h * (2 * TILE_SIZE)
}

/// Where the background tile in column `w` and row `h` is drawn.
pub open spec fn spec_tile_position(w: u32, h: u32, level_w: u32, level_h: u32) -> Point {
    Point { x: tile_x(w, h, level_w) as i32, y: tile_y(h, level_h) as i32, z: -1i32 }
}

/// Number of tiles laid along a side of a level.
pub fn tiles_along(side: u32) -> (n: u32)
    ensures
        n == spec_tiles_along(side),
        n * TILE_SIZE >= side,
        n == 0 || (n - 1) * TILE_SIZE < side,
{
    let whole: u32 = side / TILE_SIZE;
    if side % TILE_SIZE == 0 {
        whole
    } else {
        whole + 1
    }
}

/// Where the background tile in column `w` and row `h` of a level is drawn,
/// for a tile whose position fits the coordinates.
pub fn background_tile_position(w: u32, h: u32, level_w: u32, level_h: u32) -> (p: Point)
    requires
        i32::MIN <= tile_x(w, h, level_w) <= i32::MAX,
        i32::MIN <= tile_y(h, level_h) <= i32::MAX,
    ensures
        p == spec_tile_position(w, h, level_w, level_h),
        p.x == tile_x(w, h, level_w),
        p.y == tile_y(h, level_h),
{
    let step: i64 = 2 * TILE_SIZE as i64;
    let first_x: i64 = if h == 0 { (TILE_SIZE / 2) as i64 } else { TILE_SIZE as i64 };
    let x: i64 = -((level_w / 2) as i64) + first_x + (w as i64) * step;
    let y: i64 = -((level_h / 2) as i64) + (TILE_SIZE / 2) as i64 + (h as i64) * step;
    Point { x: x as i32, y: y as i32, z: -1 }
}

/// One roll of the tile die, from zero to `TILE_DIE_MAX`.
///
/// Calls `rand::thread_rng().gen_range(0..=max)` (rand 0.8). The contract
/// states only that the roll lies in the range; which value comes up is left
/// to the thread's random generator.
#[verifier::external_body]
fn roll_die(max: u32) -> (roll: u32)
    ensures
        roll <= max,
{
    rand::thread_rng().gen_range(0..=max)
}

/// The ocean tile for a roll of the die.
pub fn ocean_tile_for_roll(roll: u32) -> (tile: usize)
    ensures
        tile == ocean_tile(roll),
{
    if roll < 9 { 0 } else { 1 }
}

/// The sand tile for a roll of the die.
pub fn sand_tile_for_roll(roll: u32) -> (tile: usize)
    ensures
        tile == sand_tile(roll),
{
    if roll < 4 {
        0
    } else if roll <= 7 {
        1
    } else {
        2
    }
}

/// Picks the tile of one square of ocean at random.
pub fn random_ocean_tile() -> (tile: usize)
    ensures
        exists|roll: u32| roll <= TILE_DIE_MAX && tile == ocean_tile(roll),
        tile <= 1,
{
    let roll = roll_die(TILE_DIE_MAX);
    ocean_tile_for_roll(roll)
}

/// Picks the tile of one square of island sand at random.
pub fn random_sand_tile() -> (tile: usize)
    ensures
        exists|roll: u32| roll <= TILE_DIE_MAX && tile == sand_tile(roll),
        tile <= 2,
{
    let roll = roll_die(TILE_DIE_MAX);
    sand_tile_for_roll(roll)
}

/// The island placed in a zone of the ocean.
pub fn island_type_for_zone(zone: u32) -> (t: IslandType)
    ensures
        t == zone_island(zone),
{
    if zone == 1 {
        IslandType::Level2
    } else if zone == 2 {
        IslandType::Level3
    } else {
        IslandType::Boss
    }
}

/// The islands placed in the ocean, zone by zone from the bottom of the map.
pub fn ocean_island_types() -> (islands: Vec<IslandType>)
    ensures
        islands@.len() == ISLAND_ZONES,
        forall|z: int| 0 <= z < ISLAND_ZONES ==> islands@[z] == zone_island(z as u32),
{
    let mut islands: Vec<IslandType> = Vec::new();
    let mut zone: u32 = 0;
    while zone < ISLAND_ZONES
        invariant
            zone <= ISLAND_ZONES,
            islands@.len() == zone,
            forall|z: int| 0 <= z < zone ==> islands@[z] == zone_island(z as u32),
        decreases ISLAND_ZONES - zone,
    {
        islands.push(island_type_for_zone(zone));
        zone = zone + 1;
    }
    islands
}

/// The dungeon whose gate an island shows: the one of the last island in
/// the list, and the first dungeon when there is none.
pub fn dungeon_for_islands(islands: &Vec<IslandType>) -> (t: IslandType)
    ensures
        islands@.len() == 0 ==> t == IslandType::Level1,
        islands@.len() > 0 ==> t == island_dungeon(islands@.last()),
        // An island leads to the dungeon of its own type; the starting island
        // to the first dungeon.
        islands@.len() > 0 && islands@.last() != IslandType::Start ==> t == islands@.last(),
        islands@.len() > 0 && islands@.last() == IslandType::Start ==> t == IslandType::Level1,
{
    let mut current = IslandType::Level1;
    let mut i: usize = 0;
    while i < islands.len()
        invariant
            i <= islands.len(),
            i == 0 ==> current == IslandType::Level1,
            i > 0 ==> current == island_dungeon(islands@[i - 1]),
        decreases islands.len() - i,
    {
        current = match islands[i] {
            IslandType::Level1 => IslandType::Level1,
            IslandType::Level2 => IslandType::Level2,
            IslandType::Level3 => IslandType::Level3,
            IslandType::Boss => IslandType::Boss,
            _ => IslandType::Level1,
        };
        i = i + 1;
    }
    current
}

/// Which gate image shows the dungeon of the given type.
pub fn dungeon_gate_index(t: IslandType) -> (index: usize)
    ensures
        index == dungeon_gate(t),
        index < 4,
{
    match t {
        IslandType::Level2 => 1,
        IslandType::Level3 => 2,
        IslandType::Boss => 3,
        _ => 0,
    }
}

/// Every island but the starting one leads to the dungeon of its own type,
/// and the starting island to the first dungeon; so islands of different
/// types lead to different dungeons, each shown by its own gate image, the
/// images in order of difficulty.
pub proof fn lemma_island_leads_to_own_dungeon(t: IslandType, u: IslandType)
    ensures
        t != IslandType::Start ==> island_dungeon(t) == t,
        island_dungeon(IslandType::Start) == IslandType::Level1,
        t != IslandType::Start && u != IslandType::Start && t != u ==> island_dungeon(t) != island_dungeon(u),
        island_dungeon(t) != island_dungeon(u) ==> dungeon_gate(island_dungeon(t)) != dungeon_gate(island_dungeon(u)),
        dungeon_gate(IslandType::Level1) == 0,
        dungeon_gate(IslandType::Level1) < dungeon_gate(IslandType::Level2),
        dungeon_gate(IslandType::Level2) < dungeon_gate(IslandType::Level3),
        dungeon_gate(IslandType::Level3) < dungeon_gate(IslandType::Boss),
{
}

/// Background tiles stand two tile sizes apart along a row and between rows;
/// every row but the first starts half a tile further in; and the first tile
/// of the first row lies half a tile in from the bottom left corner.
pub proof fn lemma_tile_spacing(w: u32, h: u32, level_w: u32, level_h: u32)
    ensures
        w < u32::MAX ==> tile_x((w + 1) as u32, h, level_w) - tile_x(w, h, level_w) == 2 * TILE_SIZE,
        h < u32::MAX ==> tile_y((h + 1) as u32, level_h) - tile_y(h, level_h) == 2 * TILE_SIZE,
        h > 0 ==> tile_x(w, h, level_w) - tile_x(w, 0, level_w) == TILE_SIZE / 2,
        tile_x(0, 0, level_w) == TILE_SIZE / 2 - level_w / 2,
        tile_y(0, level_h) == TILE_SIZE / 2 - level_h / 2,
{
}

/// Of the eleven rolls of the tile die, the two highest give light water and
/// the rest dark water; on the sand the four lowest give plain sand, the next
/// four the second tile and the three highest the third.
pub proof fn lemma_tile_rolls(roll: u32)
    requires
        roll <= TILE_DIE_MAX,
    ensures
        ocean_tile(roll) == 1 <==> roll >= TILE_DIE_MAX - 1,
        ocean_tile(roll) == 0 <==> roll < TILE_DIE_MAX - 1,
        sand_tile(roll) == 0 <==> roll < 4,
        sand_tile(roll) == 1 <==> 4 <= roll < 8,
        sand_tile(roll) == 2 <==> roll >= 8,
{
}

/// The ocean's islands grow harder zone by zone: the second zone holds a
/// level-two island, the third a level-three one, and the last the boss's;
/// the first zone holds a boss island too.
pub proof fn lemma_zone_islands(zone: u32)
    requires
        zone < ISLAND_ZONES,
    ensures
        zone_island(1) == IslandType::Level2,
        zone_island(2) == IslandType::Level3,
        zone_island((ISLAND_ZONES - 1) as u32) == IslandType::Boss,
        zone_island(0) == IslandType::Boss,
        zone_island(zone) != IslandType::Start && zone_island(zone) != IslandType::Level1,
{
}

} // verus!
