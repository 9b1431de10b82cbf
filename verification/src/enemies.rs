use vstd::prelude::*;

verus! {

// Codes that hit and hurt boxes carry to say which kind of entity owns them.
pub const PLAYER: i32 = 0;
pub const BOAT: i32 = 1;
pub const BAT: i32 = 2;
pub const KRAKEN: i32 = 3;
pub const GHOSTSHIP: i32 = 4;
pub const ROCK: i32 = 5;
pub const SKELETON: i32 = 6;
pub const SKEL2: i32 = 7;
pub const WHIRLPOOL: i32 = 8;
pub const BOSS: i32 = 9;
pub const STORM: i32 = 10;
pub const PSKELETON: i32 = 10;

// Hit points each kind of enemy starts with.
pub const BAT_MAX_HP: i32 = 2;
pub const KRAKEN_MAX_HP: i32 = 2;
pub const GHOSTSHIP_MAX_HP: i32 = 2;
pub const ROCK_MAX_HP: i32 = 15;
pub const SKELETON_MAX_HP: i32 = 6;
pub const PSKELETON_MAX_HP: i32 = 6;
pub const BOSS_MAX_HP: i32 = 50;
pub const STORM_HP: i32 = 1;
pub const WHIRLPOOL_HP: i32 = 5;

/// The enemies that can be spawned; the sea-borne ones carry the id the
/// server knows them by.
#[derive(Clone, Copy, PartialEq, Eq, Structural, Debug)]
pub enum EnemyT {
    Bat,
    Kraken(i32),
    GhostShip(i32),
    Rock,
    RSkeleton,
    Whirlpool(i32),
    Storm(i32),
    PoisonSkeleton,
}

pub open spec fn spec_entity_code(kind: EnemyT) -> i32 {
    match kind {
        EnemyT::Bat => BAT,
        EnemyT::Kraken(_) => KRAKEN,
        EnemyT::GhostShip(_) => GHOSTSHIP,
        EnemyT::Rock => ROCK,
        EnemyT::RSkeleton => SKELETON,
        EnemyT::Whirlpool(_) => WHIRLPOOL,
        EnemyT::Storm(_) => STORM,
        EnemyT::PoisonSkeleton => PSKELETON,
    }
}

/// The code the hurt box of a freshly spawned enemy of this kind carries.
pub fn entity_code(kind: EnemyT) -> (code: i32)
    ensures
        code == spec_entity_code(kind),
{
    match kind {
        EnemyT::Bat => BAT,
        EnemyT::Kraken(_) => KRAKEN,
        EnemyT::GhostShip(_) => GHOSTSHIP,
        EnemyT::Rock => ROCK,
        EnemyT::RSkeleton => SKELETON,
        EnemyT::Whirlpool(_) => WHIRLPOOL,
        EnemyT::Storm(_) => STORM,
        EnemyT::PoisonSkeleton => PSKELETON,
    }
}

/// The id under which a spawned enemy is shared with the server: only the
/// ocean enemies are, the island and dungeon ones are local.
pub fn network_id(kind: EnemyT) -> (id: Option<i32>)
    ensures
        id == (match kind {
            EnemyT::Kraken(i) => Some(i),
            EnemyT::GhostShip(i) => Some(i),
            EnemyT::Whirlpool(i) => Some(i),
            EnemyT::Storm(i) => Some(i),
            _ => None,
        }),
{
    match kind {
        EnemyT::Kraken(i) => Some(i),
        EnemyT::GhostShip(i) => Some(i),
        EnemyT::Whirlpool(i) => Some(i),
        EnemyT::Storm(i) => Some(i),
        _ => None,
    }
}

pub open spec fn spec_max_hp(kind: EnemyT) -> i32 {
    match kind {
        EnemyT::Bat => BAT_MAX_HP,
        EnemyT::Kraken(_) => KRAKEN_MAX_HP,
        EnemyT::GhostShip(_) => GHOSTSHIP_MAX_HP,
        EnemyT::Rock => ROCK_MAX_HP,
        EnemyT::RSkeleton => SKELETON_MAX_HP,
        EnemyT::PoisonSkeleton => PSKELETON_MAX_HP,
        EnemyT::Whirlpool(_) => WHIRLPOOL_HP,
        EnemyT::Storm(_) => STORM_HP,
    }
}

/// The health a freshly spawned enemy of this kind starts with.
pub fn max_hp(kind: EnemyT) -> (hp: i32)
    ensures
        hp == spec_max_hp(kind),
        hp > 0,
{
    match kind {
        EnemyT::Bat => BAT_MAX_HP,
        EnemyT::Kraken(_) => KRAKEN_MAX_HP,
        EnemyT::GhostShip(_) => GHOSTSHIP_MAX_HP,
        EnemyT::Rock => ROCK_MAX_HP,
        EnemyT::RSkeleton => SKELETON_MAX_HP,
        EnemyT::PoisonSkeleton => PSKELETON_MAX_HP,
        EnemyT::Whirlpool(_) => WHIRLPOOL_HP,
        EnemyT::Storm(_) => STORM_HP,
    }
}

/// How many frames the sprite sheet of an animated enemy has; `None` for
/// the enemies drawn with a single image.
pub fn animation_frame_count(kind: EnemyT) -> (frames: Option<usize>)
    ensures
        frames == (match kind {
            EnemyT::Bat => Some(3usize),
            EnemyT::RSkeleton => Some(6usize),
            EnemyT::PoisonSkeleton => Some(6usize),
            EnemyT::Rock => Some(2usize),
            _ => None,
        }),
{
    match kind {
        EnemyT::Bat => Some(3),
        EnemyT::RSkeleton => Some(6),
        EnemyT::PoisonSkeleton => Some(6),
        EnemyT::Rock => Some(2),
        _ => None,
    }
}

/// The boxes of an enemy never carry the pirate's or the boat's code, and
/// enemies of different kinds carry different codes, but for the storm and
/// the poison skeleton, which share one.
pub proof fn lemma_entity_codes_distinct(k1: EnemyT, k2: EnemyT)
    ensures
        spec_entity_code(k1) != PLAYER && spec_entity_code(k1) != BOAT,
        spec_entity_code(k1) == spec_entity_code(k2) ==> {
            ||| k1 is Bat && k2 is Bat
            ||| k1 is Kraken && k2 is Kraken
            ||| k1 is GhostShip && k2 is GhostShip
            ||| k1 is Rock && k2 is Rock
            ||| k1 is RSkeleton && k2 is RSkeleton
            ||| k1 is Whirlpool && k2 is Whirlpool
            ||| (k1 is Storm || k1 is PoisonSkeleton) && (k2 is Storm || k2 is PoisonSkeleton)
        },
{
}

/// Every enemy starts alive, the boss with the most health, and an enemy's
/// id never changes how much health it starts with.
pub proof fn lemma_starting_health(kind: EnemyT, i: i32, j: i32)
    ensures
        spec_max_hp(kind) > 0,
        spec_max_hp(kind) < BOSS_MAX_HP,
        spec_max_hp(EnemyT::Kraken(i)) == spec_max_hp(EnemyT::Kraken(j)),
        spec_max_hp(EnemyT::GhostShip(i)) == spec_max_hp(EnemyT::GhostShip(j)),
        spec_max_hp(EnemyT::Whirlpool(i)) == spec_max_hp(EnemyT::Whirlpool(j)),
        spec_max_hp(EnemyT::Storm(i)) == spec_max_hp(EnemyT::Storm(j)),
{
}

} // verus!
