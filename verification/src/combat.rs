use vstd::prelude::*;
use crate::enemies::EnemyT;
use crate::inventory::Inventory;
use crate::shop::{generate_loot_item, is_loot_of, loot_price};

verus! {

/// A hit a hurt box has taken and not yet been charged for.
#[derive(Clone, Copy, PartialEq, Eq, Structural, Debug)]
pub struct Collision {
    pub is: bool,
    pub dmg: i32,
}

impl Collision {
    /// No pending hit.
    pub fn default() -> (c: Collision)
        ensures
            c == (Collision { is: false, dmg: 0 }),
    {
        Collision { is: false, dmg: 0 }
    }
}

/// What a hurt box needs to know of one hit box near it: whose side it is
/// on, whether it is a projectile that vanishes on impact, whether the two
/// boxes overlap, and the damage it deals.
#[derive(Clone, Copy, PartialEq, Eq, Structural, Debug)]
pub struct HitboxProbe {
    pub enemy: bool,
    pub projectile: bool,
    pub overlaps: bool,
    pub dmg: i32,
}

/// What happened to a hurt box this frame.
#[derive(Clone, Copy, PartialEq, Eq, Structural, Debug)]
pub enum HurtboxOutcome {
    /// Still in its invulnerability frames, which keep running down.
    Invulnerable,
    /// Nothing hit it.
    Miss,
    /// The hit box at `index` hit it; the hurt box records the hit and
    /// starts new invulnerability frames, and a projectile is removed.
    Hit { index: usize, dmg: i32, despawn_hitbox: bool },
}

/// The hit box at `i` can hit a hurt box of the given side: it belongs to the
/// other side and overlaps.
pub open spec fn hits(probes: Seq<HitboxProbe>, hurt_enemy: bool, i: int) -> bool {
    probes[i].enemy != hurt_enemy && probes[i].overlaps
}

/// `i` is the first hit box that hits.
pub open spec fn first_hitting(probes: Seq<HitboxProbe>, hurt_enemy: bool, i: int) -> bool {
    &&& 0 <= i < probes.len()
    &&& hits(probes, hurt_enemy, i)
    &&& forall|j: int| 0 <= j < i ==> !hits(probes, hurt_enemy, j)
}

/// Finds the first hit box, in the order given, that hits a hurt box of
/// the given side.
pub fn first_hit(hurt_enemy: bool, probes: &Vec<HitboxProbe>) -> (found: Option<usize>)
    ensures
        // Any hit box of the other side that overlaps, projectile or not, is
        // found, or an earlier one is.
        forall|i: int|
            0 <= i < probes@.len() && probes@[i].enemy != hurt_enemy && probes@[i].overlaps ==> (found matches Some(
                j,
            ) && j <= i),
        found matches Some(j) ==> probes@[j as int].enemy != hurt_enemy && probes@[j as int].overlaps,
        match found {
            Some(i) => first_hitting(probes@, hurt_enemy, i as int),
            None => forall|j: int| 0 <= j < probes@.len() ==> !hits(probes@, hurt_enemy, j),
        },
{
    let mut i: usize = 0;
    while i < probes.len()
        invariant
            i <= probes.len(),
            forall|j: int| 0 <= j < i ==> !hits(probes@, hurt_enemy, j),
            forall|j: int| 0 <= j < i ==> !(probes@[j].enemy != hurt_enemy && probes@[j].overlaps),
        decreases probes.len() - i,
    {
        if probes[i].enemy != hurt_enemy && probes[i].overlaps {
            return Some(i);
        }
        i = i + 1;
    }
    None
}

/// Decides what happens to one hurt box this frame: nothing can hit it
/// while its invulnerability frames run; otherwise the first hit box of the
/// other side that overlaps it hits it.
pub fn resolve_hurtbox(iframe_finished: bool, hurt_enemy: bool, probes: &Vec<HitboxProbe>) -> (outcome: HurtboxOutcome)
    ensures
        // Out of its invulnerability frames, a hurt box overlapped by a hit
        // box of the other side, projectile or not, is hit by it or by an
        // earlier one.
        iframe_finished ==> forall|i: int|
            0 <= i < probes@.len() && probes@[i].enemy != hurt_enemy && probes@[i].overlaps ==> (outcome matches HurtboxOutcome::Hit {
                index,
                ..
            } && index <= i),
        !iframe_finished ==> outcome == HurtboxOutcome::Invulnerable,
        iframe_finished ==> match outcome {
            HurtboxOutcome::Invulnerable => false,
            HurtboxOutcome::Miss => forall|j: int| 0 <= j < probes@.len() ==> !hits(probes@, hurt_enemy, j),
            HurtboxOutcome::Hit { index, dmg, despawn_hitbox } => first_hitting(probes@, hurt_enemy, index as int)
                && dmg == probes@[index as int].dmg && despawn_hitbox == probes@[index as int].projectile,
        },
{
    if !iframe_finished {
        return HurtboxOutcome::Invulnerable;
    }
    match first_hit(hurt_enemy, probes) {
        Some(i) => HurtboxOutcome::Hit { index: i, dmg: probes[i].dmg, despawn_hitbox: probes[i].projectile },
        None => HurtboxOutcome::Miss,
    }
}

/// What a pending hit did to an enemy.
#[derive(Clone, Copy, PartialEq, Eq, Structural, Debug)]
pub enum DamageOutcome {
    /// No hit was pending.
    Unhurt,
    /// The enemy lost health and lives on.
    Hurt,
    /// The enemy has no health left and is removed.
    Defeated,
}

pub open spec fn damage_outcome(pending: bool, hp_after: int) -> DamageOutcome {
    if !pending {
        DamageOutcome::Unhurt
    } else if hp_after <= 0 {
        DamageOutcome::Defeated
    } else {
        DamageOutcome::Hurt
    }
}

/// Charges an enemy one point of health for a pending hit and clears it; the
/// bat, kraken, ghost ship, boss and poison skeleton take damage this way.
pub fn enemy_damaged(hp: &mut i32, colliding: &mut Collision) -> (outcome: DamageOutcome)
    requires
        *old(hp) > i32::MIN,
    ensures
        !old(colliding).is ==> *final(hp) == *old(hp) && *final(colliding) == *old(colliding),
        old(colliding).is ==> *final(hp) == *old(hp) - 1 && *final(colliding) == (Collision {
            is: false,
            dmg: old(colliding).dmg,
        }),
        outcome == damage_outcome(old(colliding).is, *final(hp) as int),
{
    if !colliding.is {
        return DamageOutcome::Unhurt;
    }
    *hp = *hp - 1;
    colliding.is = false;
    if *hp <= 0 {
        DamageOutcome::Defeated
    } else {
        DamageOutcome::Hurt
    }
}

/// Puts the loot of a defeated enemy into the inventory, when it is worth
/// anything.
pub fn collect_loot(kind: EnemyT, inventory: &mut Inventory)
    ensures
        final(inventory).money == old(inventory).money,
        loot_price(kind) > 0 ==> final(inventory).items@.len() == old(inventory).items@.len() + 1
            && final(inventory).items@.drop_last() == old(inventory).items@
            && is_loot_of(final(inventory).items@.last(), kind),
        loot_price(kind) == 0 ==> final(inventory).items@ == old(inventory).items@,
{
    let loot = generate_loot_item(kind);
    if loot.price > 0 {
        inventory.add_item(loot);
        assert(inventory.items@.drop_last() =~= old(inventory).items@);
    }
}

/// Charges a skeleton one point of health for a pending hit; a defeated
/// skeleton leaves a bone in the player's inventory.
pub fn skeleton_damaged(hp: &mut i32, colliding: &mut Collision, inventory: &mut Inventory) -> (outcome: DamageOutcome)
    requires
        *old(hp) > i32::MIN,
    ensures
        !old(colliding).is ==> *final(hp) == *old(hp) && *final(colliding) == *old(colliding),
        old(colliding).is ==> *final(hp) == *old(hp) - 1 && !final(colliding).is && final(colliding).dmg
            == old(colliding).dmg,
        outcome == damage_outcome(old(colliding).is, *final(hp) as int),
        final(inventory).money == old(inventory).money,
        outcome == DamageOutcome::Defeated ==> final(inventory).items@.drop_last() == old(inventory).items@
            && final(inventory).items@.len() == old(inventory).items@.len() + 1
            && is_loot_of(final(inventory).items@.last(), EnemyT::RSkeleton),
        outcome != DamageOutcome::Defeated ==> final(inventory).items@ == old(inventory).items@,
{
    let outcome = enemy_damaged(hp, colliding);
    if outcome == DamageOutcome::Defeated {
        collect_loot(EnemyT::RSkeleton, inventory);
    }
    outcome
}

/// Charges a rock the damage of the pending hit and clears it; a defeated
/// rock leaves a shard in the player's inventory.
pub fn rock_damaged(hp: &mut i32, colliding: &mut Collision, inventory: &mut Inventory) -> (outcome: DamageOutcome)
    requires
        old(colliding).is ==> *old(hp) - old(colliding).dmg >= i32::MIN && *old(hp) - old(colliding).dmg <= i32::MAX,
    ensures
        !old(colliding).is ==> *final(hp) == *old(hp) && *final(colliding) == *old(colliding),
        old(colliding).is ==> *final(hp) == *old(hp) - old(colliding).dmg && *final(colliding) == (Collision {
            is: false,
            dmg: 0,
        }),
        outcome == damage_outcome(old(colliding).is, *final(hp) as int),
        final(inventory).money == old(inventory).money,
        outcome == DamageOutcome::Defeated ==> final(inventory).items@.drop_last() == old(inventory).items@
            && final(inventory).items@.len() == old(inventory).items@.len() + 1
            && is_loot_of(final(inventory).items@.last(), EnemyT::Rock),
        outcome != DamageOutcome::Defeated ==> final(inventory).items@ == old(inventory).items@,
{
    if !colliding.is {
        return DamageOutcome::Unhurt;
    }
    *hp = *hp - colliding.dmg;
    colliding.dmg = 0;
    let outcome = if *hp <= 0 {
        collect_loot(EnemyT::Rock, inventory);
        DamageOutcome::Defeated
    } else {
        DamageOutcome::Hurt
    };
    colliding.is = false;
    outcome
}

/// A hit box never hurts its own side.
pub proof fn lemma_no_friendly_fire(probes: Seq<HitboxProbe>, hurt_enemy: bool, i: int)
    requires
        0 <= i < probes.len(),
        probes[i].enemy == hurt_enemy,
    ensures
        !hits(probes, hurt_enemy, i),
        !first_hitting(probes, hurt_enemy, i),
{
}

/// A hit box of the other side that overlaps a hurt box always hits it, or
/// an earlier one does, whether or not it is a projectile.
pub proof fn lemma_overlap_from_other_side_hits(probes: Seq<HitboxProbe>, hurt_enemy: bool, i: int)
    requires
        0 <= i < probes.len(),
        probes[i].enemy != hurt_enemy,
        probes[i].overlaps,
    ensures
        exists|j: int| 0 <= j <= i && first_hitting(probes, hurt_enemy, j),
    decreases i,
{
    if forall|j: int| 0 <= j < i ==> !hits(probes, hurt_enemy, j) {
        assert(first_hitting(probes, hurt_enemy, i));
    } else {
        let j = choose|j: int| 0 <= j < i && hits(probes, hurt_enemy, j);
        lemma_overlap_from_other_side_hits(probes, hurt_enemy, j);
    }
}

/// Which hit box hits does not depend on whether any of them is a
/// projectile: that only decides whether the hit box is removed.
pub proof fn lemma_projectile_flag_does_not_decide(probes: Seq<HitboxProbe>, hurt_enemy: bool, k: int, j: int)
    requires
        0 <= k < probes.len(),
    ensures
        first_hitting(probes, hurt_enemy, j) == first_hitting(
            probes.update(
                k,
                HitboxProbe {
                    enemy: probes[k].enemy,
                    projectile: !probes[k].projectile,
                    overlaps: probes[k].overlaps,
                    dmg: probes[k].dmg,
                },
            ),
            hurt_enemy,
            j,
        ),
{
    let flipped = probes.update(
        k,
        HitboxProbe {
            enemy: probes[k].enemy,
            projectile: !probes[k].projectile,
            overlaps: probes[k].overlaps,
            dmg: probes[k].dmg,
        },
    );
    assert forall|m: int| 0 <= m < probes.len() implies hits(probes, hurt_enemy, m) == hits(flipped, hurt_enemy, m) by {
        if m == k {
            assert(flipped[m].enemy == probes[m].enemy && flipped[m].overlaps == probes[m].overlaps);
        } else {
            assert(flipped[m] == probes[m]);
        }
    }
}

/// A pending hit defeats an enemy exactly when it leaves no health, hurts it
/// otherwise, and without a pending hit nothing happens.
pub proof fn lemma_damage_outcomes(pending: bool, hp_after: int)
    ensures
        pending && hp_after <= 0 ==> damage_outcome(pending, hp_after) == DamageOutcome::Defeated,
        pending && hp_after > 0 ==> damage_outcome(pending, hp_after) == DamageOutcome::Hurt,
        !pending ==> damage_outcome(pending, hp_after) == DamageOutcome::Unhurt,
{
}

} // verus!
