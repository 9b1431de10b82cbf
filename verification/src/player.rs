use vstd::prelude::*;
use crate::animation::SpriteState;
use crate::inventory::Inventory;

verus! {

/// Weapon number of the cutlass.
pub const SWORD: u8 = 0;
/// Weapon number of the musket.
pub const MUSKET: u8 = 1;
/// Horizontal distance from the pirate at which the held weapon is drawn.
pub const WEAPON_OFFSET: i32 = 32;

/// The pirate the player steers on islands and in dungeons.
pub struct Player {
    pub animation_state: SpriteState,
    pub health: i32,
    pub max_health: i32,
    pub inventory: Inventory,
    pub weapon: u8,
}

/// The side of the pirate on which the weapon is held.
#[derive(Clone, Copy, PartialEq, Eq, Structural, Debug)]
pub enum Side {
    Left,
    Right,
}

/// The other weapon: the cutlass and the musket are exchanged, any other
/// number is left as it is.
pub open spec fn swapped_weapon(weapon: u8) -> u8 {
    if weapon == SWORD {
        MUSKET
    } else if weapon == MUSKET {
        SWORD
    } else {
        weapon
    }
}

/// Health after the hits of one frame: a hit costs one point, and a pirate
/// left with none is restored to its maximum.
pub open spec fn health_after_hit(health: int, max_health: int, colliding: bool) -> int {
    if !colliding {
        health
    } else if health - 1 <= 0 {
        max_health
    } else {
        health - 1
    }
}

impl Player {
    /// A freshly spawned pirate: idle, at full health, holding the cutlass.
    pub fn new(max_health: i32, money: u32) -> (p: Player)
        ensures
            p.animation_state == SpriteState::Idle,
            p.health == max_health,
            p.max_health == max_health,
            p.inventory.money == money,
            p.inventory.items@.len() == 0,
            p.weapon == SWORD,
    {
        Player {
            animation_state: SpriteState::Idle,
            health: max_health,
            max_health,
            inventory: Inventory::new(money),
            weapon: SWORD,
        }
    }

    /// Applies a hit taken since the last frame: one point of health is lost,
    /// and when none is left the pirate is healed to full and must be put back
    /// at its spawn position. Returns whether that respawn is due.
    pub fn check_player_health(&mut self, colliding: bool) -> (respawn: bool)
        requires
            old(self).health > i32::MIN,
        ensures
            final(self).max_health == old(self).max_health,
            final(self).inventory == old(self).inventory,
            final(self).weapon == old(self).weapon,
            final(self).animation_state == old(self).animation_state,
            final(self).health == health_after_hit(old(self).health as int, old(self).max_health as int, colliding),
            respawn == (colliding && old(self).health - 1 <= 0),
    {
        if !colliding {
            return false;
        }
        self.health = self.health - 1;
        if self.health <= 0 {
            self.health = self.max_health;
            true
        } else {
            false
        }
    }
}

/// Exchanges the cutlass for the musket and back.
pub fn swap_weapon(weapon: u8) -> (next: u8)
    ensures
        next == swapped_weapon(weapon),
{
    if weapon == SWORD {
        MUSKET
    } else if weapon == MUSKET {
        SWORD
    } else {
        weapon
    }
}

/// The side the weapon moves to for the pirate's animation: left when
/// running left or away, right when running right or towards the viewer,
/// unchanged while idle.
pub fn weapon_side(state: SpriteState) -> (side: Option<Side>)
    ensures
        side == (match state {
            SpriteState::LeftRun => Some(Side::Left),
            SpriteState::BackwardRun => Some(Side::Left),
            SpriteState::RightRun => Some(Side::Right),
            SpriteState::ForwardRun => Some(Side::Right),
            SpriteState::Idle => None,
        }),
{
    if state == SpriteState::LeftRun || state == SpriteState::BackwardRun {
        Some(Side::Left)
    } else if state == SpriteState::RightRun || state == SpriteState::ForwardRun {
        Some(Side::Right)
    } else {
        None
    }
}

/// Horizontal offset of the weapon on a side; the sprite is mirrored on the
/// left.
pub fn weapon_offset(side: Side) -> (r: (i32, bool))
    ensures
        side == Side::Left ==> r.0 == -WEAPON_OFFSET && r.1,
        side == Side::Right ==> r.0 == WEAPON_OFFSET && !r.1,
{
    match side {
        Side::Left => (-WEAPON_OFFSET, true),
        Side::Right => (WEAPON_OFFSET, false),
    }
}

/// Swapping weapons twice gives back the weapon held before.
pub proof fn lemma_swap_twice_restores(weapon: u8)
    ensures
        swapped_weapon(swapped_weapon(weapon)) == weapon,
{
}

/// A pirate whose health lies between one and its maximum keeps it there
/// whatever hit it takes.
pub proof fn lemma_health_stays_in_bounds(health: int, max_health: int, colliding: bool)
    requires
        0 < health <= max_health,
    ensures
        0 < health_after_hit(health, max_health, colliding) <= max_health,
{
}

/// Swapping always changes a held weapon, between the cutlass and the
/// musket; anything else is left as it is.
pub proof fn lemma_swap_changes_weapon(weapon: u8)
    ensures
        weapon == SWORD || weapon == MUSKET ==> swapped_weapon(weapon) != weapon && (swapped_weapon(weapon) == SWORD
            || swapped_weapon(weapon) == MUSKET),
        weapon != SWORD && weapon != MUSKET ==> swapped_weapon(weapon) == weapon,
{
}

/// Each hit costs the pirate one point of health, until the hit that would
/// leave none, which restores it to full; a frame without a hit changes
/// nothing.
pub proof fn lemma_hits_cost_one(health: int, max_health: int)
    ensures
        health > 1 ==> health_after_hit(health, max_health, true) == health - 1,
        health <= 1 ==> health_after_hit(health, max_health, true) == max_health,
        health_after_hit(health, max_health, false) == health,
{
}

} // verus!
