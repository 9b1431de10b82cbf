use vstd::prelude::*;

verus! {

/// Largest acceleration the boat builds up before it stops gaining more.
pub const MAX_ACCEL: i32 = 800;
/// Acceleration gained per frame while sailing forward.
pub const ACCEL_GAIN: i32 = 3;
/// Acceleration lost per frame otherwise.
pub const ACCEL_LOSS: i32 = 7;
/// Hull points of a new boat.
pub const BOAT_MAX_HP: i32 = 5;
/// Hull points a storm takes each time it catches the boat.
pub const STORM_DAMAGE: i32 = 5;

/// The whole-number state of the player's boat: whose it is, its hull, and
/// the acceleration built up by sailing.
pub struct Boat {
    pub id: i32,
    pub health: i32,
    pub max_health: i32,
    pub acceleration: i32,
}

/// Acceleration after one frame: it grows while the player sails forward and
/// has not passed the maximum, otherwise it decays, and a negative value left
/// by the decay is reset to zero on the next frame.
pub open spec fn accelerate(acc: int, forward: bool) -> int {
    if acc <= MAX_ACCEL && forward {
        acc + ACCEL_GAIN
    } else if acc > 0 {
        acc - ACCEL_LOSS
    } else if acc < 0 {
        0
    } else {
        acc
    }
}

/// The range the boat's acceleration stays in once it starts at zero.
pub open spec fn acceleration_in_range(acc: int) -> bool {
    -ACCEL_LOSS < acc <= MAX_ACCEL + ACCEL_GAIN
}

impl Boat {
    /// A new boat at rest with a full hull.
    pub fn new(id: i32) -> (b: Boat)
        ensures
            b.id == id,
            b.health == BOAT_MAX_HP,
            b.max_health == BOAT_MAX_HP,
            b.acceleration == 0,
    {
        Boat { id, health: BOAT_MAX_HP, max_health: BOAT_MAX_HP, acceleration: 0 }
    }

    /// Updates the acceleration for one frame of sailing.
    pub fn update_acceleration(&mut self, forward: bool)
        ensures
            final(self).acceleration == accelerate(old(self).acceleration as int, forward),
            final(self).id == old(self).id,
            final(self).health == old(self).health,
            final(self).max_health == old(self).max_health,
    {
        self.acceleration = next_acceleration(self.acceleration, forward);
    }

    /// Damages the hull once for each storm whose reach the boat is in.
    /// Returns whether any storm caught it, in which case the storm cooldown
    /// starts again.
    pub fn take_storm_damage(&mut self, storms_in_range: u32) -> (caught: bool)
        requires
            old(self).health - STORM_DAMAGE * storms_in_range >= i32::MIN,
        ensures
            final(self).health == old(self).health - STORM_DAMAGE * storms_in_range,
            caught == (storms_in_range > 0),
            final(self).id == old(self).id,
            final(self).max_health == old(self).max_health,
            final(self).acceleration == old(self).acceleration,
    {
        let mut k: u32 = 0;
        while k < storms_in_range
            invariant
                k <= storms_in_range,
                self.health == old(self).health - STORM_DAMAGE * k,
                old(self).health - STORM_DAMAGE * storms_in_range >= i32::MIN,
                self.id == old(self).id,
                self.max_health == old(self).max_health,
                self.acceleration == old(self).acceleration,
            decreases storms_in_range - k,
        {
            self.health = self.health - STORM_DAMAGE;
            k = k + 1;
        }
        storms_in_range > 0
    }

    /// Whether the hull is gone.
    pub fn is_destroyed(&self) -> (r: bool)
        ensures
            r == (self.health <= 0),
    {
        self.health <= 0
    }
}

/// Acceleration after one frame of sailing.
pub fn next_acceleration(acc: i32, forward: bool) -> (next: i32)
    ensures
        next == accelerate(acc as int, forward),
{
    if acc <= MAX_ACCEL && forward {
        acc + ACCEL_GAIN
    } else if acc > 0 {
        acc - ACCEL_LOSS
    } else if acc < 0 {
        0
    } else {
        acc
    }
}

/// The boat's acceleration never leaves its range, whatever the player
/// presses: a boat that starts at rest never exceeds the maximum by more than
/// one frame's gain, nor falls below zero by a whole frame's loss.
pub proof fn lemma_acceleration_stays_in_range(acc: int, forward: bool)
    requires
        acceleration_in_range(acc),
    ensures
        acceleration_in_range(accelerate(acc, forward)),
        acceleration_in_range(0),
{
}

/// Sailing forward below the maximum always builds acceleration up; anything
/// else lets a positive acceleration decay, and a boat left at rest or below
/// it ends at rest.
pub proof fn lemma_acceleration_direction(acc: int, forward: bool)
    ensures
        forward && acc <= MAX_ACCEL ==> accelerate(acc, forward) > acc,
        !(forward && acc <= MAX_ACCEL) && acc > 0 ==> accelerate(acc, forward) < acc,
        !(forward && acc <= MAX_ACCEL) && acc <= 0 ==> accelerate(acc, forward) == 0,
        acc >= 0 ==> accelerate(acc, forward) - acc <= ACCEL_GAIN,
        acc > 0 ==> acc - accelerate(acc, forward) <= ACCEL_LOSS,
{
}

} // verus!
