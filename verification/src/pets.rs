//! Traits over animals, a unit-carrying multiplication trait, and a
//! default-constructible player record.

use vstd::prelude::*;

verus! {

/// Something with a fixed number of legs.
pub trait Animal {
    fn leg_count(&self) -> u32;
}

/// A named animal.
pub trait Pets: Animal {
    fn name(&self) -> String;
}

/// A dog, known by its name.
pub struct Dogs(pub String);

impl Animal for Dogs {
    /// Dogs walk on four legs.
    fn leg_count(&self) -> (legs: u32)
        ensures
            legs == 4,
    {
        4
    }
}

impl Pets for Dogs {
    /// A dog answers to its own name.
    fn name(&self) -> (name: String)
        ensures
            name@ == self.0@,
    {
        self.0.clone()
    }
}

/// Multiplication that carries its unit into the result type.
pub trait Multiply {
    type Output;

    /// Whether the product of these two values stays in range.
    spec fn mul_ok(&self, other: &Self) -> bool;

    fn multiply(&self, other: &Self) -> Self::Output
        requires
            self.mul_ok(other),
    ;
}

/// A length in metres.
#[derive(Debug)]
pub struct Meters(pub i32);

/// An area in square metres.
#[derive(Debug)]
pub struct MetersSquared(pub i32);

impl Multiply for Meters {
    type Output = MetersSquared;

    /// Whether the area stays within `i32`.
    open spec fn mul_ok(&self, other: &Meters) -> bool {
        i32::MIN <= self.0 * other.0 <= i32::MAX
    }

    /// Two lengths multiply to an area.
    fn multiply(&self, other: &Self) -> (area: MetersSquared)
        ensures
            area.0 == self.0 * other.0,
    {
        MetersSquared(self.0 * other.0)
    }
}

/// A player: a name, strength, and hit points.
#[derive(Debug, Clone)]
pub struct Player {
    pub name: String,
    pub strength: u8,
    pub hit_points: u8,
}

impl Default for Player {
    /// A fresh player has an empty name and zeroed scores.
    fn default() -> (player: Player)
        ensures
            player.name@ == Seq::<char>::empty(),
            player.strength == 0,
            player.hit_points == 0,
    {
        Player { name: String::new(), strength: 0, hit_points: 0 }
    }
}

} // verus!
