use vstd::prelude::*;
use crate::point::Point;
use crate::scalar::Scalar;
use crate::vector::Vector;

verus! {

/// A body in flight.
#[derive(Debug, Clone, Copy, PartialEq)]
pub struct Projectile<T> {
    pub position: Point<T>,
    pub velocity: Vector<T>,
}

/// A projectile and what acts on it.
pub struct Environment<T> {
    pub gravity: Vector<T>,
    pub wind: Vector<T>,
    pub projectile: Projectile<T>,
}

impl<T: Scalar> Environment<T> {
    /// The projectile one tick later: moved by its velocity, and its
    /// velocity changed by gravity, then by wind.
    pub open spec fn tick_spec(self) -> Projectile<T> {
        Projectile {
            position: self.projectile.position.add_vector_spec(self.projectile.velocity),
            velocity: self.projectile.velocity.add_spec(self.gravity).add_spec(self.wind),
        }
    }

    /// The environment of a projectile at `position` that moves by
    /// `velocity` a tick.
    pub fn new(gravity: Vector<T>, wind: Vector<T>, position: Point<T>, velocity: Vector<T>) -> (e:
        Environment<T>)
        ensures
            e.gravity == gravity,
            e.wind == wind,
            e.projectile == (Projectile { position, velocity }),
    {
        let projectile = Projectile { position, velocity };
        Environment { gravity, wind, projectile }
    }

    /// Lets one tick pass.
    pub fn tick(&mut self)
        ensures
            final(self).gravity == old(self).gravity,
            final(self).wind == old(self).wind,
            final(self).projectile == old(self).tick_spec(),
    {
        let position = self.projectile.position.add_vector(self.projectile.velocity);
        let velocity = self.projectile.velocity.add(self.gravity).add(self.wind);
        self.projectile = Projectile { position, velocity };
    }
}

} // verus!
