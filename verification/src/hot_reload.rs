//! The hot-reload demo class: a favorite planet and a number, there to
//! be changed while the engine keeps running.

use vstd::prelude::*;

verus! {

/// A planet.
#[derive(Clone, Copy, PartialEq, Eq, Structural, Debug)]
pub enum Planet {
    Earth,
    Mars,
    Venus,
}

/// The reloadable demo object.
#[derive(Clone, Copy, PartialEq, Eq, Structural, Debug)]
pub struct Reloadable {
    pub favorite_planet: Planet,
}

impl Reloadable {
    /// A fresh object, partial to Earth.
    pub fn init() -> (r: Reloadable)
        ensures
            r.favorite_planet == Planet::Earth,
    {
        Reloadable { favorite_planet: Planet::Earth }
    }

    /// The demo number.
    pub fn get_number(&self) -> (n: i64)
        ensures
            n == 100,
    {
        100
    }

    /// The favorite planet.
    pub fn get_planet(&self) -> (p: Planet)
        ensures
            p == self.favorite_planet,
    {
        self.favorite_planet
    }
}

} // verus!
