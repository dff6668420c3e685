use vstd::prelude::*;

verus! {

/// Whether the craft is still in the game. A game only ever goes from
/// `ALIVE` to `DEATH`.
#[derive(Clone, Copy, Debug, PartialEq, Eq, Structural)]
pub enum GameStatus {
    ALIVE,
    DEATH,
}

impl Default for GameStatus {
    fn default() -> (r: Self)
        ensures
            r == GameStatus::ALIVE,
    {
        GameStatus::ALIVE
    }
}

/// A screen position: `element_i` is the row (growing downwards),
/// `element_j` the column.
#[derive(Clone, Copy, Debug, PartialEq, Eq, Structural)]
pub struct Location {
    pub element_i: u16,
    pub element_j: u16,
}

/// An enemy craft floating down the river.
#[derive(Clone, Debug, PartialEq, Eq)]
pub struct Enemy {
    pub location: Location,
    pub logo: String,
}

/// A shot of the craft, climbing up the screen; an inactive one hits nothing.
#[derive(Clone, Debug, PartialEq, Eq)]
pub struct Bullet {
    pub location: Location,
    pub active: bool,
    pub logo: String,
}

/// A fuel pickup floating down the river.
#[derive(Clone, Debug, PartialEq, Eq)]
pub struct Fuel {
    pub location: Location,
    pub logo: String,
}

/// The sound effects a front end may play; each carries the asset to play.
pub enum Sound {
    EnemyKilled(String),
    FuelObtained(String),
    BoatCrashed(String),
}

impl Enemy {
    pub fn duplicate(&self) -> (r: Enemy)
        ensures
            r == *self,
    {
        Enemy { location: self.location, logo: self.logo.clone() }
    }
}

impl Bullet {
    pub fn duplicate(&self) -> (r: Bullet)
        ensures
            r == *self,
    {
        Bullet { location: self.location, active: self.active, logo: self.logo.clone() }
    }
}

impl Fuel {
    pub fn duplicate(&self) -> (r: Fuel)
        ensures
            r == *self,
    {
        Fuel { location: self.location, logo: self.logo.clone() }
    }
}

} // verus!
