//! A small top-down action game's simulation core: moving, colliding
//! entities, weapons that orbit their owner, and projectiles.
//!
//! - `geometry`: points and boxes in whole sub-pixel units, overlap tests,
//!   integer square roots and distances.
//! - `game_object`: the entity every actor is made of, with momentum,
//!   axis-by-axis collision resolution, continuous aiming and shooting.
//! - `game_map`: the arena's fixed grid of wall and floor tiles.
//! - `tick`: one step of a scene of player, enemies and projectiles.
//! - `character`, `weapon`, `wall`: the simpler scene in which a character
//!   faces one of four ways and steps a fixed distance per key press.
//!
//! Lengths are integers, `geometry::UNITS_PER_PIXEL` to a pixel, so that the
//! simulation is exact and the same on every machine.
use vstd::prelude::*;

pub mod character;
pub mod game_map;
pub mod game_object;
pub mod geometry;
pub mod platform;
pub mod tick;
pub mod wall;
pub mod weapon;

verus! {

/// The kinds of object a scene is made of.
#[derive(Clone, Copy, PartialEq, Eq, Structural, Debug, Hash)]
pub enum GameObjectType {
    Enemy,
    Player,
    Weapon,
    Wall,
    Floor,
}

} // verus!
