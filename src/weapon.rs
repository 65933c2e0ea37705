//! A melee weapon held by a `Character`.
use crate::character::Character;
pub use crate::game_object::WeaponState;
use crate::geometry::{overlaps, overlaps_spec, Aabb, Vector2};
use vstd::prelude::*;

verus! {

#[derive(Clone, Copy, PartialEq, Eq, Structural, Debug)]
pub struct Weapon {
    /// How far the weapon reaches out while attacking.
    pub range: i64,
    pub sprite: Aabb,
    pub collidable: bool,
    pub state: WeaponState,
}

impl Weapon {
    /// A collidable weapon at rest.
    pub fn new(new_sprite: Aabb, new_range: i64) -> (r: Weapon)
        ensures
            r == (Weapon {
                range: new_range,
                sprite: new_sprite,
                collidable: true,
                state: WeaponState::Default,
            }),
    {
        Weapon { sprite: new_sprite, range: new_range, collidable: true, state: WeaponState::Default }
    }

    pub fn set_position(&mut self, new_position: Vector2)
        ensures
            *final(self) == (Weapon {
                sprite: Aabb { pos: new_position, size: old(self).sprite.size },
                ..*old(self)
            }),
    {
        self.sprite.pos = new_position;
    }

    pub fn range(&self) -> (r: i64)
        ensures
            r == self.range,
    {
        self.range
    }

    pub fn state(&self) -> (r: WeaponState)
        ensures
            r == self.state,
    {
        self.state
    }

    pub fn set_state(&mut self, new_state: WeaponState)
        ensures
            *final(self) == (Weapon { state: new_state, ..*old(self) }),
    {
        self.state = new_state;
    }

    pub fn sprite(&self) -> (r: Aabb)
        ensures
            r == self.sprite,
    {
        self.sprite
    }

    pub fn size(&self) -> (r: Vector2)
        ensures
            r == self.sprite.size,
    {
        self.sprite.size
    }

    pub fn position(&self) -> (r: Vector2)
        ensures
            r == self.sprite.pos,
    {
        self.sprite.pos
    }

    pub fn is_collidable(&self) -> (r: bool)
        ensures
            r == self.collidable,
    {
        self.collidable
    }

    /// Whether the weapon overlaps a collidable character.
    pub fn collides_with(&self, other_object: &Character) -> (r: bool)
        ensures
            r == (other_object.collidable && overlaps_spec(self.sprite, other_object.sprite)),
    {
        other_object.collidable && overlaps(&self.sprite, &other_object.sprite)
    }
}

} // verus!
