//! A wall tile of the discrete-facing scene.
use crate::character::Character;
use crate::game_object::TILE_SIZE;
use crate::geometry::{overlaps, overlaps_spec, Aabb, Vector2};
use vstd::prelude::*;

verus! {

#[derive(Clone, Copy, PartialEq, Eq, Structural, Debug)]
pub struct Wall {
    pub hit_box: Aabb,
}

impl Wall {
    /// A tile-sized wall at `position`.
    pub fn new(position: Vector2) -> (r: Wall)
        ensures
            r.hit_box == (Aabb { pos: position, size: Vector2 { x: TILE_SIZE, y: TILE_SIZE } }),
    {
        Wall { hit_box: Aabb { pos: position, size: Vector2 { x: TILE_SIZE, y: TILE_SIZE } } }
    }

    pub fn sprite(&self) -> (r: Aabb)
        ensures
            r == self.hit_box,
    {
        self.hit_box
    }

    pub fn size(&self) -> (r: Vector2)
        ensures
            r == self.hit_box.size,
    {
        self.hit_box.size
    }

    pub fn position(&self) -> (r: Vector2)
        ensures
            r == self.hit_box.pos,
    {
        self.hit_box.pos
    }

    /// Whether the wall overlaps the character; a wall stops everything.
    pub fn collides_with(&self, other_object: &Character) -> (r: bool)
        ensures
            r == overlaps_spec(self.hit_box, other_object.sprite),
    {
        overlaps(&self.hit_box, &other_object.sprite)
    }
}

} // verus!
