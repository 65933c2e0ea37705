//! The arena: a fixed grid of tiles, walls round the edge and floor inside.
use crate::game_object::{of_type_spec, GameObject, TILE_SIZE};
use crate::geometry::Vector2;
use crate::GameObjectType;
use vstd::prelude::*;

verus! {

/// Rows of tiles in the arena.
pub const MAP_ROWS: usize = 23;

/// Tiles in each row.
pub const MAP_COLS: usize = 32;

/// The kind of tile at a row and column: wall on the border, floor inside.
pub open spec fn tile_kind_spec(row: int, col: int) -> GameObjectType {
    if row == 0 || row == MAP_ROWS - 1 || col == 0 || col == MAP_COLS - 1 {
        GameObjectType::Wall
    } else {
        GameObjectType::Floor
    }
}

/// Top-left corner of the tile at a row and column.
pub open spec fn tile_position_spec(row: int, col: int) -> Vector2 {
    Vector2 { x: (col * TILE_SIZE) as i64, y: (row * TILE_SIZE) as i64 }
}

pub struct GameMap {
    /// The tiles, row by row, each row from left to right.
    pub map: Vec<GameObject>,
}

/// The kind of tile at a row and column of the arena.
pub fn tile_kind(row: usize, col: usize) -> (r: GameObjectType)
    ensures
        r == tile_kind_spec(row as int, col as int),
{
    if row == 0 || row == MAP_ROWS - 1 || col == 0 || col == MAP_COLS - 1 {
        GameObjectType::Wall
    } else {
        GameObjectType::Floor
    }
}

impl GameMap {
    /// Tile `i` of the arena is the one at row `i / MAP_COLS`, column
    /// `i % MAP_COLS`, of the kind and at the place the grid gives it.
    pub open spec fn wf(&self) -> bool {
        &&& self.map@.len() == MAP_ROWS * MAP_COLS
        &&& forall|i: int|
            0 <= i < self.map@.len() ==> {
                let row = i / MAP_COLS as int;
                let col = i % MAP_COLS as int;
                &&& (#[trigger] self.map@[i]).wf()
                &&& of_type_spec(self.map@[i], tile_position_spec(row, col), tile_kind_spec(row, col))
            }
    }

    /// Lays out the arena's tiles.
    pub fn new() -> (r: GameMap)
        ensures
            r.wf(),
    {
        let mut map: Vec<GameObject> = Vec::new();
        let mut i: usize = 0;
        while i < MAP_ROWS * MAP_COLS
            invariant
                0 <= i <= MAP_ROWS * MAP_COLS,
                map@.len() == i,
                forall|j: int|
                    0 <= j < i ==> {
                        let row = j / MAP_COLS as int;
                        let col = j % MAP_COLS as int;
                        &&& (#[trigger] map@[j]).wf()
                        &&& of_type_spec(map@[j], tile_position_spec(row, col), tile_kind_spec(row, col))
                    },
            decreases MAP_ROWS * MAP_COLS - i,
        {
            let row: usize = i / MAP_COLS;
            let col: usize = i % MAP_COLS;
            let position = Vector2 { x: (col as i64) * TILE_SIZE, y: (row as i64) * TILE_SIZE };
            let tile = GameObject::new_of_type(position, tile_kind(row, col));
            map.push(tile);
            i = i + 1;
        }
        GameMap { map }
    }

    /// The tiles, row by row.
    pub fn map(&self) -> (r: &Vec<GameObject>)
        ensures
            r@ == self.map@,
    {
        &self.map
    }
}

} // verus!
