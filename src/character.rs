//! A character of the discrete-facing scene: it faces one of four directions,
//! steps a fixed distance per key press, and holds a melee weapon beside it.
pub use crate::game_object::{Direction, WeaponState};
use crate::game_object::{clamp_spec, clamp_to_world, RANGE_LIMIT, SPEED_LIMIT, TILE_SIZE};
use crate::geometry::{in_world, overlaps, overlaps_spec, Aabb, Vector2, WORLD_LIMIT};
use crate::weapon::Weapon;
use crate::GameObjectType;
use vstd::prelude::*;

verus! {

/// Pixels a character steps per key press.
pub const CHARACTER_SPEED: i64 = 2000;

/// Side of a character's weapon.
pub const BLADE_SIZE: i64 = 24_000;

/// How far a character's weapon reaches out while attacking.
pub const BLADE_RANGE: i64 = 24_000;

pub struct Character {
    pub weapon: Option<Weapon>,
    pub sprite: Aabb,
    pub direction: Direction,
    /// Distance of one step.
    pub speed: i64,
    pub collidable: bool,
}

/// Where a weapon of the given size sits beside the owner's box: centred on
/// the side the owner faces, pushed out by its range while attacking; kept
/// inside the world.
pub open spec fn table_position_spec(
    owner: Aabb,
    direction: Direction,
    state: WeaponState,
    weapon_size: Vector2,
    range: int,
) -> Vector2 {
    let reach = if state == WeaponState::Attack { range } else { 0 };
    let mid_x = owner.pos.x + (owner.size.x / 2 - weapon_size.x / 2);
    let mid_y = owner.pos.y + (owner.size.y / 2 - weapon_size.y / 2);
    let (x, y) = match direction {
        Direction::Up => (mid_x, owner.pos.y - weapon_size.y - reach),
        Direction::Right => (owner.pos.x + owner.size.x + reach, mid_y),
        Direction::Down => (mid_x, owner.pos.y + owner.size.y + reach),
        Direction::Left => (owner.pos.x - weapon_size.x - reach, mid_y),
    };
    Vector2 {
        x: clamp_spec(x, -WORLD_LIMIT as int, WORLD_LIMIT as int) as i64,
        y: clamp_spec(y, -WORLD_LIMIT as int, WORLD_LIMIT as int) as i64,
    }
}

/// A step into this box is refused: it leaves the world or overlaps a
/// collidable element of the map.
pub open spec fn step_blocked_spec(b: Aabb, map: Seq<Character>) -> bool {
    ||| !in_world(b.pos)
    ||| exists|i: int| 0 <= i < map.len() && (#[trigger] map[i]).collidable && overlaps_spec(b, map[i].sprite)
}

/// The character after a step of `(dx, dy)` towards `direction`: it turns,
/// steps unless the step is blocked, and its weapon follows.
pub open spec fn walk_spec(c: Character, dx: int, dy: int, direction: Direction, map: Seq<Character>) -> Character {
    let b = Aabb { pos: Vector2 { x: (c.sprite.pos.x + dx) as i64, y: (c.sprite.pos.y + dy) as i64 }, size: c.sprite.size };
    let sprite = if step_blocked_spec(b, map) { c.sprite } else { b };
    (Character { sprite, direction, ..c }).placed_spec()
}

/// The character with its weapon in a new state, placed accordingly; one
/// without a weapon is unchanged.
pub open spec fn with_weapon_state_spec(c: Character, state: WeaponState) -> Character {
    match c.weapon {
        None => c,
        Some(w) => (Character { weapon: Some(Weapon { state, ..w }), ..c }).placed_spec(),
    }
}

/// Steps towards `target`: left or right, then up or down, each decided on
/// the position reached so far.
pub open spec fn step_towards_spec(c: Character, target: Vector2, map: Seq<Character>) -> Character {
    let s = c.speed as int;
    let c1 = if target.x < c.sprite.pos.x { walk_spec(c, -s, 0, Direction::Left, map) } else { c };
    let c2 = if target.x > c1.sprite.pos.x { walk_spec(c1, s, 0, Direction::Right, map) } else { c1 };
    let c3 = if target.y < c2.sprite.pos.y { walk_spec(c2, 0, -s, Direction::Up, map) } else { c2 };
    if target.y > c3.sprite.pos.y { walk_spec(c3, 0, s, Direction::Down, map) } else { c3 }
}

/// Whether `c` runs into `other`: `other` is collidable and the two boxes
/// overlap. Only `other`'s flag counts.
pub open spec fn character_collides_spec(c: Character, other: Character) -> bool {
    other.collidable && overlaps_spec(c.sprite, other.sprite)
}

/// Between two collidable characters, collision does not depend on which of
/// them asks: it is the overlap of their boxes.
pub proof fn lemma_character_collision_symmetric(c1: Character, c2: Character)
    requires
        c1.collidable,
        c2.collidable,
    ensures
        character_collides_spec(c1, c2) == character_collides_spec(c2, c1),
        character_collides_spec(c1, c2) == overlaps_spec(c1.sprite, c2.sprite),
{
}

impl Character {
    /// Fields in range, and the weapon, if any, sound apart from where it is.
    pub open spec fn loose_wf(&self) -> bool {
        &&& self.sprite.wf()
        &&& 0 <= self.speed <= SPEED_LIMIT
        &&& match self.weapon {
            None => true,
            Some(w) => w.sprite.wf() && 0 <= w.range <= RANGE_LIMIT,
        }
    }

    /// As `loose_wf`, and the weapon sits where the table puts it.
    pub open spec fn wf(&self) -> bool {
        &&& self.loose_wf()
        &&& match self.weapon {
            None => true,
            Some(w) => w.sprite.pos == table_position_spec(
                self.sprite,
                self.direction,
                w.state,
                w.sprite.size,
                w.range as int,
            ),
        }
    }

    /// The character with its weapon, if any, moved to where it belongs.
    pub open spec fn placed_spec(self) -> Character {
        match self.weapon {
            None => self,
            Some(w) => Character {
                weapon: Some(
                    Weapon {
                        sprite: Aabb {
                            pos: table_position_spec(self.sprite, self.direction, w.state, w.sprite.size, w.range as int),
                            size: w.sprite.size,
                        },
                        ..w
                    },
                ),
                ..self
            },
        }
    }
}

fn step_blocked(b: &Aabb, game_map: &Vec<Character>) -> (r: bool)
    ensures
        r == step_blocked_spec(*b, game_map@),
{
    if b.pos.x < -WORLD_LIMIT || b.pos.x > WORLD_LIMIT || b.pos.y < -WORLD_LIMIT || b.pos.y > WORLD_LIMIT {
        return true;
    }
    let mut i: usize = 0;
    while i < game_map.len()
        invariant
            0 <= i <= game_map.len(),
            in_world(b.pos),
            forall|j: int|
                0 <= j < i ==> !((#[trigger] game_map@[j]).collidable && overlaps_spec(*b, game_map@[j].sprite)),
        decreases game_map.len() - i,
    {
        if game_map[i].collidable && overlaps(b, &game_map[i].sprite) {
            assert(game_map@[i as int].collidable && overlaps_spec(*b, game_map@[i as int].sprite));
            return true;
        }
        i = i + 1;
    }
    false
}

impl Character {
    /// A player character at `position`, facing right, with its weapon
    /// beside it.
    pub fn new(position: Vector2) -> (r: Character)
        requires
            in_world(position),
        ensures
            r.wf(),
            r.sprite == (Aabb { pos: position, size: Vector2 { x: TILE_SIZE, y: TILE_SIZE } }),
            r.direction == Direction::Right,
            r.speed == CHARACTER_SPEED,
            r.collidable,
            r.weapon matches Some(w) && w.range == BLADE_RANGE && w.state == WeaponState::Default
                && w.collidable && w.sprite.size == (Vector2 { x: BLADE_SIZE, y: BLADE_SIZE }),
    {
        let blade = Weapon::new(
            Aabb { pos: position, size: Vector2 { x: BLADE_SIZE, y: BLADE_SIZE } },
            BLADE_RANGE,
        );
        let mut c = Character {
            sprite: Aabb { pos: position, size: Vector2 { x: TILE_SIZE, y: TILE_SIZE } },
            direction: Direction::Right,
            weapon: Some(blade),
            speed: CHARACTER_SPEED,
            collidable: true,
        };
        c.place_weapon();
        c
    }

    /// A character without a weapon, facing right.
    pub fn new_no_weapon(position: Vector2, is_collidable: bool) -> (r: Character)
        requires
            in_world(position),
        ensures
            r.wf(),
            r == (Character {
                sprite: Aabb { pos: position, size: Vector2 { x: TILE_SIZE, y: TILE_SIZE } },
                direction: Direction::Right,
                weapon: None,
                speed: CHARACTER_SPEED,
                collidable: is_collidable,
            }),
    {
        Character {
            sprite: Aabb { pos: position, size: Vector2 { x: TILE_SIZE, y: TILE_SIZE } },
            direction: Direction::Right,
            weapon: None,
            speed: CHARACTER_SPEED,
            collidable: is_collidable,
        }
    }

    /// A player gets a weapon; a floor tile is not collidable; anything else
    /// is a collidable character without a weapon.
    pub fn new_of_type(position: Vector2, game_obj_type: GameObjectType) -> (r: Character)
        requires
            in_world(position),
        ensures
            r.wf(),
            r.sprite == (Aabb { pos: position, size: Vector2 { x: TILE_SIZE, y: TILE_SIZE } }),
            r.weapon is Some <==> game_obj_type == GameObjectType::Player,
            r.collidable <==> game_obj_type != GameObjectType::Floor,
    {
        match game_obj_type {
            GameObjectType::Player => Character::new(position),
            GameObjectType::Floor => Character::new_no_weapon(position, false),
            _ => Character::new_no_weapon(position, true),
        }
    }

    /// Moves the weapon, if any, to where the table puts it.
    fn place_weapon(&mut self)
        requires
            old(self).loose_wf(),
        ensures
            *final(self) == old(self).placed_spec(),
            final(self).wf(),
    {
        match self.weapon {
            Some(w) => {
                let p = self.recalculate_weapon_position(self.direction, w.state);
                let mut moved = w;
                moved.sprite.pos = p.unwrap();
                self.weapon = Some(moved);
            },
            None => {},
        }
    }

    /// Where the weapon would sit for the given facing and state, if there is
    /// a weapon.
    pub fn recalculate_weapon_position(&self, direction: Direction, state: WeaponState) -> (r: Option<Vector2>)
        requires
            self.loose_wf(),
        ensures
            r is Some <==> self.weapon is Some,
            r matches Some(p) ==> self.weapon matches Some(w) && p == table_position_spec(
                self.sprite,
                direction,
                state,
                w.sprite.size,
                w.range as int,
            ),
    {
        match self.weapon {
            None => None,
            Some(w) => {
                let ox = self.sprite.pos.x as i128;
                let oy = self.sprite.pos.y as i128;
                let ow = self.sprite.size.x as i128;
                let oh = self.sprite.size.y as i128;
                let ww = w.sprite.size.x as i128;
                let wh = w.sprite.size.y as i128;
                let reach: i128 = match state {
                    WeaponState::Attack => w.range as i128,
                    WeaponState::Default => 0,
                };
                let mid_x = ox + (ow / 2 - ww / 2);
                let mid_y = oy + (oh / 2 - wh / 2);
                let (x, y) = match direction {
                    Direction::Up => (mid_x, oy - wh - reach),
                    Direction::Right => (ox + ow + reach, mid_y),
                    Direction::Down => (mid_x, oy + oh + reach),
                    Direction::Left => (ox - ww - reach, mid_y),
                };
                Some(Vector2 { x: clamp_to_world(x), y: clamp_to_world(y) })
            },
        }
    }

    pub fn weapon(&self) -> (r: Option<&Weapon>)
        ensures
            r is Some <==> self.weapon is Some,
            r matches Some(w) ==> self.weapon == Some(*w),
    {
        match &self.weapon {
            Some(w) => Some(w),
            None => None,
        }
    }

    pub fn weapon_state(&self) -> (r: Option<WeaponState>)
        ensures
            r is Some <==> self.weapon is Some,
            r matches Some(s) ==> self.weapon matches Some(w) && s == w.state,
    {
        match &self.weapon {
            Some(w) => Some(w.state),
            None => None,
        }
    }

    /// Puts the weapon, if any, in the given state and beside the character
    /// accordingly.
    pub fn set_weapon_state(&mut self, new_state: WeaponState)
        requires
            old(self).wf(),
        ensures
            *final(self) == with_weapon_state_spec(*old(self), new_state),
            final(self).wf(),
    {
        match self.weapon {
            Some(w) => {
                let mut changed = w;
                changed.state = new_state;
                self.weapon = Some(changed);
                self.place_weapon();
            },
            None => {},
        }
    }

    /// Reaches out with the weapon, if any.
    pub fn attack(&mut self)
        requires
            old(self).wf(),
        ensures
            *final(self) == with_weapon_state_spec(*old(self), WeaponState::Attack),
            final(self).wf(),
    {
        self.set_weapon_state(WeaponState::Attack);
    }

    /// Draws the weapon, if any, back.
    pub fn un_attack(&mut self)
        requires
            old(self).wf(),
        ensures
            *final(self) == with_weapon_state_spec(*old(self), WeaponState::Default),
            final(self).wf(),
    {
        self.set_weapon_state(WeaponState::Default);
    }

    fn walk(&mut self, dx: i64, dy: i64, direction: Direction, game_map: &Vec<Character>)
        requires
            old(self).wf(),
            -SPEED_LIMIT <= dx <= SPEED_LIMIT,
            -SPEED_LIMIT <= dy <= SPEED_LIMIT,
        ensures
            *final(self) == walk_spec(*old(self), dx as int, dy as int, direction, game_map@),
            final(self).wf(),
    {
        self.direction = direction;
        let b = Aabb {
            pos: Vector2 { x: self.sprite.pos.x + dx, y: self.sprite.pos.y + dy },
            size: self.sprite.size,
        };
        if !step_blocked(&b, game_map) {
            self.sprite = b;
        }
        self.place_weapon();
    }

    /// Turns up and steps, unless the step would overlap a collidable element
    /// of the map or leave the world.
    pub fn move_up(&mut self, game_map: &Vec<Character>)
        requires
            old(self).wf(),
        ensures
            *final(self) == walk_spec(*old(self), 0, -old(self).speed as int, Direction::Up, game_map@),
            final(self).wf(),
    {
        self.walk(0, -self.speed, Direction::Up, game_map);
    }

    /// Turns down and steps, as `move_up`.
    pub fn move_down(&mut self, game_map: &Vec<Character>)
        requires
            old(self).wf(),
        ensures
            *final(self) == walk_spec(*old(self), 0, old(self).speed as int, Direction::Down, game_map@),
            final(self).wf(),
    {
        self.walk(0, self.speed, Direction::Down, game_map);
    }

    /// Turns left and steps, as `move_up`.
    pub fn move_left(&mut self, game_map: &Vec<Character>)
        requires
            old(self).wf(),
        ensures
            *final(self) == walk_spec(*old(self), -old(self).speed as int, 0, Direction::Left, game_map@),
            final(self).wf(),
    {
        self.walk(-self.speed, 0, Direction::Left, game_map);
    }

    /// Turns right and steps, as `move_up`.
    pub fn move_right(&mut self, game_map: &Vec<Character>)
        requires
            old(self).wf(),
        ensures
            *final(self) == walk_spec(*old(self), old(self).speed as int, 0, Direction::Right, game_map@),
            final(self).wf(),
    {
        self.walk(self.speed, 0, Direction::Right, game_map);
    }

    /// Steps towards `target_location` along each axis on which it lies off.
    pub fn move_towards(&mut self, target_location: Vector2, game_map: &Vec<Character>)
        requires
            old(self).wf(),
        ensures
            *final(self) == step_towards_spec(*old(self), target_location, game_map@),
            final(self).wf(),
    {
        if target_location.x < self.sprite.pos.x {
            self.move_left(game_map);
        }
        if target_location.x > self.sprite.pos.x {
            self.move_right(game_map);
        }
        if target_location.y < self.sprite.pos.y {
            self.move_up(game_map);
        }
        if target_location.y > self.sprite.pos.y {
            self.move_down(game_map);
        }
    }

    pub fn set_speed(&mut self, new_speed: i64)
        requires
            old(self).wf(),
            0 <= new_speed <= SPEED_LIMIT,
        ensures
            *final(self) == (Character { speed: new_speed, ..*old(self) }),
            final(self).wf(),
    {
        self.speed = new_speed;
    }

    pub fn sprite(&self) -> (r: Aabb)
        ensures
            r == self.sprite,
    {
        self.sprite
    }

    pub fn size(&self) -> (r: Vector2)
        ensures
            r == self.sprite.size,
    {
        self.sprite.size
    }

    pub fn position(&self) -> (r: Vector2)
        ensures
            r == self.sprite.pos,
    {
        self.sprite.pos
    }

    pub fn is_collidable(&self) -> (r: bool)
        ensures
            r == self.collidable,
    {
        self.collidable
    }

    /// Whether this character overlaps another, collidable, character.
    pub fn collides_with(&self, other_object: &Character) -> (r: bool)
        ensures
            r == character_collides_spec(*self, *other_object),
    {
        other_object.collidable && overlaps(&self.sprite, &other_object.sprite)
    }
}

} // verus!
