//! The simulated entity: players, enemies, walls, floor tiles, weapons and
//! projectiles are all `GameObject`s.
//!
//! Positions and velocities are in sub-pixel units (see `geometry`); a facing
//! is a vector whose components are thousandths, `FACING_ONE` standing for 1.
use crate::geometry::{
    dist2, dist2_spec, in_world, isqrt, isqrt_wide, lemma_sqrt_ceil_bounds, overlaps, overlaps_spec,
    sqrt_ceil, sqrt_floor,
    lemma_sqrt_floor_bounds, lemma_sqrt_floor_unique, Aabb, Vector2,
    SIZE_LIMIT, UNITS_PER_PIXEL, WORLD_LIMIT,
};
use crate::GameObjectType;
use crate::platform::{random_in_range, Cooldown};
use vstd::arithmetic::div_mod::{
    lemma_div_by_multiple, lemma_div_is_ordered, lemma_div_is_ordered_by_denominator,
    lemma_div_pos_is_pos, lemma_fundamental_div_mod, lemma_mod_pos_bound,
};
use vstd::prelude::*;

verus! {

/// A facing component of magnitude one.
pub const FACING_ONE: i64 = 1000;

/// Scale at which a facing's length is taken when placing a weapon, so that
/// even the shortest facing gives its direction to well under a unit.
pub const FACING_SCALE: i64 = 68_719_476_736;

/// Largest stand-off distance of a weapon from its owner's centre.
pub const STANDOFF_LIMIT: i64 = 2_500_000_000;

/// How far one aiming nudge turns a facing component.
pub const FACING_STEP: i64 = 50;

/// Velocity change of one directional impulse (a tenth of a pixel per tick).
pub const ACCEL_STEP: i64 = 100;

/// Top speed of a walking entity, per axis (four pixels per tick).
pub const MAX_SPEED: i64 = 4000;

/// Pixels per tick that a projectile travels along a unit facing.
pub const PROJECTILE_SPEED: i64 = 8;

/// Largest speed, acceleration or top speed an entity may carry.
pub const SPEED_LIMIT: i64 = 1_000_000;

/// Largest weapon or projectile range.
pub const RANGE_LIMIT: i64 = 1_000_000_000;

/// Side of a map tile and of a player.
pub const TILE_SIZE: i64 = 32_000;

/// Side of a weapon, and of an enemy.
pub const WEAPON_SIZE: i64 = 12_000;

/// Range of the player's weapon.
pub const PLAYER_RANGE: i64 = 300_000;

/// Cooldown between shots of a plain object, in milliseconds.
pub const SHOT_PERIOD_MS: u64 = 250;

/// Cooldown between the player's shots, in milliseconds.
pub const PLAYER_SHOT_PERIOD_MS: u64 = 500;

#[derive(Clone, Copy, PartialEq, Eq, Structural, Debug, Hash)]
pub enum Direction {
    Up,
    Right,
    Left,
    Down,
}

#[derive(Clone, Copy, PartialEq, Eq, Structural, Debug, Hash)]
pub enum WeaponState {
    Default,
    Attack,
}

pub struct GameObject {
    /// The weapon this object carries; a weapon carries none itself.
    pub weapon: Option<Box<GameObject>>,
    /// Where the object was created; a projectile's range is measured from it.
    pub start_position: Vector2,
    pub sprite: Aabb,
    /// Where the object aims; never the zero vector.
    pub direction: Vector2,
    pub velocity: Vector2,
    pub acceleration: Vector2,
    pub max_speed: i64,
    /// The way the object last walked, for choosing its picture.
    pub heading: Direction,
    pub collidable: bool,
    pub state: WeaponState,
    pub range: i64,
    /// Whether the object has been hit.
    pub hit: bool,
    /// Paces the object's shots.
    pub shoot_rate: Cooldown,
}

/// A facing within the unit square and not zero.
pub open spec fn facing_ok(f: Vector2) -> bool {
    &&& -FACING_ONE <= f.x <= FACING_ONE
    &&& -FACING_ONE <= f.y <= FACING_ONE
    &&& (f.x != 0 || f.y != 0)
}

/// A facing within the unit disc.
pub open spec fn in_unit_disc(f: Vector2) -> bool {
    f.x * f.x + f.y * f.y <= FACING_ONE * FACING_ONE
}

pub open spec fn speed_ok(v: Vector2) -> bool {
    -SPEED_LIMIT <= v.x <= SPEED_LIMIT && -SPEED_LIMIT <= v.y <= SPEED_LIMIT
}

/// `f * d / m`, rounded towards zero.
pub open spec fn scale_spec(f: int, d: int, m: int) -> int {
    if f >= 0 {
        (f * d) / m
    } else {
        -(((-f) * d) / m)
    }
}

pub open spec fn clamp_spec(v: int, lo: int, hi: int) -> int {
    if v < lo {
        lo
    } else if v > hi {
        hi
    } else {
        v
    }
}

/// Length of a facing times `FACING_SCALE`, rounded up.
pub open spec fn facing_norm_spec(f: Vector2) -> nat {
    sqrt_ceil(((f.x * f.x + f.y * f.y) * FACING_SCALE * FACING_SCALE) as nat)
}

/// The displacement of length `d` along the facing `f`: `d * f / |f|`, each
/// component rounded towards zero.
pub open spec fn weapon_offset_spec(f: Vector2, d: int) -> Vector2 {
    let m = facing_norm_spec(f) as int;
    Vector2 {
        x: scale_spec(f.x as int, d * FACING_SCALE, m) as i64,
        y: scale_spec(f.y as int, d * FACING_SCALE, m) as i64,
    }
}

/// A displacement whose length lies between `d - 2` and `d` (squared, the
/// lower end taken as `d * d - 4 * d`).
pub open spec fn near_length(o: Vector2, d: int) -> bool {
    &&& o.x * o.x + o.y * o.y <= d * d
    &&& d * d <= o.x * o.x + o.y * o.y + 4 * d
}

/// Distance from the owner's centre to the centre of its weapon: the radius
/// of the circle round the owner's box, plus half the weapon's width, plus the
/// weapon's range while attacking.
pub open spec fn standoff_spec(owner: Aabb, state: WeaponState, weapon_size: Vector2, weapon_range: int) -> int {
    let hw = owner.size.x / 2;
    let hh = owner.size.y / 2;
    sqrt_floor((hw * hw + hh * hh) as nat) + weapon_size.x / 2 + if state == WeaponState::Attack {
        weapon_range
    } else {
        0
    }
}

/// Top-left corner of a weapon of the given size whose centre is displaced
/// from the owner's centre by the stand-off distance along the owner's facing
/// (see `weapon_offset_spec`); kept inside the world.
pub open spec fn weapon_position_spec(
    owner: Aabb,
    facing: Vector2,
    state: WeaponState,
    weapon_size: Vector2,
    weapon_range: int,
) -> Vector2 {
    let o = weapon_offset_spec(facing, standoff_spec(owner, state, weapon_size, weapon_range));
    let c = owner.center_spec();
    Vector2 {
        x: clamp_spec(c.x + o.x - weapon_size.x / 2, -WORLD_LIMIT as int, WORLD_LIMIT as int) as i64,
        y: clamp_spec(c.y + o.y - weapon_size.y / 2, -WORLD_LIMIT as int, WORLD_LIMIT as int) as i64,
    }
}

/// Whether a box belonging to an object that is (or is not) collidable runs
/// into a given obstacle.
pub open spec fn box_collides_spec(collidable: bool, b: Aabb, other: GameObject) -> bool {
    collidable && other.collidable && overlaps_spec(b, other.sprite)
}

/// Collision between two objects does not depend on which of them asks.
pub proof fn lemma_collision_symmetric(a: GameObject, b: GameObject)
    ensures
        box_collides_spec(a.collidable, a.sprite, b) == box_collides_spec(b.collidable, b.sprite, a),
{
}

/// Whether the box runs into any obstacle of the map.
pub open spec fn hits_map_spec(collidable: bool, b: Aabb, map: Seq<GameObject>) -> bool {
    exists|i: int| 0 <= i < map.len() && box_collides_spec(collidable, b, #[trigger] map[i])
}

/// A move into this box is refused: it leaves the world or runs into an
/// obstacle.
pub open spec fn blocked_spec(collidable: bool, b: Aabb, map: Seq<GameObject>) -> bool {
    !in_world(b.pos) || hits_map_spec(collidable, b, map)
}

pub open spec fn shifted(b: Aabb, dx: int, dy: int) -> Aabb {
    Aabb { pos: Vector2 { x: (b.pos.x + dx) as i64, y: (b.pos.y + dy) as i64 }, size: b.size }
}

/// A velocity component after an impulse: the impulse is ignored if it would
/// take the speed past the top speed.
pub open spec fn impulse_spec(v: int, delta: int, max: int) -> int {
    if -max <= v + delta <= max {
        v + delta
    } else {
        v
    }
}

impl GameObject {
    /// The object's own fields are in range.
    pub open spec fn body_wf(&self) -> bool {
        &&& self.sprite.wf()
        &&& self.sprite.size.x <= SIZE_LIMIT
        &&& in_world(self.start_position)
        &&& facing_ok(self.direction)
        &&& speed_ok(self.velocity)
        &&& speed_ok(self.acceleration)
        &&& 0 <= self.max_speed <= SPEED_LIMIT
        &&& 0 <= self.range <= RANGE_LIMIT
    }

    /// Where this object's weapon belongs, given the weapon's size and range.
    pub open spec fn weapon_spot(&self, w: GameObject) -> Vector2 {
        weapon_position_spec(self.sprite, self.direction, self.state, w.sprite.size, w.range as int)
    }

    /// The object is in range, and so is its weapon, which carries no weapon
    /// and sits where the object's position, facing and state put it.
    pub open spec fn wf(&self) -> bool {
        &&& self.body_wf()
        &&& match self.weapon {
            None => true,
            Some(w) => {
                &&& w.body_wf()
                &&& w.weapon is None
                &&& w.sprite.pos == self.weapon_spot(*w)
            },
        }
    }

    /// The object with its weapon, if any, moved to where it belongs.
    pub open spec fn with_weapon_placed(self) -> GameObject {
        match self.weapon {
            None => self,
            Some(w) => GameObject {
                weapon: Some(
                    Box::new(
                        GameObject {
                            sprite: Aabb { pos: self.weapon_spot(*w), size: w.sprite.size },
                            ..*w
                        },
                    ),
                ),
                ..self
            },
        }
    }

    /// The object's fields in range, and its weapon, if any, sound apart from
    /// where it sits.
    pub open spec fn loose_wf(&self) -> bool {
        &&& self.body_wf()
        &&& match self.weapon {
            None => true,
            Some(w) => w.body_wf() && w.weapon is None,
        }
    }
}

/// `f * d / m` rounded towards zero, for a facing component `f` and `m > 0`.
fn scale_toward(f: i64, d: i64, m: i64) -> (r: i64)
    requires
        -FACING_ONE <= f <= FACING_ONE,
        0 <= d <= 4 * RANGE_LIMIT,
        1 <= m,
    ensures
        r == scale_spec(f as int, d as int, m as int),
        -FACING_ONE * 4 * RANGE_LIMIT <= r <= FACING_ONE * 4 * RANGE_LIMIT,
        -m <= f <= m ==> -d <= r <= d,
{
    let a: u64 = if f >= 0 {
        f as u64
    } else {
        (-f) as u64
    };
    assert(a * d <= FACING_ONE * 4 * RANGE_LIMIT) by (nonlinear_arith)
        requires
            0 <= a <= FACING_ONE,
            0 <= d <= 4 * RANGE_LIMIT,
    ;
    let n: u64 = a * (d as u64);
    let q: u64 = n / (m as u64);
    proof {
        lemma_div_is_ordered_by_denominator(n as int, 1, m as int);
        lemma_div_pos_is_pos(n as int, m as int);
        if a <= m {
            assert(a * d <= m * d) by (nonlinear_arith)
                requires
                    a <= m,
                    0 <= d,
            ;
            lemma_div_is_ordered(n as int, m * d, m as int);
            lemma_div_by_multiple(d as int, m as int);
            assert(m * d == d * m) by (nonlinear_arith);
        }
    }
    if f >= 0 {
        q as i64
    } else {
        -(q as i64)
    }
}

pub(crate) fn clamp_to_world(v: i128) -> (r: i64)
    ensures
        r == clamp_spec(v as int, -WORLD_LIMIT as int, WORLD_LIMIT as int),
{
    if v < -(WORLD_LIMIT as i128) {
        -WORLD_LIMIT
    } else if v > WORLD_LIMIT as i128 {
        WORLD_LIMIT
    } else {
        v as i64
    }
}

/// The scaled length of a sound facing is at least `FACING_SCALE`, and at
/// least each component times `FACING_SCALE`.
proof fn lemma_facing_norm(f: Vector2)
    requires
        facing_ok(f),
    ensures
        FACING_SCALE <= facing_norm_spec(f),
        -facing_norm_spec(f) <= f.x * FACING_SCALE <= facing_norm_spec(f),
        -facing_norm_spec(f) <= f.y * FACING_SCALE <= facing_norm_spec(f),
        facing_norm_spec(f) <= 2 * FACING_ONE * FACING_SCALE,
{
    let k: int = FACING_SCALE as int;
    let n = (f.x * f.x + f.y * f.y) * k * k;
    let m = facing_norm_spec(f) as int;
    assert(f.x * f.x + f.y * f.y >= 1) by (nonlinear_arith)
        requires
            f.x != 0 || f.y != 0,
    ;
    assert(f.x * f.x + f.y * f.y <= 2 * FACING_ONE * FACING_ONE) by (nonlinear_arith)
        requires
            -FACING_ONE <= f.x <= FACING_ONE,
            -FACING_ONE <= f.y <= FACING_ONE,
    ;
    assert(k * k <= n && (f.x * k) * (f.x * k) <= n && (f.y * k) * (f.y * k) <= n) by (nonlinear_arith)
        requires
            f.x * f.x + f.y * f.y >= 1,
            n == (f.x * f.x + f.y * f.y) * k * k,
            k > 0,
    ;
    assert(n <= (2 * FACING_ONE * k) * (2 * FACING_ONE * k) - 4 * FACING_ONE * k) by (nonlinear_arith)
        requires
            f.x * f.x + f.y * f.y <= 2 * FACING_ONE * FACING_ONE,
            n == (f.x * f.x + f.y * f.y) * k * k,
            k > 1,
    ;
    lemma_sqrt_ceil_bounds(n as nat);
    assert(k <= m) by (nonlinear_arith)
        requires
            k * k <= n,
            n <= m * m,
            0 <= m,
            0 < k,
    ;
    let ax = if f.x >= 0 { f.x * k } else { -f.x * k };
    let ay = if f.y >= 0 { f.y * k } else { -f.y * k };
    assert(ax * ax == (f.x * k) * (f.x * k) && ay * ay == (f.y * k) * (f.y * k)) by (nonlinear_arith)
        requires
            ax == f.x * k || ax == -(f.x * k),
            ay == f.y * k || ay == -(f.y * k),
    ;
    assert(ax <= m && ay <= m) by (nonlinear_arith)
        requires
            ax * ax <= n,
            ay * ay <= n,
            n <= m * m,
            0 <= m,
            0 <= ax,
            0 <= ay,
    ;
    assert(m <= 2 * FACING_ONE * k) by (nonlinear_arith)
        requires
            m == 0 || (m - 1) * (m - 1) < n,
            n <= (2 * FACING_ONE * k) * (2 * FACING_ONE * k) - 4 * FACING_ONE * k,
            0 <= m,
            k > 1,
    ;
}

/// `f * d * FACING_SCALE / m` rounded towards zero, for a facing component
/// `f` with `|f| * FACING_SCALE <= m`; it is at most `d` in size.
fn scale_by_norm(f: i64, d: i64, m: u128) -> (r: i64)
    requires
        -FACING_ONE <= f <= FACING_ONE,
        0 <= d <= STANDOFF_LIMIT,
        -m <= f * FACING_SCALE <= m,
        1 <= m,
    ensures
        r == scale_spec(f as int, d * FACING_SCALE, m as int),
        -d <= r <= d,
{
    let a: u128 = if f >= 0 {
        f as u128
    } else {
        (-f) as u128
    };
    let k: u128 = FACING_SCALE as u128;
    assert(a * d * k <= FACING_ONE * STANDOFF_LIMIT * FACING_SCALE) by (nonlinear_arith)
        requires
            0 <= a <= FACING_ONE,
            0 <= d <= STANDOFF_LIMIT,
            k == FACING_SCALE,
    ;
    assert(a * (d * k) == a * d * k) by (nonlinear_arith);
    let n: u128 = a * (d as u128) * k;
    let q: u128 = n / m;
    proof {
        lemma_div_pos_is_pos(n as int, m as int);
        assert(a * k <= m);
        assert(n <= m * d) by (nonlinear_arith)
            requires
                a * k <= m,
                n == a * d * k,
                0 <= d,
                0 <= a,
        ;
        lemma_div_is_ordered(n as int, m * d, m as int);
        lemma_div_by_multiple(d as int, m as int);
        assert(m * d == d * m) by (nonlinear_arith);
    }
    if f >= 0 {
        q as i64
    } else {
        -(q as i64)
    }
}

/// The weapon's displacement along a sound facing has length within two
/// units below the stand-off distance `d`, and never above it.
pub proof fn lemma_weapon_offset_near_standoff(f: Vector2, d: int)
    requires
        facing_ok(f),
        0 <= d <= STANDOFF_LIMIT,
    ensures
        near_length(weapon_offset_spec(f, d), d),
{
    let k: int = FACING_SCALE as int;
    let m = facing_norm_spec(f) as int;
    let n = (f.x * f.x + f.y * f.y) * k * k;
    lemma_facing_norm(f);
    lemma_sqrt_ceil_bounds(n as nat);
    let ax: int = if f.x >= 0 { f.x as int } else { -f.x };
    let ay: int = if f.y >= 0 { f.y as int } else { -f.y };
    let p = ax * (d * k);
    let q = ay * (d * k);
    let a = p / m;
    let b = q / m;
    let o = weapon_offset_spec(f, d);
    assert(ax * ax == f.x * f.x && ay * ay == f.y * f.y) by (nonlinear_arith)
        requires
            ax == f.x || ax == -f.x,
            ay == f.y || ay == -f.y,
    ;
    let dk = d * k;
    assert(0 <= dk && 0 <= p && 0 <= q) by (nonlinear_arith)
        requires
            0 <= ax,
            0 <= ay,
            0 <= d,
            0 < k,
            dk == d * k,
            p == ax * dk,
            q == ay * dk,
    ;
    lemma_fundamental_div_mod(p, m);
    lemma_fundamental_div_mod(q, m);
    lemma_mod_pos_bound(p, m);
    lemma_mod_pos_bound(q, m);
    lemma_div_pos_is_pos(p, m);
    lemma_div_pos_is_pos(q, m);
    assert(a * m <= p < (a + 1) * m && b * m <= q < (b + 1) * m) by (nonlinear_arith)
        requires
            p == m * a + p % m,
            q == m * b + q % m,
            0 <= p % m < m,
            0 <= q % m < m,
    ;
    assert(ax * k <= m && ay * k <= m);
    assert(p <= m * d && q <= m * d) by (nonlinear_arith)
        requires
            ax * k <= m,
            ay * k <= m,
            p == ax * dk,
            q == ay * dk,
            dk == d * k,
            0 <= d,
            0 <= ax,
            0 <= ay,
    ;
    assert(a <= d && b <= d) by (nonlinear_arith)
        requires
            a * m <= p <= m * d,
            b * m <= q <= m * d,
            0 < m,
    ;
    assert(o.x == a || o.x == -a);
    assert(o.y == b || o.y == -b);
    assert(o.x * o.x == a * a && o.y * o.y == b * b) by (nonlinear_arith)
        requires
            o.x == a || o.x == -a,
            o.y == b || o.y == -b,
    ;
    assert(p * p == (ax * ax) * (dk * dk)) by (nonlinear_arith)
        requires
            p == ax * dk,
    ;
    assert(q * q == (ay * ay) * (dk * dk)) by (nonlinear_arith)
        requires
            q == ay * dk,
    ;
    assert(n * (d * d) == (f.x * f.x + f.y * f.y) * (dk * dk)) by (nonlinear_arith)
        requires
            n == (f.x * f.x + f.y * f.y) * k * k,
            dk == d * k,
    ;
    assert(p * p + q * q == n * (d * d)) by (nonlinear_arith)
        requires
            p * p == (ax * ax) * (dk * dk),
            q * q == (ay * ay) * (dk * dk),
            n * (d * d) == (f.x * f.x + f.y * f.y) * (dk * dk),
            ax * ax == f.x * f.x,
            ay * ay == f.y * f.y,
    ;
    let t = a * a + b * b;
    // the upper end
    assert(t * (m * m) <= p * p + q * q) by (nonlinear_arith)
        requires
            0 <= a * m <= p,
            0 <= b * m <= q,
            t == a * a + b * b,
    ;
    assert(t <= d * d) by (nonlinear_arith)
        requires
            t * (m * m) <= n * (d * d),
            n <= m * m,
            0 < m,
            0 <= t,
    ;
    // the lower end
    assert(p * p + q * q < ((a + 1) * (a + 1) + (b + 1) * (b + 1)) * (m * m)) by (nonlinear_arith)
        requires
            0 <= p < (a + 1) * m,
            0 <= q < (b + 1) * m,
            0 < m,
    ;
    assert((m - 1) * (m - 1) * (d * d) <= n * (d * d)) by (nonlinear_arith)
        requires
            (m - 1) * (m - 1) < n,
    ;
    let s = a + b;
    assert(s * s <= 2 * t) by (nonlinear_arith)
        requires
            s == a + b,
            t == a * a + b * b,
    ;
    assert(1000 * s <= 1415 * d) by (nonlinear_arith)
        requires
            s * s <= 2 * (d * d),
            0 <= s,
            0 <= d,
    ;
    assert((a + 1) * (a + 1) + (b + 1) * (b + 1) == t + 2 * s + 2) by (nonlinear_arith)
        requires
            s == a + b,
            t == a * a + b * b,
    ;
    if t + 4 * d < d * d {
        let l = (m - 1) * (m - 1) * (d * d);
        let r = (t + 2 * s + 2) * (m * m);
        assert(l < r) by (nonlinear_arith)
            requires
                l == (m - 1) * (m - 1) * (d * d),
                r == (t + 2 * s + 2) * (m * m),
                (a + 1) * (a + 1) + (b + 1) * (b + 1) == t + 2 * s + 2,
                l <= p * p + q * q,
                p * p + q * q < ((a + 1) * (a + 1) + (b + 1) * (b + 1)) * (m * m),
        ;
        assert(1000 * r <= (1000 * (d * d) - 1170 * d + 1000) * (m * m)) by (nonlinear_arith)
            requires
                r == (t + 2 * s + 2) * (m * m),
                t <= d * d - 4 * d - 1,
                1000 * s <= 1415 * d,
        ;
        assert(1170 * d * m - 1000 * m < 2000 * (d * d)) by (nonlinear_arith)
            requires
                1000 * ((m - 1) * (m - 1) * (d * d)) < (1000 * (d * d) - 1170 * d + 1000) * (m * m),
                0 < m,
                0 <= d,
        ;
        assert(false) by (nonlinear_arith)
            requires
                1170 * d * m - 1000 * m < 2000 * (d * d),
                20 * d <= m,
                1 <= d,
        ;
    }
}

/// The circumradius part of the stand-off distance is below `SIZE_LIMIT`.
proof fn lemma_circumradius(hw: int, hh: int)
    requires
        0 <= hw <= SIZE_LIMIT / 2,
        0 <= hh <= SIZE_LIMIT / 2,
    ensures
        hw * hw + hh * hh <= SIZE_LIMIT * SIZE_LIMIT,
        sqrt_floor((hw * hw + hh * hh) as nat) <= SIZE_LIMIT,
{
    let n = hw * hw + hh * hh;
    assert(0 <= n <= SIZE_LIMIT * SIZE_LIMIT) by (nonlinear_arith)
        requires
            0 <= hw <= SIZE_LIMIT / 2,
            0 <= hh <= SIZE_LIMIT / 2,
            n == hw * hw + hh * hh,
    ;
    lemma_sqrt_floor_bounds(n as nat);
    let s = sqrt_floor(n as nat);
    assert(s <= SIZE_LIMIT) by (nonlinear_arith)
        requires
            s * s <= n,
            n <= SIZE_LIMIT * SIZE_LIMIT,
            0 <= s,
    ;
}

impl GameObject {
    /// Where a weapon of the given size and range goes: at the stand-off
    /// distance from this object's centre, in the direction it faces.
    pub fn calculate_weapon_position(&self, weapon_size: Vector2, weapon_range: i64) -> (r: Vector2)
        requires
            self.body_wf(),
            0 <= weapon_size.x <= SIZE_LIMIT,
            0 <= weapon_size.y <= SIZE_LIMIT,
            0 <= weapon_range <= RANGE_LIMIT,
        ensures
            r == weapon_position_spec(self.sprite, self.direction, self.state, weapon_size, weapon_range as int),
            in_world(r),
            near_length(
                weapon_offset_spec(
                    self.direction,
                    standoff_spec(self.sprite, self.state, weapon_size, weapon_range as int),
                ),
                standoff_spec(self.sprite, self.state, weapon_size, weapon_range as int),
            ),
    {
        let hw: i64 = self.sprite.size.x / 2;
        let hh: i64 = self.sprite.size.y / 2;
        proof {
            lemma_circumradius(hw as int, hh as int);
        }
        let radius: u64 = isqrt((hw * hw + hh * hh) as u64);
        let standoff: i64 = match self.state {
            WeaponState::Attack => radius as i64 + weapon_size.x / 2 + weapon_range,
            WeaponState::Default => radius as i64 + weapon_size.x / 2,
        };
        let fx: i64 = self.direction.x;
        let fy: i64 = self.direction.y;
        proof {
            lemma_facing_norm(self.direction);
            lemma_sqrt_floor_bounds(((fx * fx + fy * fy) * FACING_SCALE * FACING_SCALE) as nat);
            assert(0 <= fx * fx <= FACING_ONE * FACING_ONE) by (nonlinear_arith)
                requires
                    -FACING_ONE <= fx <= FACING_ONE,
            ;
            assert(0 <= fy * fy <= FACING_ONE * FACING_ONE) by (nonlinear_arith)
                requires
                    -FACING_ONE <= fy <= FACING_ONE,
            ;
        }
        let k: u128 = FACING_SCALE as u128;
        proof {
            assert((fx * fx + fy * fy) * k * k <= 2 * FACING_ONE * FACING_ONE * FACING_SCALE * FACING_SCALE)
                by (nonlinear_arith)
                requires
                    0 <= fx * fx + fy * fy <= 2 * FACING_ONE * FACING_ONE,
                    k == FACING_SCALE,
            ;
            lemma_weapon_offset_near_standoff(self.direction, standoff as int);
        }
        let n: u128 = ((fx * fx + fy * fy) as u128) * k * k;
        let root: u128 = isqrt_wide(n);
        let mag: u128 = if root * root == n {
            root
        } else {
            root + 1
        };
        let c = self.sprite.center();
        let ox: i64 = scale_by_norm(fx, standoff, mag);
        let oy: i64 = scale_by_norm(fy, standoff, mag);
        let x: i128 = c.x as i128 + ox as i128 - (weapon_size.x / 2) as i128;
        let y: i128 = c.y as i128 + oy as i128 - (weapon_size.y / 2) as i128;
        Vector2 { x: clamp_to_world(x), y: clamp_to_world(y) }
    }

    /// Moves the weapon, if any, to where this object's position, facing and
    /// state put it.
    fn place_weapon(&mut self)
        requires
            old(self).loose_wf(),
        ensures
            *final(self) == old(self).with_weapon_placed(),
            final(self).wf(),
    {
        let taken = self.weapon.take();
        match taken {
            Some(boxed) => {
                let mut w = *boxed;
                let p = self.calculate_weapon_position(w.sprite.size, w.range);
                w.sprite.pos = p;
                self.weapon = Some(Box::new(w));
            },
            None => {},
        }
    }
}

/// The object after an impulse of `delta` along x, walking towards `heading`.
pub open spec fn impulse_x_spec(e: GameObject, delta: int, heading: Direction) -> GameObject {
    GameObject {
        heading,
        velocity: Vector2 {
            x: impulse_spec(e.velocity.x as int, delta, e.max_speed as int) as i64,
            y: e.velocity.y,
        },
        ..e
    }
}

/// The object after an impulse of `delta` along y, walking towards `heading`.
pub open spec fn impulse_y_spec(e: GameObject, delta: int, heading: Direction) -> GameObject {
    GameObject {
        heading,
        velocity: Vector2 {
            x: e.velocity.x,
            y: impulse_spec(e.velocity.y as int, delta, e.max_speed as int) as i64,
        },
        ..e
    }
}

/// The impulses that steer an object towards `target`: one per axis on which
/// the target lies to either side of the object's position.
pub open spec fn move_towards_spec(e: GameObject, target: Vector2) -> GameObject {
    let p = e.sprite.pos;
    let e1 = if target.x < p.x { impulse_x_spec(e, -ACCEL_STEP as int, Direction::Left) } else { e };
    let e2 = if target.x > p.x { impulse_x_spec(e1, ACCEL_STEP as int, Direction::Right) } else { e1 };
    let e3 = if target.y < p.y { impulse_y_spec(e2, -ACCEL_STEP as int, Direction::Up) } else { e2 };
    if target.y > p.y { impulse_y_spec(e3, ACCEL_STEP as int, Direction::Down) } else { e3 }
}

/// The x half of a move: the object shifts by its x velocity, unless that is
/// blocked, in which case it stays and its x velocity drops to zero.
pub open spec fn resolve_x_spec(e: GameObject, map: Seq<GameObject>) -> GameObject {
    let b = shifted(e.sprite, e.velocity.x as int, 0);
    if blocked_spec(e.collidable, b, map) {
        GameObject { velocity: Vector2 { x: 0, y: e.velocity.y }, ..e }
    } else {
        GameObject { sprite: b, ..e }
    }
}

/// The y half of a move, as `resolve_x_spec`.
pub open spec fn resolve_y_spec(e: GameObject, map: Seq<GameObject>) -> GameObject {
    let b = shifted(e.sprite, 0, e.velocity.y as int);
    if blocked_spec(e.collidable, b, map) {
        GameObject { velocity: Vector2 { x: e.velocity.x, y: 0 }, ..e }
    } else {
        GameObject { sprite: b, ..e }
    }
}

/// One tick of motion against a map: x first, then y, then the weapon follows.
pub open spec fn momentum_spec(e: GameObject, map: Seq<GameObject>) -> GameObject {
    resolve_y_spec(resolve_x_spec(e, map), map).with_weapon_placed()
}

/// The other component of a unit facing whose one component is `c`.
pub open spec fn rest_of_unit_spec(c: int) -> int {
    sqrt_floor((FACING_ONE * FACING_ONE - c * c) as nat) as int
}

/// A facing turned one step: the named component moves by `FACING_STEP`
/// (stopping at -1 or 1), and the other is recomputed, keeping its sign, so
/// that the facing stays on the unit circle. A component already at the end
/// it moves towards stays.
pub open spec fn nudged_spec(f: Vector2, d: Direction) -> Vector2 {
    match d {
        Direction::Left => if f.x > -FACING_ONE {
            let x = if f.x - FACING_STEP < -FACING_ONE { -FACING_ONE as int } else { f.x - FACING_STEP };
            let m = rest_of_unit_spec(x as int);
            Vector2 { x: x as i64, y: (if f.y >= 0 { m } else { -m }) as i64 }
        } else {
            f
        },
        Direction::Right => if f.x < FACING_ONE {
            let x = if f.x + FACING_STEP > FACING_ONE { FACING_ONE as int } else { f.x + FACING_STEP };
            let m = rest_of_unit_spec(x as int);
            Vector2 { x: x as i64, y: (if f.y >= 0 { m } else { -m }) as i64 }
        } else {
            f
        },
        Direction::Up => if f.y > -FACING_ONE {
            let y = if f.y - FACING_STEP < -FACING_ONE { -FACING_ONE as int } else { f.y - FACING_STEP };
            let m = rest_of_unit_spec(y as int);
            Vector2 { x: (if f.x >= 0 { m } else { -m }) as i64, y: y as i64 }
        } else {
            f
        },
        Direction::Down => if f.y < FACING_ONE {
            let y = if f.y + FACING_STEP > FACING_ONE { FACING_ONE as int } else { f.y + FACING_STEP };
            let m = rest_of_unit_spec(y as int);
            Vector2 { x: (if f.x >= 0 { m } else { -m }) as i64, y: y as i64 }
        } else {
            f
        },
    }
}

/// A facing after a sequence of nudges, first to last.
pub open spec fn nudged_all_spec(f: Vector2, ds: Seq<Direction>) -> Vector2
    decreases ds.len(),
{
    if ds.len() == 0 {
        f
    } else {
        nudged_all_spec(nudged_spec(f, ds[0]), ds.subrange(1, ds.len() as int))
    }
}

/// For a component within [-1, 1], the rest of the unit is within [0, 1] and
/// the two square to at most one; the rest of zero is one.
proof fn lemma_rest_of_unit(c: int)
    requires
        -FACING_ONE <= c <= FACING_ONE,
    ensures
        0 <= rest_of_unit_spec(c) <= FACING_ONE,
        c * c + rest_of_unit_spec(c) * rest_of_unit_spec(c) <= FACING_ONE * FACING_ONE,
        c == 0 ==> rest_of_unit_spec(c) == FACING_ONE,
{
    let n = FACING_ONE * FACING_ONE - c * c;
    assert(0 <= c * c <= FACING_ONE * FACING_ONE) by (nonlinear_arith)
        requires
            -FACING_ONE <= c <= FACING_ONE,
    ;
    lemma_sqrt_floor_bounds(n as nat);
    let m = sqrt_floor(n as nat);
    assert(m <= FACING_ONE) by (nonlinear_arith)
        requires
            m * m <= n,
            n <= FACING_ONE * FACING_ONE,
            0 <= m,
    ;
    if c == 0 {
        assert(FACING_ONE * FACING_ONE < (FACING_ONE + 1) * (FACING_ONE + 1));
        lemma_sqrt_floor_unique(n as nat, FACING_ONE as nat);
    }
}

/// Nudging keeps a facing sound, and keeps a facing inside the unit disc
/// inside it.
pub proof fn lemma_nudge_keeps_facing(f: Vector2, d: Direction)
    requires
        facing_ok(f),
    ensures
        facing_ok(nudged_spec(f, d)),
        in_unit_disc(f) ==> in_unit_disc(nudged_spec(f, d)),
{
    let n = nudged_spec(f, d);
    if n != f {
        let (c, m) = match d {
            Direction::Left | Direction::Right => (n.x as int, n.y as int),
            Direction::Up | Direction::Down => (n.y as int, n.x as int),
        };
        lemma_rest_of_unit(c);
        let r = rest_of_unit_spec(c);
        assert(m == r || m == -r);
        assert(m * m == r * r) by (nonlinear_arith)
            requires
                m == r || m == -r,
        ;
        assert(n.x * n.x + n.y * n.y == c * c + m * m) by (nonlinear_arith)
            requires
                (c == n.x && m == n.y) || (c == n.y && m == n.x),
        ;
    }
}

/// Any sequence of nudges keeps a facing inside the unit disc, with each
/// component within [-1, 1], and never zero.
pub proof fn lemma_nudges_stay_in_unit_disc(f: Vector2, ds: Seq<Direction>)
    requires
        facing_ok(f),
        in_unit_disc(f),
    ensures
        facing_ok(nudged_all_spec(f, ds)),
        in_unit_disc(nudged_all_spec(f, ds)),
    decreases ds.len(),
{
    if ds.len() > 0 {
        lemma_nudge_keeps_facing(f, ds[0]);
        lemma_nudges_stay_in_unit_disc(nudged_spec(f, ds[0]), ds.subrange(1, ds.len() as int));
    }
}

/// A move never ends with the object overlapping an obstacle it was clear of:
/// each half of the move is refused when it would run into one.
pub proof fn lemma_momentum_keeps_clear(e: GameObject, map: Seq<GameObject>)
    requires
        e.wf(),
        !hits_map_spec(e.collidable, e.sprite, map),
    ensures
        !hits_map_spec(momentum_spec(e, map).collidable, momentum_spec(e, map).sprite, map),
{
    let e1 = resolve_x_spec(e, map);
    let e2 = resolve_y_spec(e1, map);
    assert(!hits_map_spec(e1.collidable, e1.sprite, map));
    assert(!hits_map_spec(e2.collidable, e2.sprite, map));
    assert(momentum_spec(e, map).sprite == e2.sprite);
}

/// Whether the object is a projectile shot from `owner`'s weapon: it starts
/// where the weapon is, has its size and range, flies along the owner's
/// facing at `PROJECTILE_SPEED`, and neither blocks nor is blocked.
pub open spec fn is_projectile_of(p: GameObject, owner: GameObject) -> bool {
    match owner.weapon {
        None => false,
        Some(w) => {
            &&& p.weapon is None
            &&& p.sprite == w.sprite
            &&& p.start_position == w.sprite.pos
            &&& p.direction == owner.direction
            &&& p.velocity == Vector2 {
                x: (owner.direction.x * PROJECTILE_SPEED) as i64,
                y: (owner.direction.y * PROJECTILE_SPEED) as i64,
            }
            &&& p.acceleration == Vector2 { x: 0, y: 0 }
            &&& p.max_speed == MAX_SPEED
            &&& p.heading == owner.heading
            &&& !p.collidable
            &&& p.state == WeaponState::Attack
            &&& p.range == w.range
            &&& !p.hit
        },
    }
}

/// Whether any of the projectiles overlaps the box.
pub open spec fn shot_by_any_spec(b: Aabb, bullets: Seq<GameObject>) -> bool {
    exists|i: int| 0 <= i < bullets.len() && overlaps_spec(b, #[trigger] bullets[i].sprite)
}

/// A freshly made object at `position` with the given size, velocity, range,
/// state and collidability, facing right, without weapon and unhit.
pub open spec fn fresh_spec(
    r: GameObject,
    position: Vector2,
    size: Vector2,
    velocity: Vector2,
    range: int,
    state: WeaponState,
    collidable: bool,
) -> bool {
    &&& r.weapon is None
    &&& r.sprite == Aabb { pos: position, size }
    &&& r.start_position == position
    &&& r.direction == Vector2 { x: FACING_ONE, y: 0 }
    &&& r.velocity == velocity
    &&& r.acceleration == Vector2 { x: 0, y: 0 }
    &&& r.max_speed == MAX_SPEED
    &&& r.heading == Direction::Right
    &&& r.collidable == collidable
    &&& r.state == state
    &&& r.range == range
    &&& !r.hit
}

/// Whether a box blocked for a move is: outside the world, or on an obstacle.
fn box_blocked(collidable: bool, b: &Aabb, map: &Vec<GameObject>) -> (r: bool)
    ensures
        r == blocked_spec(collidable, *b, map@),
{
    if b.pos.x < -WORLD_LIMIT || b.pos.x > WORLD_LIMIT || b.pos.y < -WORLD_LIMIT || b.pos.y > WORLD_LIMIT {
        return true;
    }
    box_hits_map(collidable, b, map)
}

/// Whether a box of an object that is (or is not) collidable runs into any
/// obstacle of the map; the first one found ends the search.
fn box_hits_map(collidable: bool, b: &Aabb, map: &Vec<GameObject>) -> (r: bool)
    ensures
        r == hits_map_spec(collidable, *b, map@),
{
    let mut i: usize = 0;
    while i < map.len()
        invariant
            0 <= i <= map.len(),
            forall|j: int| 0 <= j < i ==> !box_collides_spec(collidable, *b, #[trigger] map@[j]),
        decreases map.len() - i,
    {
        let o = &map[i];
        if collidable && o.collidable && overlaps(b, &o.sprite) {
            assert(box_collides_spec(collidable, *b, map@[i as int]));
            return true;
        }
        i = i + 1;
    }
    false
}

/// The component of a unit facing that goes with a component `c`.
fn rest_of_unit(c: i64) -> (r: i64)
    requires
        -FACING_ONE <= c <= FACING_ONE,
    ensures
        r == rest_of_unit_spec(c as int),
        0 <= r <= FACING_ONE,
{
    proof {
        lemma_rest_of_unit(c as int);
        assert(0 <= c * c <= FACING_ONE * FACING_ONE) by (nonlinear_arith)
            requires
                -FACING_ONE <= c <= FACING_ONE,
        ;
    }
    isqrt((FACING_ONE * FACING_ONE - c * c) as u64) as i64
}

fn nudge(f: Vector2, d: Direction) -> (r: Vector2)
    requires
        facing_ok(f),
    ensures
        r == nudged_spec(f, d),
{
    match d {
        Direction::Left => if f.x > -FACING_ONE {
            let x = if f.x - FACING_STEP < -FACING_ONE { -FACING_ONE } else { f.x - FACING_STEP };
            let m = rest_of_unit(x);
            Vector2 { x, y: if f.y >= 0 { m } else { -m } }
        } else {
            f
        },
        Direction::Right => if f.x < FACING_ONE {
            let x = if f.x + FACING_STEP > FACING_ONE { FACING_ONE } else { f.x + FACING_STEP };
            let m = rest_of_unit(x);
            Vector2 { x, y: if f.y >= 0 { m } else { -m } }
        } else {
            f
        },
        Direction::Up => if f.y > -FACING_ONE {
            let y = if f.y - FACING_STEP < -FACING_ONE { -FACING_ONE } else { f.y - FACING_STEP };
            let m = rest_of_unit(y);
            Vector2 { x: if f.x >= 0 { m } else { -m }, y }
        } else {
            f
        },
        Direction::Down => if f.y < FACING_ONE {
            let y = if f.y + FACING_STEP > FACING_ONE { FACING_ONE } else { f.y + FACING_STEP };
            let m = rest_of_unit(y);
            Vector2 { x: if f.x >= 0 { m } else { -m }, y }
        } else {
            f
        },
    }
}

impl GameObject {
    /// An object at `position` with the given size, velocity, range, weapon
    /// state and collidability; it faces right, carries no weapon, and may
    /// shoot four times a second.
    pub fn new(
        position: Vector2,
        size: Vector2,
        velocity: Vector2,
        range: i64,
        state: WeaponState,
        collidable: bool,
    ) -> (r: GameObject)
        requires
            in_world(position),
            0 <= size.x <= SIZE_LIMIT,
            0 <= size.y <= SIZE_LIMIT,
            speed_ok(velocity),
            0 <= range <= RANGE_LIMIT,
        ensures
            r.wf(),
            fresh_spec(r, position, size, velocity, range as int, state, collidable),
    {
        GameObject {
            weapon: None,
            start_position: position,
            sprite: Aabb { pos: position, size },
            direction: Vector2 { x: FACING_ONE, y: 0 },
            velocity,
            acceleration: Vector2 { x: 0, y: 0 },
            max_speed: MAX_SPEED,
            heading: Direction::Right,
            collidable,
            state,
            range,
            hit: false,
            shoot_rate: Cooldown::new(SHOT_PERIOD_MS),
        }
    }

    /// A player-sized, collidable object at rest, with the player's range,
    /// that may shoot twice a second.
    pub fn new_with_direction(position: Vector2) -> (r: GameObject)
        requires
            in_world(position),
        ensures
            r.wf(),
            fresh_spec(
                r,
                position,
                Vector2 { x: TILE_SIZE, y: TILE_SIZE },
                Vector2 { x: 0, y: 0 },
                PLAYER_RANGE as int,
                WeaponState::Default,
                true,
            ),
    {
        GameObject {
            weapon: None,
            start_position: position,
            sprite: Aabb { pos: position, size: Vector2 { x: TILE_SIZE, y: TILE_SIZE } },
            direction: Vector2 { x: FACING_ONE, y: 0 },
            velocity: Vector2 { x: 0, y: 0 },
            acceleration: Vector2 { x: 0, y: 0 },
            max_speed: MAX_SPEED,
            heading: Direction::Right,
            collidable: true,
            state: WeaponState::Default,
            range: PLAYER_RANGE,
            hit: false,
            shoot_rate: Cooldown::new(PLAYER_SHOT_PERIOD_MS),
        }
    }

    /// A player as `new_with_direction` makes it, armed with a weapon of the
    /// player's range placed in front of it.
    pub fn new_with_weapon(position: Vector2) -> (r: GameObject)
        requires
            in_world(position),
        ensures
            r.wf(),
            fresh_spec(
                GameObject { weapon: None, ..r },
                position,
                Vector2 { x: TILE_SIZE, y: TILE_SIZE },
                Vector2 { x: 0, y: 0 },
                PLAYER_RANGE as int,
                WeaponState::Default,
                true,
            ),
            match r.weapon {
                Some(w) => fresh_spec(
                    *w,
                    w.sprite.pos,
                    Vector2 { x: WEAPON_SIZE, y: WEAPON_SIZE },
                    Vector2 { x: 0, y: 0 },
                    PLAYER_RANGE as int,
                    WeaponState::Default,
                    false,
                ) && w.start_position == w.sprite.pos,
                None => false,
            },
    {
        let mut owner = GameObject::new_with_direction(position);
        let spot = owner.calculate_weapon_position(Vector2 { x: WEAPON_SIZE, y: WEAPON_SIZE }, PLAYER_RANGE);
        let mut weapon = GameObject::new_weapon(spot);
        weapon.range = PLAYER_RANGE;
        owner.weapon = Some(Box::new(weapon));
        owner
    }

    /// A small, collidable, attacking object somewhere in the arena, at whole
    /// pixels between (200, 100) and (800, 700).
    pub fn new_random_enemy() -> (r: GameObject)
        ensures
            r.wf(),
            fresh_spec(
                r,
                r.sprite.pos,
                Vector2 { x: WEAPON_SIZE, y: WEAPON_SIZE },
                Vector2 { x: 0, y: 0 },
                0,
                WeaponState::Attack,
                true,
            ),
            200 * UNITS_PER_PIXEL <= r.sprite.pos.x < 800 * UNITS_PER_PIXEL,
            100 * UNITS_PER_PIXEL <= r.sprite.pos.y < 700 * UNITS_PER_PIXEL,
            r.sprite.pos.x % UNITS_PER_PIXEL == 0,
            r.sprite.pos.y % UNITS_PER_PIXEL == 0,
    {
        let x = random_in_range(200, 800);
        let y = random_in_range(100, 700);
        GameObject::new(
            Vector2 { x: x * UNITS_PER_PIXEL, y: y * UNITS_PER_PIXEL },
            Vector2 { x: WEAPON_SIZE, y: WEAPON_SIZE },
            Vector2 { x: 0, y: 0 },
            0,
            WeaponState::Attack,
            true,
        )
    }

    /// A weapon: small, at rest, not collidable, without range.
    pub fn new_weapon(position: Vector2) -> (r: GameObject)
        requires
            in_world(position),
        ensures
            r.wf(),
            fresh_spec(
                r,
                position,
                Vector2 { x: WEAPON_SIZE, y: WEAPON_SIZE },
                Vector2 { x: 0, y: 0 },
                0,
                WeaponState::Default,
                false,
            ),
    {
        GameObject::new(
            position,
            Vector2 { x: WEAPON_SIZE, y: WEAPON_SIZE },
            Vector2 { x: 0, y: 0 },
            0,
            WeaponState::Default,
            false,
        )
    }

    /// A floor tile, which nothing collides with.
    pub fn new_floor(position: Vector2) -> (r: GameObject)
        requires
            in_world(position),
        ensures
            r.wf(),
            fresh_spec(
                r,
                position,
                Vector2 { x: TILE_SIZE, y: TILE_SIZE },
                Vector2 { x: 0, y: 0 },
                0,
                WeaponState::Default,
                false,
            ),
    {
        GameObject::new(
            position,
            Vector2 { x: TILE_SIZE, y: TILE_SIZE },
            Vector2 { x: 0, y: 0 },
            0,
            WeaponState::Default,
            false,
        )
    }

    /// A wall tile, which blocks collidable objects.
    pub fn new_wall(position: Vector2) -> (r: GameObject)
        requires
            in_world(position),
        ensures
            r.wf(),
            fresh_spec(
                r,
                position,
                Vector2 { x: TILE_SIZE, y: TILE_SIZE },
                Vector2 { x: 0, y: 0 },
                0,
                WeaponState::Default,
                true,
            ),
    {
        GameObject::new(
            position,
            Vector2 { x: TILE_SIZE, y: TILE_SIZE },
            Vector2 { x: 0, y: 0 },
            0,
            WeaponState::Default,
            true,
        )
    }

    /// An impulse upwards.
    pub fn move_up(&mut self)
        requires
            old(self).wf(),
        ensures
            *final(self) == impulse_y_spec(*old(self), -ACCEL_STEP as int, Direction::Up),
            final(self).wf(),
    {
        self.heading = Direction::Up;
        let v = self.velocity.y - ACCEL_STEP;
        if -self.max_speed <= v && v <= self.max_speed {
            self.velocity.y = v;
        }
    }

    /// An impulse downwards.
    pub fn move_down(&mut self)
        requires
            old(self).wf(),
        ensures
            *final(self) == impulse_y_spec(*old(self), ACCEL_STEP as int, Direction::Down),
            final(self).wf(),
    {
        self.heading = Direction::Down;
        let v = self.velocity.y + ACCEL_STEP;
        if -self.max_speed <= v && v <= self.max_speed {
            self.velocity.y = v;
        }
    }

    /// An impulse to the left.
    pub fn move_left(&mut self)
        requires
            old(self).wf(),
        ensures
            *final(self) == impulse_x_spec(*old(self), -ACCEL_STEP as int, Direction::Left),
            final(self).wf(),
    {
        self.heading = Direction::Left;
        let v = self.velocity.x - ACCEL_STEP;
        if -self.max_speed <= v && v <= self.max_speed {
            self.velocity.x = v;
        }
    }

    /// An impulse to the right.
    pub fn move_right(&mut self)
        requires
            old(self).wf(),
        ensures
            *final(self) == impulse_x_spec(*old(self), ACCEL_STEP as int, Direction::Right),
            final(self).wf(),
    {
        self.heading = Direction::Right;
        let v = self.velocity.x + ACCEL_STEP;
        if -self.max_speed <= v && v <= self.max_speed {
            self.velocity.x = v;
        }
    }

    /// Steers towards `target`, one impulse per axis on which it lies off.
    pub fn move_towards(&mut self, target_location: Vector2)
        requires
            old(self).wf(),
        ensures
            *final(self) == move_towards_spec(*old(self), target_location),
            final(self).wf(),
    {
        let p = self.sprite.pos;
        if target_location.x < p.x {
            self.move_left();
        }
        if target_location.x > p.x {
            self.move_right();
        }
        if target_location.y < p.y {
            self.move_up();
        }
        if target_location.y > p.y {
            self.move_down();
        }
    }

    /// Moves by the velocity against the map, one axis at a time: a step that
    /// would leave the world or overlap an obstacle is undone and stops the
    /// motion along that axis. The weapon then follows.
    pub fn carry_momentum(&mut self, game_map: &Vec<GameObject>)
        requires
            old(self).wf(),
        ensures
            *final(self) == momentum_spec(*old(self), game_map@),
            final(self).wf(),
    {
        let nx: i64 = self.sprite.pos.x + self.velocity.x;
        let bx = Aabb { pos: Vector2 { x: nx, y: self.sprite.pos.y }, size: self.sprite.size };
        if box_blocked(self.collidable, &bx, game_map) {
            self.velocity.x = 0;
        } else {
            self.sprite = bx;
        }
        let ny: i64 = self.sprite.pos.y + self.velocity.y;
        let by = Aabb { pos: Vector2 { x: self.sprite.pos.x, y: ny }, size: self.sprite.size };
        if box_blocked(self.collidable, &by, game_map) {
            self.velocity.y = 0;
        } else {
            self.sprite = by;
        }
        self.place_weapon();
    }

    /// Whether this object runs into any obstacle of the map where it stands.
    pub fn check_collisions(&self, game_map: &Vec<GameObject>) -> (r: bool)
        ensures
            r == hits_map_spec(self.collidable, self.sprite, game_map@),
    {
        box_hits_map(self.collidable, &self.sprite, game_map)
    }

    /// Turns the facing one step towards `new_direction`; the weapon follows.
    pub fn update_direction(&mut self, new_direction: Direction)
        requires
            old(self).wf(),
        ensures
            *final(self) == (GameObject {
                direction: nudged_spec(old(self).direction, new_direction),
                ..*old(self)
            }).with_weapon_placed(),
            final(self).wf(),
            in_unit_disc(old(self).direction) ==> in_unit_disc(final(self).direction),
    {
        proof {
            lemma_nudge_keeps_facing(self.direction, new_direction);
        }
        self.direction = nudge(self.direction, new_direction);
        self.place_weapon();
    }

    /// Aims along a stick's tilt; a tilt of zero leaves the facing as it was.
    /// The weapon follows.
    pub fn set_direction(&mut self, tilt: Vector2)
        requires
            old(self).wf(),
            -FACING_ONE <= tilt.x <= FACING_ONE,
            -FACING_ONE <= tilt.y <= FACING_ONE,
        ensures
            *final(self) == if tilt.x == 0 && tilt.y == 0 {
                *old(self)
            } else {
                (GameObject { direction: tilt, ..*old(self) }).with_weapon_placed()
            },
            final(self).wf(),
    {
        if tilt.x != 0 || tilt.y != 0 {
            self.direction = tilt;
            self.place_weapon();
        }
    }

    /// Whether any of the projectiles overlaps this object.
    pub fn got_shot(&self, bullets: &Vec<GameObject>) -> (r: bool)
        ensures
            r == shot_by_any_spec(self.sprite, bullets@),
    {
        let mut i: usize = 0;
        while i < bullets.len()
            invariant
                0 <= i <= bullets.len(),
                forall|j: int| 0 <= j < i ==> !overlaps_spec(self.sprite, #[trigger] bullets@[j].sprite),
            decreases bullets.len() - i,
        {
            if overlaps(&self.sprite, &bullets[i].sprite) {
                assert(overlaps_spec(self.sprite, bullets@[i as int].sprite));
                return true;
            }
            i = i + 1;
        }
        false
    }

    /// Whether the object has travelled further than its range from where it
    /// started.
    pub fn out_of_range(&self) -> (r: bool)
        requires
            self.body_wf(),
        ensures
            r == (dist2_spec(self.start_position, self.sprite.pos) > self.range * self.range),
    {
        let d = dist2(&self.start_position, &self.sprite.pos);
        proof {
            assert(0 <= self.range * self.range <= RANGE_LIMIT * RANGE_LIMIT) by (nonlinear_arith)
                requires
                    0 <= self.range <= RANGE_LIMIT,
            ;
        }
        let r2: u64 = (self.range as u64) * (self.range as u64);
        d > r2
    }

    /// The projectile this object's weapon would fire now, if it has one.
    pub fn projectile(&self) -> (r: Option<GameObject>)
        requires
            self.wf(),
        ensures
            r is Some <==> self.weapon is Some,
            r matches Some(p) ==> is_projectile_of(p, *self) && p.wf(),
    {
        match &self.weapon {
            None => None,
            Some(w) => {
                let pos = w.sprite.pos;
                Some(
                    GameObject {
                        weapon: None,
                        start_position: pos,
                        sprite: w.sprite,
                        direction: self.direction,
                        velocity: Vector2 {
                            x: self.direction.x * PROJECTILE_SPEED,
                            y: self.direction.y * PROJECTILE_SPEED,
                        },
                        acceleration: Vector2 { x: 0, y: 0 },
                        max_speed: MAX_SPEED,
                        heading: self.heading,
                        collidable: false,
                        state: WeaponState::Attack,
                        range: w.range,
                        hit: false,
                        shoot_rate: Cooldown::new(SHOT_PERIOD_MS),
                    },
                )
            },
        }
    }

    /// Fires a projectile when at least one cooldown period has elapsed and
    /// the object has a weapon, and then restarts the cooldown. Returns
    /// whether it fired.
    pub fn shoot_if_ready(&mut self, bullets: &mut Vec<GameObject>, elapsed_periods: usize) -> (fired: bool)
        requires
            old(self).wf(),
        ensures
            fired == (elapsed_periods >= 1 && old(self).weapon is Some),
            fired ==> final(bullets)@.len() == old(bullets)@.len() + 1
                && final(bullets)@.drop_last() == old(bullets)@
                && is_projectile_of(final(bullets)@.last(), *old(self))
                && final(bullets)@.last().wf(),
            !fired ==> final(bullets)@ == old(bullets)@,
            *final(self) == (GameObject { shoot_rate: final(self).shoot_rate, ..*old(self) }),
            final(self).wf(),
    {
        if elapsed_periods >= 1 {
            match self.projectile() {
                Some(p) => {
                    bullets.push(p);
                    self.shoot_rate.restart();
                    proof {
                        assert(bullets@.drop_last() =~= old(bullets)@);
                    }
                    return true;
                },
                None => {},
            }
        }
        false
    }

    /// Fires a projectile if the cooldown allows it and the object has a
    /// weapon. Whether the cooldown has run out depends on the clock, so
    /// either no projectile is added, or exactly one as `projectile` makes it.
    pub fn shoot(&mut self, bullets: &mut Vec<GameObject>)
        requires
            old(self).wf(),
        ensures
            final(bullets)@ == old(bullets)@ || (final(bullets)@.len() == old(bullets)@.len() + 1
                && final(bullets)@.drop_last() == old(bullets)@
                && is_projectile_of(final(bullets)@.last(), *old(self))
                && final(bullets)@.last().wf()),
            old(self).weapon is None ==> final(bullets)@ == old(bullets)@,
            *final(self) == (GameObject { shoot_rate: final(self).shoot_rate, ..*old(self) }),
            final(self).wf(),
    {
        let elapsed = self.shoot_rate.elapsed_periods();
        self.shoot_if_ready(bullets, elapsed);
    }
}

/// Velocity after one step of the object's own acceleration, each component
/// changing only if it stays within the top speed.
pub open spec fn accelerate_spec(e: GameObject) -> GameObject {
    GameObject {
        velocity: Vector2 {
            x: impulse_spec(e.velocity.x as int, e.acceleration.x as int, e.max_speed as int) as i64,
            y: impulse_spec(e.velocity.y as int, e.acceleration.y as int, e.max_speed as int) as i64,
        },
        ..e
    }
}

/// What `new_of_type` makes of each kind of object.
pub open spec fn of_type_spec(r: GameObject, position: Vector2, kind: GameObjectType) -> bool {
    match kind {
        GameObjectType::Player => fresh_spec(
            GameObject { weapon: None, ..r },
            position,
            Vector2 { x: TILE_SIZE, y: TILE_SIZE },
            Vector2 { x: 0, y: 0 },
            PLAYER_RANGE as int,
            WeaponState::Default,
            true,
        ) && r.weapon is Some,
        GameObjectType::Enemy => fresh_spec(
            r,
            position,
            Vector2 { x: WEAPON_SIZE, y: WEAPON_SIZE },
            Vector2 { x: 0, y: 0 },
            0,
            WeaponState::Attack,
            true,
        ),
        GameObjectType::Weapon => fresh_spec(
            r,
            position,
            Vector2 { x: WEAPON_SIZE, y: WEAPON_SIZE },
            Vector2 { x: 0, y: 0 },
            0,
            WeaponState::Default,
            false,
        ),
        GameObjectType::Wall => fresh_spec(
            r,
            position,
            Vector2 { x: TILE_SIZE, y: TILE_SIZE },
            Vector2 { x: 0, y: 0 },
            0,
            WeaponState::Default,
            true,
        ),
        GameObjectType::Floor => fresh_spec(
            r,
            position,
            Vector2 { x: TILE_SIZE, y: TILE_SIZE },
            Vector2 { x: 0, y: 0 },
            0,
            WeaponState::Default,
            false,
        ),
    }
}

impl GameObject {
    /// An object of the given kind at `position`: a player with its weapon, an
    /// enemy, a weapon, a wall or a floor tile.
    pub fn new_of_type(position: Vector2, kind: GameObjectType) -> (r: GameObject)
        requires
            in_world(position),
        ensures
            r.wf(),
            of_type_spec(r, position, kind),
    {
        match kind {
            GameObjectType::Player => GameObject::new_with_weapon(position),
            GameObjectType::Enemy => GameObject::new(
                position,
                Vector2 { x: WEAPON_SIZE, y: WEAPON_SIZE },
                Vector2 { x: 0, y: 0 },
                0,
                WeaponState::Attack,
                true,
            ),
            GameObjectType::Weapon => GameObject::new_weapon(position),
            GameObjectType::Wall => GameObject::new_wall(position),
            GameObjectType::Floor => GameObject::new_floor(position),
        }
    }

    /// Adds the object's acceleration to its velocity, per axis, unless that
    /// would pass the top speed.
    pub fn accelerate(&mut self)
        requires
            old(self).wf(),
        ensures
            *final(self) == accelerate_spec(*old(self)),
            final(self).wf(),
    {
        let vx = self.velocity.x + self.acceleration.x;
        if -self.max_speed <= vx && vx <= self.max_speed {
            self.velocity.x = vx;
        }
        let vy = self.velocity.y + self.acceleration.y;
        if -self.max_speed <= vy && vy <= self.max_speed {
            self.velocity.y = vy;
        }
    }

    /// Sets the acceleration from a stick's tilt: a full tilt gives one
    /// impulse (`ACCEL_STEP`) per tick.
    pub fn set_acceleration(&mut self, tilt: Vector2)
        requires
            old(self).wf(),
            -FACING_ONE <= tilt.x <= FACING_ONE,
            -FACING_ONE <= tilt.y <= FACING_ONE,
        ensures
            *final(self) == (GameObject {
                acceleration: Vector2 {
                    x: scale_spec(tilt.x as int, ACCEL_STEP as int, FACING_ONE as int) as i64,
                    y: scale_spec(tilt.y as int, ACCEL_STEP as int, FACING_ONE as int) as i64,
                },
                ..*old(self)
            }),
            final(self).wf(),
    {
        let ax = scale_toward(tilt.x, ACCEL_STEP, FACING_ONE);
        let ay = scale_toward(tilt.y, ACCEL_STEP, FACING_ONE);
        self.acceleration = Vector2 { x: ax, y: ay };
    }

    pub fn acceleration(&self) -> (r: Vector2)
        ensures
            r == self.acceleration,
    {
        self.acceleration
    }

    /// Arms the object with `new_weapon`, placed where it belongs.
    pub fn set_weapon(&mut self, new_weapon: GameObject)
        requires
            old(self).wf(),
            new_weapon.body_wf(),
            new_weapon.weapon is None,
        ensures
            *final(self) == (GameObject { weapon: Some(Box::new(new_weapon)), ..*old(self) }).with_weapon_placed(),
            final(self).wf(),
    {
        self.weapon = Some(Box::new(new_weapon));
        self.place_weapon();
    }

    /// The weapon the object carries, if any.
    pub fn weapon(&self) -> (r: Option<&GameObject>)
        ensures
            r is Some <==> self.weapon is Some,
            r matches Some(w) ==> self.weapon == Some(Box::new(*w)),
    {
        match &self.weapon {
            Some(w) => Some(&**w),
            None => None,
        }
    }

    pub fn heading(&self) -> (r: Direction)
        ensures
            r == self.heading,
    {
        self.heading
    }

    pub fn sprite(&self) -> (r: Aabb)
        ensures
            r == self.sprite,
    {
        self.sprite
    }

    pub fn size(&self) -> (r: Vector2)
        ensures
            r == self.sprite.size,
    {
        self.sprite.size
    }

    pub fn position(&self) -> (r: Vector2)
        ensures
            r == self.sprite.pos,
    {
        self.sprite.pos
    }

    /// The centre of the object's box.
    pub fn center(&self) -> (r: Vector2)
        requires
            self.body_wf(),
        ensures
            r == self.sprite.center_spec(),
    {
        self.sprite.center()
    }

    pub fn is_collidable(&self) -> (r: bool)
        ensures
            r == self.collidable,
    {
        self.collidable
    }

    pub fn is_hit(&self) -> (r: bool)
        ensures
            r == self.hit,
    {
        self.hit
    }

    /// Whether the two objects collide: both collidable, and overlapping.
    pub fn collides_with(&self, other_object: &GameObject) -> (r: bool)
        ensures
            r == box_collides_spec(self.collidable, self.sprite, *other_object),
    {
        self.collidable && other_object.collidable && overlaps(&self.sprite, &other_object.sprite)
    }

    /// Moves the object to `new_position`; the weapon follows.
    pub fn set_position(&mut self, new_position: Vector2)
        requires
            old(self).wf(),
            in_world(new_position),
        ensures
            *final(self) == (GameObject {
                sprite: Aabb { pos: new_position, size: old(self).sprite.size },
                ..*old(self)
            }).with_weapon_placed(),
            final(self).wf(),
    {
        self.sprite.pos = new_position;
        self.place_weapon();
    }

    pub fn range(&self) -> (r: i64)
        ensures
            r == self.range,
    {
        self.range
    }

    pub fn set_range(&mut self, new_range: i64)
        requires
            old(self).wf(),
            0 <= new_range <= RANGE_LIMIT,
        ensures
            *final(self) == (GameObject { range: new_range, ..*old(self) }),
            final(self).wf(),
    {
        self.range = new_range;
    }

    pub fn state(&self) -> (r: WeaponState)
        ensures
            r == self.state,
    {
        self.state
    }

    /// Sets the weapon state; the weapon reaches out by its range while
    /// attacking and comes back otherwise.
    pub fn set_state(&mut self, new_state: WeaponState)
        requires
            old(self).wf(),
        ensures
            *final(self) == (GameObject { state: new_state, ..*old(self) }).with_weapon_placed(),
            final(self).wf(),
    {
        self.state = new_state;
        self.place_weapon();
    }
}

} // verus!
