use some_game::character::{Character, BLADE_RANGE};
use some_game::game_object::{Direction, WeaponState};
use some_game::geometry::{collision_line_circle, collision_rectangle_circle, Aabb, Circle, Line, Vector2};
use some_game::wall::Wall;
use some_game::weapon::Weapon;
use some_game::GameObjectType;

fn at(x: i64, y: i64) -> Vector2 {
    Vector2::new(x * 1000, y * 1000)
}

#[test]
fn character_holds_weapon_beside_it() {
    let mut c = Character::new(at(300, 300));
    assert_eq!(c.weapon().unwrap().position(), at(332, 304));
    c.attack();
    assert_eq!(c.weapon_state(), Some(WeaponState::Attack));
    assert_eq!(c.weapon().unwrap().position(), Vector2::new(332_000 + BLADE_RANGE, 304_000));
    c.un_attack();
    assert_eq!(c.weapon().unwrap().position(), at(332, 304));
}

#[test]
fn weapon_follows_each_step() {
    let map: Vec<Character> = Vec::new();
    let mut c = Character::new(at(300, 300));
    c.attack();
    c.move_up(&map);
    assert_eq!(c.position(), at(300, 298));
    assert_eq!(c.weapon().unwrap().position(), at(304, 250));
    c.un_attack();
    c.move_left(&map);
    assert_eq!(c.position(), at(298, 298));
    assert_eq!(c.weapon().unwrap().position(), at(274, 302));
    c.move_down(&map);
    assert_eq!(c.position(), at(298, 300));
    assert_eq!(c.weapon().unwrap().position(), at(302, 332));
    assert_eq!(c.direction, Direction::Down);
}

#[test]
fn walls_block_and_floors_do_not() {
    let wall = Character::new_of_type(at(300, 268), GameObjectType::Wall);
    let floor = Character::new_of_type(at(268, 300), GameObjectType::Floor);
    let map = vec![wall, floor];
    let mut c = Character::new(at(300, 300));
    c.move_up(&map);
    assert_eq!(c.position(), at(300, 300));
    assert_eq!(c.direction, Direction::Up);
    c.move_left(&map);
    assert_eq!(c.position(), at(298, 300));
}

#[test]
fn character_steps_towards_target() {
    let map: Vec<Character> = Vec::new();
    let mut enemy = Character::new_of_type(at(600, 300), GameObjectType::Enemy);
    assert!(enemy.weapon().is_none());
    enemy.move_towards(at(300, 310), &map);
    assert_eq!(enemy.position(), at(598, 302));
    enemy.set_speed(5000);
    enemy.move_towards(at(598, 302), &map);
    assert_eq!(enemy.position(), at(598, 302));
}

#[test]
fn character_without_weapon_ignores_attack() {
    let mut c = Character::new_no_weapon(at(10, 10), true);
    c.attack();
    assert!(c.weapon_state().is_none());
    assert!(c.recalculate_weapon_position(Direction::Up, WeaponState::Attack).is_none());
}

#[test]
fn collisions_between_pieces() {
    let player = Character::new(at(300, 300));
    let other = Character::new_no_weapon(at(320, 320), true);
    let ghost = Character::new_no_weapon(at(320, 320), false);
    assert!(player.collides_with(&other));
    assert!(!player.collides_with(&ghost));
    let wall = Wall::new(at(320, 320));
    assert!(wall.collides_with(&ghost));
    assert_eq!(wall.size(), at(32, 32));
    let mut blade = Weapon::new(Aabb::new(at(350, 350), at(24, 24)), 24_000);
    assert!(blade.collides_with(&other));
    blade.set_position(at(400, 400));
    assert!(!blade.collides_with(&other));
    blade.set_state(WeaponState::Attack);
    assert_eq!(blade.state(), WeaponState::Attack);
}

#[test]
fn segment_crossing_circle() {
    let c = Circle { center: at(0, 0), radius: 10_000 };
    assert!(collision_line_circle(c, Line { a: at(-20, 0), b: at(20, 0) }));
    assert!(collision_line_circle(c, Line { a: at(0, 0), b: at(20, 0) }));
    assert!(!collision_line_circle(c, Line { a: at(-5, 0), b: at(5, 0) }));
    assert!(!collision_line_circle(c, Line { a: at(-20, 20), b: at(20, 20) }));
    assert!(!collision_line_circle(c, Line { a: at(-20, 10), b: at(20, 10) }));
    assert!(!collision_line_circle(c, Line { a: at(3, 3), b: at(3, 3) }));
}

#[test]
fn rectangle_crossing_circle() {
    let c = Circle { center: at(0, 0), radius: 10_000 };
    assert!(!collision_rectangle_circle(c, Aabb::new(at(-5, -5), at(10, 10))));
    assert!(collision_rectangle_circle(c, Aabb::new(at(5, -20), at(10, 40))));
    assert!(!collision_rectangle_circle(c, Aabb::new(at(50, 50), at(10, 10))));
}

#[test]
fn collidable_characters_collide_alike() {
    let a = Character::new(at(300, 300));
    let b = Character::new_no_weapon(at(320, 300), true);
    let c = Character::new_no_weapon(at(332, 300), true);
    assert_eq!(a.collides_with(&b), b.collides_with(&a));
    assert!(a.collides_with(&b));
    assert_eq!(a.collides_with(&c), c.collides_with(&a));
    assert!(!a.collides_with(&c));
}
