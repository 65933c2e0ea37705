use some_game::game_map::{tile_kind, GameMap, MAP_COLS, MAP_ROWS};
use some_game::game_object::{
    Direction, GameObject, WeaponState, ACCEL_STEP, FACING_ONE, MAX_SPEED, TILE_SIZE, WEAPON_SIZE,
};
use some_game::geometry::{distance, isqrt, overlaps, Aabb, Vector2};
use some_game::platform::Cooldown;
use some_game::tick::{cull_expired, spawn_enemies, spawn_if_due, tick, TickInput, ENEMY_SPAWN_PERIOD_MS};
use some_game::GameObjectType;

fn px(v: i64) -> i64 {
    v * 1000
}

fn at(x: i64, y: i64) -> Vector2 {
    Vector2::new(px(x), px(y))
}

fn boxed(x: i64, y: i64, w: i64, h: i64) -> Aabb {
    Aabb::new(at(x, y), at(w, h))
}

#[test]
fn overlap_is_symmetric() {
    let cases = [
        (boxed(0, 0, 10, 10), boxed(5, 5, 10, 10)),
        (boxed(0, 0, 10, 10), boxed(10, 0, 10, 10)),
        (boxed(0, 0, 10, 10), boxed(20, 20, 1, 1)),
        (boxed(-5, -5, 3, 30), boxed(-4, 0, 1, 1)),
    ];
    for (a, b) in cases.iter() {
        assert_eq!(overlaps(a, b), overlaps(b, a));
    }
    assert!(overlaps(&cases[0].0, &cases[0].1));
    assert!(!overlaps(&cases[2].0, &cases[2].1));
    assert!(overlaps(&cases[3].0, &cases[3].1));
}

#[test]
fn touching_edges_do_not_overlap() {
    let a = boxed(0, 0, 32, 32);
    assert!(!overlaps(&a, &boxed(32, 0, 32, 32)));
    assert!(!overlaps(&a, &boxed(0, 32, 32, 32)));
    assert!(overlaps(&a, &Aabb::new(Vector2::new(31_999, 0), at(32, 32))));
}

#[test]
fn integer_square_root() {
    assert_eq!(isqrt(0), 0);
    assert_eq!(isqrt(1), 1);
    assert_eq!(isqrt(15), 3);
    assert_eq!(isqrt(16), 4);
    assert_eq!(isqrt(512_000_000), 22_627);
    assert_eq!(isqrt(u64::MAX), 4_294_967_295);
}

#[test]
fn distance_between_points() {
    assert_eq!(distance(&at(0, 0), &at(3, 4)), 5000);
    assert_eq!(distance(&at(100, 100), &at(160, 100)), 60_000);
    assert_eq!(distance(&Vector2::new(0, 0), &Vector2::new(1, 1)), 1);
}

#[test]
fn weapon_stand_off_distance() {
    let owner = GameObject::new_with_direction(at(100, 100));
    let weapon_size = at(12, 12);
    let spot = owner.calculate_weapon_position(weapon_size, 0);
    let owner_center = owner.center();
    let weapon_center_x = spot.x + weapon_size.x / 2;
    let offset_px = (weapon_center_x - owner_center.x) as f64 / 1000.0;
    let expected = 32.0 * 2f64.sqrt() / 2.0 + 6.0;
    assert!((offset_px - expected).abs() < 0.002);
    assert_eq!(spot.y + weapon_size.y / 2, owner_center.y);
}

#[test]
fn attacking_reaches_out_by_range() {
    let mut player = GameObject::new_with_weapon(at(100, 100));
    let resting = player.weapon().unwrap().position();
    player.set_state(WeaponState::Attack);
    let attacking = player.weapon().unwrap().position();
    assert_eq!(attacking.x - resting.x, player.weapon().unwrap().range());
    assert_eq!(attacking.y, resting.y);
    player.set_state(WeaponState::Default);
    assert_eq!(player.weapon().unwrap().position(), resting);
}

#[test]
fn projectile_expiry() {
    let mut p = GameObject::new(at(100, 100), at(12, 12), at(0, 0), px(50), WeaponState::Attack, false);
    p.set_position(at(160, 100));
    assert!(p.out_of_range());
    p.set_position(at(140, 100));
    assert!(!p.out_of_range());
    p.set_position(at(150, 100));
    assert!(!p.out_of_range());
}

#[test]
fn facing_nudges_stay_in_unit_disc() {
    let mut player = GameObject::new_with_weapon(at(200, 200));
    let turns = [
        Direction::Up,
        Direction::Up,
        Direction::Left,
        Direction::Left,
        Direction::Down,
        Direction::Right,
    ];
    for step in 0..200 {
        player.update_direction(turns[step % turns.len()]);
        let f = player.direction;
        assert!(f.x * f.x + f.y * f.y <= FACING_ONE * FACING_ONE);
        assert!(-FACING_ONE <= f.x && f.x <= FACING_ONE);
        assert!(-FACING_ONE <= f.y && f.y <= FACING_ONE);
        assert!(f.x != 0 || f.y != 0);
    }
}

#[test]
fn facing_nudge_values() {
    let mut o = GameObject::new_with_direction(at(200, 200));
    assert_eq!(o.direction, Vector2::new(1000, 0));
    o.update_direction(Direction::Right);
    assert_eq!(o.direction, Vector2::new(1000, 0));
    o.update_direction(Direction::Up);
    assert_eq!(o.direction, Vector2::new(998, -50));
    o.update_direction(Direction::Left);
    assert_eq!(o.direction, Vector2::new(948, -318));
    for _ in 0..100 {
        o.update_direction(Direction::Left);
    }
    assert_eq!(o.direction, Vector2::new(-1000, 0));
}

#[test]
fn zero_tilt_keeps_facing() {
    let mut o = GameObject::new_with_weapon(at(200, 200));
    o.set_direction(Vector2::new(0, -1000));
    assert_eq!(o.direction, Vector2::new(0, -1000));
    o.set_direction(Vector2::new(0, 0));
    assert_eq!(o.direction, Vector2::new(0, -1000));
    let w = o.weapon().unwrap().position();
    assert!(w.y < o.position().y);
}

#[test]
fn blocked_by_wall_reverts_and_stops() {
    let mut player = GameObject::new(at(300, 300), at(32, 32), at(2, 0), 0, WeaponState::Default, true);
    let map = vec![GameObject::new_wall(at(302, 300))];
    player.carry_momentum(&map);
    assert_eq!(player.position().x, px(300));
    assert_eq!(player.velocity.x, 0);
}

#[test]
fn blocked_by_wall_after_one_tick() {
    let mut player = GameObject::new(at(300, 300), at(32, 32), at(2, 0), 0, WeaponState::Default, true);
    let map = vec![GameObject::new_wall(at(302, 300))];
    let mut enemies: Vec<GameObject> = Vec::new();
    let mut bullets: Vec<GameObject> = Vec::new();
    tick(&mut player, &mut enemies, &mut bullets, &map, &TickInput::default());
    assert_eq!(player.position(), at(300, 300));
    assert_eq!(player.velocity, at(0, 0));
}

#[test]
fn resolution_moves_each_axis_separately() {
    let mut o = GameObject::new(at(100, 100), at(32, 32), at(3, 3), 0, WeaponState::Default, true);
    let map = vec![GameObject::new_wall(at(100, 133)), GameObject::new_floor(at(103, 100))];
    o.carry_momentum(&map);
    assert_eq!(o.position(), at(103, 100));
    assert_eq!(o.velocity, at(3, 0));
    assert!(!o.check_collisions(&map));
}

#[test]
fn projectiles_are_not_blocked() {
    let mut b = GameObject::new(at(100, 100), at(12, 12), at(8, 0), px(300), WeaponState::Attack, false);
    let map = vec![GameObject::new_wall(at(105, 100))];
    b.carry_momentum(&map);
    assert_eq!(b.position(), at(108, 100));
}

#[test]
fn enemy_chases_player() {
    let player = GameObject::new_with_weapon(at(300, 300));
    let mut enemy = GameObject::new_of_type(at(600, 300), GameObjectType::Enemy);
    let map: Vec<GameObject> = Vec::new();
    enemy.move_towards(player.position());
    enemy.carry_momentum(&map);
    assert!(enemy.position().x < px(600));
    assert_eq!(enemy.position().x, px(600) - ACCEL_STEP);
    assert_eq!(enemy.position().y, px(300));
}

#[test]
fn impulses_stop_at_top_speed() {
    let mut o = GameObject::new_with_direction(at(100, 100));
    for _ in 0..100 {
        o.move_right();
        o.move_up();
    }
    assert_eq!(o.velocity, Vector2::new(MAX_SPEED, -MAX_SPEED));
    assert_eq!(o.heading(), Direction::Up);
}

#[test]
fn acceleration_from_tilt() {
    let mut o = GameObject::new_with_direction(at(100, 100));
    o.set_acceleration(Vector2::new(1000, -500));
    assert_eq!(o.acceleration(), Vector2::new(100, -50));
    o.accelerate();
    o.accelerate();
    assert_eq!(o.velocity, Vector2::new(200, -100));
    o.set_acceleration(Vector2::new(-999, 0));
    assert_eq!(o.acceleration(), Vector2::new(-99, 0));
}

#[test]
fn shot_needs_an_elapsed_period_and_a_weapon() {
    let mut player = GameObject::new_with_weapon(at(100, 100));
    let mut bullets: Vec<GameObject> = Vec::new();
    assert!(!player.shoot_if_ready(&mut bullets, 0));
    assert!(bullets.is_empty());
    assert!(player.shoot_if_ready(&mut bullets, 1));
    assert_eq!(bullets.len(), 1);
    let b = &bullets[0];
    let w = player.weapon().unwrap();
    assert_eq!(b.position(), w.position());
    assert_eq!(b.start_position, w.position());
    assert_eq!(b.velocity, Vector2::new(8000, 0));
    assert_eq!(b.range(), w.range());
    assert!(!b.is_collidable());
    let mut unarmed = GameObject::new_with_direction(at(100, 100));
    assert!(!unarmed.shoot_if_ready(&mut bullets, 3));
    assert_eq!(bullets.len(), 1);
}

#[test]
fn shoot_adds_at_most_one_projectile() {
    let mut player = GameObject::new_with_weapon(at(100, 100));
    let mut bullets: Vec<GameObject> = Vec::new();
    player.shoot(&mut bullets);
    assert!(bullets.len() <= 1);
    let mut unarmed = GameObject::new_with_direction(at(100, 100));
    unarmed.shoot(&mut bullets);
    assert!(bullets.len() <= 1);
}

#[test]
fn expired_projectiles_are_culled_in_order() {
    let mut bullets = Vec::new();
    for (i, x) in [110, 200, 120, 400].iter().enumerate() {
        let mut b = GameObject::new(at(100, 100), at(12, 12), at(0, 0), px(50), WeaponState::Attack, false);
        b.set_position(at(*x, 100 + i as i64));
        bullets.push(b);
    }
    cull_expired(&mut bullets);
    let xs: Vec<i64> = bullets.iter().map(|b| b.position().x).collect();
    assert_eq!(xs, vec![px(110), px(120)]);
}

#[test]
fn shot_enemies_are_removed_and_contact_marks_player() {
    let mut player = GameObject::new_with_weapon(at(300, 300));
    let map: Vec<GameObject> = Vec::new();
    let mut enemies = vec![
        GameObject::new_of_type(at(500, 500), GameObjectType::Enemy),
        GameObject::new_of_type(at(310, 310), GameObjectType::Enemy),
    ];
    let mut bullets = vec![GameObject::new(at(495, 495), at(12, 12), at(0, 0), px(300), WeaponState::Attack, false)];
    tick(&mut player, &mut enemies, &mut bullets, &map, &TickInput::default());
    assert_eq!(enemies.len(), 1);
    assert!(player.is_hit());
    assert_eq!(enemies[0].position(), at(310, 310));
    assert_eq!(enemies[0].velocity, Vector2::new(-ACCEL_STEP, -ACCEL_STEP));
    tick(&mut player, &mut enemies, &mut bullets, &map, &TickInput::default());
    assert!(enemies[0].position().x < px(310));
}

#[test]
fn chasing_enemy_closes_in_over_ticks() {
    let mut player = GameObject::new_with_direction(at(300, 300));
    let map: Vec<GameObject> = Vec::new();
    let mut enemies = vec![GameObject::new_of_type(at(600, 300), GameObjectType::Enemy)];
    let mut bullets: Vec<GameObject> = Vec::new();
    tick(&mut player, &mut enemies, &mut bullets, &map, &TickInput::default());
    tick(&mut player, &mut enemies, &mut bullets, &map, &TickInput::default());
    assert!(enemies[0].position().x < px(600));
    assert_eq!(enemies[0].position().y, px(300));
    assert!(!player.is_hit());
}

#[test]
fn tick_applies_held_keys() {
    let mut player = GameObject::new_with_weapon(at(300, 300));
    let map: Vec<GameObject> = Vec::new();
    let mut enemies: Vec<GameObject> = Vec::new();
    let mut bullets: Vec<GameObject> = Vec::new();
    let input = TickInput { move_right: true, move_down: true, attack: true, ..TickInput::default() };
    tick(&mut player, &mut enemies, &mut bullets, &map, &input);
    assert_eq!(player.velocity, Vector2::new(ACCEL_STEP, ACCEL_STEP));
    assert_eq!(player.position(), Vector2::new(px(300) + ACCEL_STEP, px(300) + ACCEL_STEP));
    assert_eq!(player.state(), WeaponState::Attack);
    tick(&mut player, &mut enemies, &mut bullets, &map, &TickInput::default());
    assert_eq!(player.state(), WeaponState::Default);
}

#[test]
fn arena_has_walls_round_floor() {
    let arena = GameMap::new();
    let tiles = arena.map();
    assert_eq!(tiles.len(), MAP_ROWS * MAP_COLS);
    assert!(tiles[0].is_collidable());
    assert_eq!(tiles[0].position(), at(0, 0));
    let inner = &tiles[MAP_COLS + 1];
    assert!(!inner.is_collidable());
    assert_eq!(inner.position(), Vector2::new(TILE_SIZE, TILE_SIZE));
    assert!(tiles[MAP_COLS * 2 - 1].is_collidable());
    assert_eq!(tile_kind(0, 5), GameObjectType::Wall);
    assert_eq!(tile_kind(5, 5), GameObjectType::Floor);
    assert_eq!(tile_kind(MAP_ROWS - 1, 5), GameObjectType::Wall);
}

#[test]
fn player_in_arena_stops_at_the_wall() {
    let arena = GameMap::new();
    let mut player = GameObject::new_with_weapon(at(40, 40));
    for _ in 0..100 {
        player.move_left();
        player.carry_momentum(arena.map());
        assert!(!player.check_collisions(arena.map()));
    }
    assert!(player.position().x >= px(32));
}

#[test]
fn random_enemy_lands_in_arena() {
    for _ in 0..50 {
        let e = GameObject::new_random_enemy();
        let p = e.position();
        assert!(px(200) <= p.x && p.x < px(800));
        assert!(px(100) <= p.y && p.y < px(700));
        assert_eq!(p.x % 1000, 0);
        assert_eq!(e.size(), Vector2::new(WEAPON_SIZE, WEAPON_SIZE));
        assert_eq!(e.state(), WeaponState::Attack);
    }
}

fn weapon_offset(o: &GameObject) -> (i64, i64) {
    let w = o.weapon().unwrap();
    let wc = w.center();
    let c = o.center();
    (wc.x - c.x, wc.y - c.y)
}

#[test]
fn short_facing_points_like_long_facing() {
    let mut a = GameObject::new_with_weapon(at(300, 300));
    let mut b = GameObject::new_with_weapon(at(300, 300));
    a.set_direction(Vector2::new(1, 1));
    b.set_direction(Vector2::new(1000, 1000));
    let (ax, ay) = weapon_offset(&a);
    let (bx, by) = weapon_offset(&b);
    assert!((ax - bx).abs() <= 1 && (ay - by).abs() <= 1);
    assert_eq!(ax, 20_242);
    assert_eq!(ay, 20_242);
}

#[test]
fn weapon_orbits_at_the_stand_off_distance() {
    let standoff: i64 = 22_627 + 6_000;
    let facings = [(1000, 0), (1, 1), (0, -1), (-3, 7), (999, -1000), (-1, 0), (250, 600)];
    for (fx, fy) in facings.iter() {
        let mut o = GameObject::new_with_weapon(at(300, 300));
        o.set_direction(Vector2::new(*fx, *fy));
        let (dx, dy) = weapon_offset(&o);
        let len2 = dx * dx + dy * dy;
        assert!(len2 <= standoff * standoff);
        assert!(standoff * standoff <= len2 + 4 * standoff);
    }
}

#[test]
fn enemies_spawn_only_when_due() {
    let mut enemies: Vec<GameObject> = Vec::new();
    assert!(!spawn_if_due(&mut enemies, 0));
    assert!(enemies.is_empty());
    assert!(spawn_if_due(&mut enemies, 2));
    assert_eq!(enemies.len(), 1);
    let p = enemies[0].position();
    assert!(px(200) <= p.x && p.x < px(800) && px(100) <= p.y && p.y < px(700));
    assert_eq!(enemies[0].state(), WeaponState::Attack);
}

#[test]
fn cooldown_counts_and_restarts() {
    let mut c = Cooldown::new(ENEMY_SPAWN_PERIOD_MS);
    assert_eq!(c.elapsed_periods(), 0);
    c.restart();
    assert_eq!(c.elapsed_periods(), 0);
    let mut enemies: Vec<GameObject> = Vec::new();
    spawn_enemies(&mut enemies, &mut c);
    assert!(enemies.is_empty());
    let mut quick = Cooldown::new(1);
    let _ = quick.elapsed_periods();
}
