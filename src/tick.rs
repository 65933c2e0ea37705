//! One simulation step of a scene: a player, enemies that chase it, and the
//! player's projectiles, all moving against the same map.
use crate::game_object::{
    accelerate_spec, box_collides_spec, impulse_x_spec, impulse_y_spec, is_projectile_of,
    momentum_spec, move_towards_spec, nudged_spec, shot_by_any_spec, Direction, GameObject,
    WeaponState, ACCEL_STEP, WEAPON_SIZE, fresh_spec,
};
use crate::geometry::{dist2_spec, Vector2, UNITS_PER_PIXEL};
use crate::platform::Cooldown;
use vstd::prelude::*;

verus! {

/// What the player asks for during one tick: which movement and aiming keys
/// are held, and whether attack and fire are.
#[derive(Clone, Copy, PartialEq, Eq, Structural, Debug, Default)]
pub struct TickInput {
    pub move_up: bool,
    pub move_down: bool,
    pub move_left: bool,
    pub move_right: bool,
    pub aim_up: bool,
    pub aim_down: bool,
    pub aim_left: bool,
    pub aim_right: bool,
    pub attack: bool,
    pub fire: bool,
}

pub open spec fn all_wf(s: Seq<GameObject>) -> bool {
    forall|j: int| 0 <= j < s.len() ==> (#[trigger] s[j]).wf()
}

/// The object with a new weapon state, its weapon following.
pub open spec fn with_state_spec(e: GameObject, state: WeaponState) -> GameObject {
    (GameObject { state, ..e }).with_weapon_placed()
}

/// The object turned one aiming step, its weapon following.
pub open spec fn turned_spec(e: GameObject, d: Direction) -> GameObject {
    (GameObject { direction: nudged_spec(e.direction, d), ..e }).with_weapon_placed()
}

/// The player after the held keys: attack is held or released, then the
/// movement impulses (left, right, up, down), then the aiming steps (left,
/// right, up, down).
pub open spec fn apply_input_spec(p: GameObject, input: TickInput) -> GameObject {
    let p0 = with_state_spec(p, if input.attack { WeaponState::Attack } else { WeaponState::Default });
    let p1 = if input.move_left { impulse_x_spec(p0, -ACCEL_STEP as int, Direction::Left) } else { p0 };
    let p2 = if input.move_right { impulse_x_spec(p1, ACCEL_STEP as int, Direction::Right) } else { p1 };
    let p3 = if input.move_up { impulse_y_spec(p2, -ACCEL_STEP as int, Direction::Up) } else { p2 };
    let p4 = if input.move_down { impulse_y_spec(p3, ACCEL_STEP as int, Direction::Down) } else { p3 };
    let p5 = if input.aim_left { turned_spec(p4, Direction::Left) } else { p4 };
    let p6 = if input.aim_right { turned_spec(p5, Direction::Right) } else { p5 };
    let p7 = if input.aim_up { turned_spec(p6, Direction::Up) } else { p6 };
    if input.aim_down { turned_spec(p7, Direction::Down) } else { p7 }
}

/// A projectile has gone further than its range from where it started.
pub open spec fn expired_spec(b: GameObject) -> bool {
    dist2_spec(b.start_position, b.sprite.pos) > b.range * b.range
}

/// The elements that `keep` accepts, in order.
pub open spec fn kept_spec(s: Seq<GameObject>, keep: spec_fn(GameObject) -> bool) -> Seq<GameObject>
    decreases s.len(),
{
    if s.len() == 0 {
        s
    } else {
        let rest = kept_spec(s.drop_last(), keep);
        if keep(s.last()) {
            rest.push(s.last())
        } else {
            rest
        }
    }
}

/// The projectiles that have not expired, in order.
pub open spec fn live_spec(s: Seq<GameObject>) -> Seq<GameObject> {
    kept_spec(s, |b: GameObject| !expired_spec(b))
}

/// The enemies that no projectile overlaps, in order.
pub open spec fn unshot_spec(s: Seq<GameObject>, bullets: Seq<GameObject>) -> Seq<GameObject> {
    kept_spec(s, |e: GameObject| !shot_by_any_spec(e.sprite, bullets))
}

/// Filtering `s` in place has reached `v`: the first `k` elements of `s` have
/// been decided, leaving the `i` kept ones, and the rest is untouched.
pub open spec fn filtering_spec(
    v: Seq<GameObject>,
    s: Seq<GameObject>,
    i: int,
    k: int,
    keep: spec_fn(GameObject) -> bool,
) -> bool {
    &&& 0 <= i <= k <= s.len()
    &&& v.len() == i + (s.len() - k)
    &&& v.subrange(0, i) == kept_spec(s.subrange(0, k), keep)
    &&& v.subrange(i, v.len() as int) == s.subrange(k, s.len() as int)
}

/// One step of filtering in place: element `i` of `v` is kept (and `i`
/// moves on) or removed.
proof fn lemma_filter_step(
    v: Seq<GameObject>,
    s: Seq<GameObject>,
    i: int,
    k: int,
    keep: spec_fn(GameObject) -> bool,
)
    requires
        filtering_spec(v, s, i, k, keep),
        i < v.len(),
    ensures
        v[i] == s[k],
        keep(v[i]) ==> filtering_spec(v, s, i + 1, k + 1, keep),
        !keep(v[i]) ==> filtering_spec(v.remove(i), s, i, k + 1, keep),
{
    assert(v[i] == v.subrange(i, v.len() as int)[0]);
    assert(s.subrange(0, k + 1).drop_last() =~= s.subrange(0, k));
    assert(s.subrange(0, k + 1).last() == s[k]);
    assert(s.subrange(k + 1, s.len() as int) =~= s.subrange(k, s.len() as int).subrange(1, s.len() - k));
    assert(v.subrange(i + 1, v.len() as int) =~= v.subrange(i, v.len() as int).subrange(1, v.len() - i));
    if keep(v[i]) {
        assert(v.subrange(0, i + 1) =~= v.subrange(0, i).push(v[i]));
    } else {
        let w = v.remove(i);
        assert(w.subrange(0, i) =~= v.subrange(0, i));
        assert(w.subrange(i, w.len() as int) =~= v.subrange(i + 1, v.len() as int));
    }
}

/// Filtering in place starts with nothing decided and ends with all decided.
proof fn lemma_filter_ends(v: Seq<GameObject>, s: Seq<GameObject>, i: int, k: int, keep: spec_fn(GameObject) -> bool)
    ensures
        filtering_spec(s, s, 0, 0, keep),
        filtering_spec(v, s, i, k, keep) && i == v.len() ==> v == kept_spec(s, keep),
{
    assert(s.subrange(0, 0) =~= Seq::<GameObject>::empty());
    assert(s.subrange(0, s.len() as int) =~= s);
    if filtering_spec(v, s, i, k, keep) && i == v.len() {
        assert(v.subrange(0, i) =~= v);
    }
}

/// Every object after one move against the map.
pub open spec fn advanced_spec(s: Seq<GameObject>, map: Seq<GameObject>) -> Seq<GameObject> {
    Seq::new(s.len(), |j: int| momentum_spec(s[j], map))
}

/// Every enemy after steering towards `target`.
pub open spec fn chased_spec(s: Seq<GameObject>, target: Vector2) -> Seq<GameObject> {
    Seq::new(s.len(), |j: int| move_towards_spec(s[j], target))
}

/// Whether any of the enemies collides with the player.
pub open spec fn touched_spec(enemies: Seq<GameObject>, player: GameObject) -> bool {
    exists|j: int|
        0 <= j < enemies.len() && box_collides_spec(
            (#[trigger] enemies[j]).collidable,
            enemies[j].sprite,
            player,
        )
}

/// The player after its input, its own acceleration and its move.
pub open spec fn player_moved_spec(p: GameObject, input: TickInput, map: Seq<GameObject>) -> GameObject {
    momentum_spec(accelerate_spec(apply_input_spec(p, input)), map)
}

/// Applies the held keys to the player.
pub fn apply_input(player: &mut GameObject, input: &TickInput)
    requires
        old(player).wf(),
    ensures
        *final(player) == apply_input_spec(*old(player), *input),
        final(player).wf(),
{
    if input.attack {
        player.set_state(WeaponState::Attack);
    } else {
        player.set_state(WeaponState::Default);
    }
    if input.move_left {
        player.move_left();
    }
    if input.move_right {
        player.move_right();
    }
    if input.move_up {
        player.move_up();
    }
    if input.move_down {
        player.move_down();
    }
    if input.aim_left {
        player.update_direction(Direction::Left);
    }
    if input.aim_right {
        player.update_direction(Direction::Right);
    }
    if input.aim_up {
        player.update_direction(Direction::Up);
    }
    if input.aim_down {
        player.update_direction(Direction::Down);
    }
}

/// Removes the projectiles that have gone out of range, keeping the order
/// of the others.
pub fn cull_expired(bullets: &mut Vec<GameObject>)
    requires
        all_wf(old(bullets)@),
    ensures
        final(bullets)@ == live_spec(old(bullets)@),
        all_wf(final(bullets)@),
{
    let ghost s = bullets@;
    let ghost keep = |b: GameObject| !expired_spec(b);
    let ghost mut k: int = 0;
    let mut i: usize = 0;
    proof {
        lemma_filter_ends(s, s, 0, 0, keep);
    }
    while i < bullets.len()
        invariant
            filtering_spec(bullets@, s, i as int, k, keep),
            forall|g: GameObject| #[trigger] keep(g) == !expired_spec(g),
            all_wf(s),
            all_wf(bullets@),
        decreases bullets@.len() - i,
    {
        proof {
            lemma_filter_step(bullets@, s, i as int, k, keep);
        }
        if bullets[i].out_of_range() {
            bullets.remove(i);
        } else {
            i = i + 1;
        }
        proof {
            k = k + 1;
        }
    }
    proof {
        lemma_filter_ends(bullets@, s, i as int, k, keep);
    }
}

/// Removes the enemies that a projectile overlaps, keeping the order of the
/// others.
pub fn cull_shot(enemies: &mut Vec<GameObject>, bullets: &Vec<GameObject>)
    requires
        all_wf(old(enemies)@),
    ensures
        final(enemies)@ == unshot_spec(old(enemies)@, bullets@),
        all_wf(final(enemies)@),
{
    let ghost s = enemies@;
    let ghost keep = |e: GameObject| !shot_by_any_spec(e.sprite, bullets@);
    let ghost mut k: int = 0;
    let mut i: usize = 0;
    proof {
        lemma_filter_ends(s, s, 0, 0, keep);
    }
    while i < enemies.len()
        invariant
            filtering_spec(enemies@, s, i as int, k, keep),
            forall|g: GameObject| #[trigger] keep(g) == !shot_by_any_spec(g.sprite, bullets@),
            all_wf(s),
            all_wf(enemies@),
        decreases enemies@.len() - i,
    {
        proof {
            lemma_filter_step(enemies@, s, i as int, k, keep);
        }
        if enemies[i].got_shot(bullets) {
            enemies.remove(i);
        } else {
            i = i + 1;
        }
        proof {
            k = k + 1;
        }
    }
    proof {
        lemma_filter_ends(enemies@, s, i as int, k, keep);
    }
}

/// Moves every object by its velocity against the map.
pub fn advance_all(objects: &mut Vec<GameObject>, game_map: &Vec<GameObject>)
    requires
        all_wf(old(objects)@),
    ensures
        final(objects)@ == advanced_spec(old(objects)@, game_map@),
        all_wf(final(objects)@),
{
    let ghost s = objects@;
    let mut i: usize = 0;
    while i < objects.len()
        invariant
            0 <= i <= objects@.len(),
            objects@.len() == s.len(),
            forall|j: int| 0 <= j < i ==> #[trigger] objects@[j] == momentum_spec(s[j], game_map@),
            forall|j: int| i <= j < objects@.len() ==> #[trigger] objects@[j] == s[j],
            all_wf(s),
            all_wf(objects@),
        decreases objects@.len() - i,
    {
        let mut o = objects.remove(i);
        o.carry_momentum(game_map);
        objects.insert(i, o);
        i = i + 1;
    }
    proof {
        assert(objects@ =~= advanced_spec(s, game_map@));
    }
}

/// Each enemy in turn: if it collides with the player the player is marked
/// hit; then it steers towards the player.
pub fn chase(enemies: &mut Vec<GameObject>, player: &mut GameObject)
    requires
        all_wf(old(enemies)@),
        old(player).wf(),
    ensures
        final(enemies)@ == chased_spec(old(enemies)@, old(player).sprite.pos),
        all_wf(final(enemies)@),
        *final(player) == (GameObject {
            hit: old(player).hit || touched_spec(old(enemies)@, *old(player)),
            ..*old(player)
        }),
        final(player).wf(),
{
    let ghost s = enemies@;
    let ghost p0 = *player;
    let target = player.sprite.pos;
    let mut i: usize = 0;
    while i < enemies.len()
        invariant
            0 <= i <= enemies@.len(),
            enemies@.len() == s.len(),
            target == p0.sprite.pos,
            forall|j: int| 0 <= j < i ==> #[trigger] enemies@[j] == move_towards_spec(s[j], target),
            forall|j: int| i <= j < enemies@.len() ==> #[trigger] enemies@[j] == s[j],
            all_wf(s),
            all_wf(enemies@),
            *player == (GameObject { hit: p0.hit || touched_spec(s.subrange(0, i as int), p0), ..p0 }),
            player.wf(),
        decreases enemies@.len() - i,
    {
        let mut e = enemies.remove(i);
        proof {
            assert(e == s[i as int]);
        }
        if e.collides_with(player) {
            player.hit = true;
            proof {
                assert(s.subrange(0, i + 1)[i as int] == s[i as int]);
            }
        }
        proof {
            let a = s.subrange(0, i as int);
            let b = s.subrange(0, i + 1);
            assert forall|j: int| 0 <= j < i implies b[j] == a[j] by {}
            if touched_spec(a, p0) {
                let j = choose|j: int|
                    0 <= j < a.len() && box_collides_spec((#[trigger] a[j]).collidable, a[j].sprite, p0);
                assert(b[j] == a[j]);
            }
            if touched_spec(b, p0) && !box_collides_spec(s[i as int].collidable, s[i as int].sprite, p0) {
                let j = choose|j: int|
                    0 <= j < b.len() && box_collides_spec((#[trigger] b[j]).collidable, b[j].sprite, p0);
                assert(j != i);
                assert(a[j] == b[j]);
            }
        }
        e.move_towards(target);
        enemies.insert(i, e);
        i = i + 1;
    }
    proof {
        assert(enemies@ =~= chased_spec(s, p0.sprite.pos));
        assert(s.subrange(0, s.len() as int) =~= s);
    }
}

/// The shot cooldown plays no part in how an object moves.
proof fn lemma_motion_ignores_cooldown(e: GameObject, other: GameObject, map: Seq<GameObject>)
    requires
        e == (GameObject { shoot_rate: e.shoot_rate, ..other }),
    ensures
        momentum_spec(e, map) == (GameObject { shoot_rate: e.shoot_rate, ..momentum_spec(other, map) }),
{
}

/// One step of the scene. The player takes its input and its own
/// acceleration, and fires if asked and its cooldown allows; the player and
/// the enemies then move against the map, and so do the projectiles, of which
/// those out of range go; enemies that a projectile overlaps go; the rest
/// mark the player hit on contact and steer towards where it now is.
#[verifier::rlimit(50)]
pub fn tick(
    player: &mut GameObject,
    enemies: &mut Vec<GameObject>,
    bullets: &mut Vec<GameObject>,
    game_map: &Vec<GameObject>,
    input: &TickInput,
)
    requires
        old(player).wf(),
        all_wf(old(enemies)@),
        all_wf(old(bullets)@),
    ensures
        final(player).wf(),
        all_wf(final(enemies)@),
        all_wf(final(bullets)@),
        final(bullets)@ == live_spec(advanced_spec(old(bullets)@, game_map@)) || (input.fire
            && exists|p: GameObject|
            is_projectile_of(p, accelerate_spec(apply_input_spec(*old(player), *input))) && p.wf()
                && final(bullets)@ == live_spec(advanced_spec(old(bullets)@.push(p), game_map@))),
        !input.fire ==> final(bullets)@ == live_spec(advanced_spec(old(bullets)@, game_map@)),
        final(enemies)@ == chased_spec(
            unshot_spec(advanced_spec(old(enemies)@, game_map@), final(bullets)@),
            player_moved_spec(*old(player), *input, game_map@).sprite.pos,
        ),
        *final(player) == (GameObject {
            hit: old(player).hit || touched_spec(
                unshot_spec(advanced_spec(old(enemies)@, game_map@), final(bullets)@),
                player_moved_spec(*old(player), *input, game_map@),
            ),
            shoot_rate: final(player).shoot_rate,
            ..player_moved_spec(*old(player), *input, game_map@)
        }),
{
    let ghost b0 = bullets@;
    apply_input(player, input);
    player.accelerate();
    let ghost p1 = *player;
    if input.fire {
        player.shoot(bullets);
        proof {
            if bullets@ != b0 {
                assert(bullets@ =~= b0.push(bullets@.last()));
            }
        }
    }
    let ghost p2 = *player;
    player.carry_momentum(game_map);
    advance_all(enemies, game_map);
    advance_all(bullets, game_map);
    cull_expired(bullets);
    cull_shot(enemies, bullets);
    chase(enemies, player);
    proof {
        lemma_motion_ignores_cooldown(p2, p1, game_map@);
    }
}

/// Time between enemy arrivals, in milliseconds.
pub const ENEMY_SPAWN_PERIOD_MS: u64 = 5000;

/// An enemy as `GameObject::new_random_enemy` makes it: small, collidable,
/// attacking, at rest, at whole pixels between (200, 100) and (800, 700).
pub open spec fn new_enemy_spec(e: GameObject) -> bool {
    &&& e.wf()
    &&& fresh_spec(
        e,
        e.sprite.pos,
        Vector2 { x: WEAPON_SIZE, y: WEAPON_SIZE },
        Vector2 { x: 0, y: 0 },
        0,
        WeaponState::Attack,
        true,
    )
    &&& 200 * UNITS_PER_PIXEL <= e.sprite.pos.x < 800 * UNITS_PER_PIXEL
    &&& 100 * UNITS_PER_PIXEL <= e.sprite.pos.y < 700 * UNITS_PER_PIXEL
    &&& e.sprite.pos.x % UNITS_PER_PIXEL == 0
    &&& e.sprite.pos.y % UNITS_PER_PIXEL == 0
}

/// Adds one enemy somewhere in the arena when at least one spawn period has
/// elapsed. Returns whether it did.
pub fn spawn_if_due(enemies: &mut Vec<GameObject>, elapsed_periods: usize) -> (spawned: bool)
    ensures
        spawned == (elapsed_periods >= 1),
        spawned ==> final(enemies)@.len() == old(enemies)@.len() + 1
            && final(enemies)@.drop_last() == old(enemies)@
            && new_enemy_spec(final(enemies)@.last()),
        !spawned ==> final(enemies)@ == old(enemies)@,
{
    if elapsed_periods >= 1 {
        enemies.push(GameObject::new_random_enemy());
        proof {
            assert(enemies@.drop_last() =~= old(enemies)@);
        }
        true
    } else {
        false
    }
}

/// Adds one enemy when the spawn cooldown has run out, and then restarts the
/// cooldown. Whether it has run out depends on the clock, so either nothing
/// is added or exactly one new enemy.
pub fn spawn_enemies(enemies: &mut Vec<GameObject>, spawner: &mut Cooldown)
    ensures
        final(enemies)@ == old(enemies)@ || (final(enemies)@.len() == old(enemies)@.len() + 1
            && final(enemies)@.drop_last() == old(enemies)@
            && new_enemy_spec(final(enemies)@.last())),
{
    let elapsed = spawner.elapsed_periods();
    if spawn_if_due(enemies, elapsed) {
        spawner.restart();
    }
}

} // verus!
