//! Enemies: random edge spawning, per-tick steering with gentle
//! acceleration, and off-screen respawning at a kind-specific speed.

use vstd::prelude::*;

verus! {

use crate::character::Character;
use crate::character::moved;
use crate::character::next_frame;
use crate::fixed::V_CAP;
use crate::fixed::grow;
use crate::fixed::grown;
use crate::fixed::lemma_scale_component_ordered;
use crate::fixed::lemma_scale_component_sign;
use crate::fixed::lemma_scaled_component_bounds;
use crate::fixed::lemma_scaled_speed;
use crate::fixed::lemma_sqrt_floor_bounds;
use crate::fixed::scale_component;
use crate::fixed::scale_to_speed;
use crate::fixed::scaled_x;
use crate::fixed::scaled_y;
use crate::fixed::sqrt_floor;
use crate::fixed::vec_norm_sq;
use vstd::math::abs;

/// Speed every enemy starts with when first spawned, whatever its kind:
/// seven and a half world units per tick.
pub const SPAWN_SPEED: i64 = 7500;

/// What an enemy is: its kind decides the speed it gets back after a
/// respawn, and `collided` suppresses repeat collision events until then.
#[derive(Debug, Clone, Copy)]
pub enum EnemyKind {
    Fly,
    Swim,
    Walk,
}

#[derive(Debug, Clone, Copy)]
pub struct Enemy {
    pub kind: EnemyKind,
    pub collided: bool,
}

/// An enemy together with its movement record.
#[derive(Debug, Clone, Copy)]
pub struct EnemyActor {
    pub character: Character,
    pub enemy: Enemy,
}

impl EnemyActor {
    pub open spec fn wf(self) -> bool {
        self.character.wf()
    }
}

/// The speed a kind resets to after a respawn, in fixed-point steps per
/// tick: nine units flying, six point two swimming, four walking.
pub open spec fn kind_speed(k: EnemyKind) -> int {
    match k {
        EnemyKind::Fly => 9000,
        EnemyKind::Swim => 6200,
        EnemyKind::Walk => 4000,
    }
}

pub fn reset_speed(k: &EnemyKind) -> (s: i64)
    ensures
        s == kind_speed(*k),
{
    match k {
        EnemyKind::Fly => 9000,
        EnemyKind::Swim => 6200,
        EnemyKind::Walk => 4000,
    }
}

/// Which kind a spawn roll (drawn from 0..3) selects.
pub open spec fn roll_kind(roll: int) -> EnemyKind {
    if roll == 1 {
        EnemyKind::Swim
    } else if roll == 2 {
        EnemyKind::Walk
    } else {
        EnemyKind::Fly
    }
}

pub fn kind_of_roll(roll: i64) -> (k: EnemyKind)
    ensures
        k == roll_kind(roll as int),
{
    if roll == 1 {
        EnemyKind::Swim
    } else if roll == 2 {
        EnemyKind::Walk
    } else {
        EnemyKind::Fly
    }
}

/// Relies on rand's `Rng::gen_range` over an `i64` range: it panics only on
/// an empty range, and otherwise returns a value inside the half-open range.
#[verifier::external_body]
fn random_in(lo: i64, hi: i64) -> (r: i64)
    requires
        lo < hi,
    ensures
        lo <= r < hi,
{
    rand::Rng::gen_range(&mut rand::thread_rng(), lo..hi)
}

/// Where an edge spawn may put an enemy and which way it may head: on one
/// of the four viewport edges, forty units in from the half-extent, with
/// the velocity's main component pointing back across the screen and at
/// least as large as its sideways lean.
pub open spec fn edge_spawn_ok(px: int, py: int, dx: int, dy: int, w: int, h: int) -> bool {
    ||| (px == w / 2 - 40_000 && dx <= -1 && abs(dy) <= -dx)
    ||| (px == -(w / 2 - 40_000) && 1 <= dx && abs(dy) <= dx)
    ||| (py == h / 2 - 40_000 && dy <= -1 && abs(dx) <= -dy)
    ||| (py == -(h / 2 - 40_000) && 1 <= dy && abs(dx) <= dy)
}

/// An edge-spawn direction is a full unit across the screen with a lean of
/// at most half a unit sideways; rescaled, the main component keeps its
/// sign, is not rounded away, and stays at least as large as the lean.
proof fn lemma_edge_direction(main: int, lean: int, s: int, d: int)
    requires
        main == 1000 || main == -1000,
        -500 <= lean <= 500,
        1000 <= s <= 10_000,
        d == sqrt_floor(vec_norm_sq(main, lean) as nat) as int,
    ensures
        abs(scale_component(lean, s, d)) <= abs(scale_component(main, s, d)),
        main > 0 ==> 1 <= scale_component(main, s, d),
        main < 0 ==> scale_component(main, s, d) <= -1,
{
    let n2 = vec_norm_sq(main, lean);
    assert(1_000_000 <= n2 <= 1_250_000) by (nonlinear_arith)
        requires
            n2 == main * main + lean * lean,
            main == 1000 || main == -1000,
            -500 <= lean <= 500,
    ;
    lemma_sqrt_floor_bounds(n2 as nat);
    assert(0 < d <= 1118) by (nonlinear_arith)
        requires
            0 <= d,
            d * d <= n2 <= 1_250_000,
            1_000_000 <= n2 < (d + 1) * (d + 1),
    ;
    assert(d <= 1000 * s);
    lemma_scale_component_sign(main, s, d);
    let la = if lean >= 0 {
        lean
    } else {
        -lean
    };
    lemma_scale_component_ordered(la, 1000, s, d);
}

/// A fresh edge spawn: a point on one of the four viewport edges, forty
/// units in from the half-extent, heading back across the screen.
/// The edge, the position along it and the sideways lean of the heading are
/// random; whatever is drawn, the returned position `(r.0, r.1)` lies inside
/// the half-viewport rectangle and the returned velocity `(r.2, r.3)` has a
/// squared length within tolerance of `speed` squared.
pub fn spawn_state(width: i64, height: i64, speed: i64) -> (r: (i64, i64, i64, i64))
    requires
        80_000 <= width <= 10_000_000,
        80_000 <= height <= 10_000_000,
        1000 <= speed <= 10_000,
    ensures
        -(width as int / 2) <= r.0 <= width as int / 2,
        -(height as int / 2) <= r.1 <= height as int / 2,
        (speed - 2) * (speed - 2) <= vec_norm_sq(r.2 as int, r.3 as int),
        vec_norm_sq(r.2 as int, r.3 as int) <= (speed + 10) * (speed + 10),
        -(speed + 10) <= r.2 <= speed + 10,
        -(speed + 10) <= r.3 <= speed + 10,
        edge_spawn_ok(r.0 as int, r.1 as int, r.2 as int, r.3 as int, width as int, height as int),
{
    let mut px: i64 = random_in(0, width / 2);
    let mut py: i64 = random_in(0, height / 2);
    let lean: i64 = random_in(-500, 500);
    let dx: i64;
    let dy: i64;
    let edge: i64 = random_in(0, 4);
    if edge == 1 {
        px = width / 2 - 40_000;
        dx = -1000;
        dy = lean;
    } else if edge == 2 {
        px = -(width / 2 - 40_000);
        dx = 1000;
        dy = lean;
    } else if edge == 3 {
        py = height / 2 - 40_000;
        dx = lean;
        dy = -1000;
    } else {
        py = -(height / 2 - 40_000);
        dx = lean;
        dy = 1000;
    }
    assert(1_000_000 <= vec_norm_sq(dx as int, dy as int) <= 1_250_000) by (nonlinear_arith)
        requires
            vec_norm_sq(dx as int, dy as int) == dx * dx + dy * dy,
            dx == 1000 || dx == -1000 || dy == 1000 || dy == -1000,
            (-500 <= dx <= 500) || (-500 <= dy <= 500),
            -1000 <= dx <= 1000,
            -1000 <= dy <= 1000,
    ;
    let (vx, vy) = scale_to_speed(dx, dy, speed);
    proof {
        lemma_scaled_speed(dx as int, dy as int, speed as int);
        lemma_scaled_component_bounds(dx as int, dy as int, speed as int);
        let d = sqrt_floor(vec_norm_sq(dx as int, dy as int) as nat) as int;
        if edge == 1 {
            lemma_edge_direction(-1000, dy as int, speed as int, d);
        } else if edge == 2 {
            lemma_edge_direction(1000, dy as int, speed as int, d);
        } else if edge == 3 {
            assert(vec_norm_sq(dy as int, dx as int) == vec_norm_sq(dx as int, dy as int));
            lemma_edge_direction(-1000, dx as int, speed as int, d);
        } else {
            assert(vec_norm_sq(dy as int, dx as int) == vec_norm_sq(dx as int, dy as int));
            lemma_edge_direction(1000, dx as int, speed as int, d);
        }
    }
    (px, py, vx, vy)
}

/// A new enemy of a random kind at a random edge-spawn point, heading into
/// the screen at the fixed initial speed, with its collided flag clear and
/// its two-frame animation at the start.
pub fn setup_enemy(width: i64, height: i64) -> (a: EnemyActor)
    requires
        80_000 <= width <= 10_000_000,
        80_000 <= height <= 10_000_000,
    ensures
        a.wf(),
        !a.enemy.collided,
        -(width as int / 2) <= a.character.trans_x <= width as int / 2,
        -(height as int / 2) <= a.character.trans_y <= height as int / 2,
        (SPAWN_SPEED - 2) * (SPAWN_SPEED - 2) <= vec_norm_sq(
            a.character.diff_x as int,
            a.character.diff_y as int,
        ),
        vec_norm_sq(a.character.diff_x as int, a.character.diff_y as int) <= (SPAWN_SPEED + 10)
            * (SPAWN_SPEED + 10),
        edge_spawn_ok(
            a.character.trans_x as int,
            a.character.trans_y as int,
            a.character.diff_x as int,
            a.character.diff_y as int,
            width as int,
            height as int,
        ),
        a.character.frame_index == 0,
{
    let roll: i64 = random_in(0, 3);
    let kind: EnemyKind = kind_of_roll(roll);
    let (px, py, vx, vy) = spawn_state(width, height, SPAWN_SPEED);
    let mut character: Character = Character::from(2).with_direction(vx, vy);
    character.trans_x = px;
    character.trans_y = py;
    EnemyActor { character, enemy: Enemy { kind, collided: false } }
}

/// Whether this tick's movement carries the enemy off the playfield: only
/// when its new position exceeds half the viewport's width AND half its
/// height at once.  An enemy leaving through the middle of an edge never
/// satisfies this and simply drifts off.
pub open spec fn leaves_playfield(pre: EnemyActor, w: int, h: int) -> bool {
    let mx = moved(pre.character.trans_x as int, pre.character.diff_x as int);
    let my = moved(pre.character.trans_y as int, pre.character.diff_y as int);
    w / 2 < abs(mx) && h / 2 < abs(my)
}

/// What one tick of movement does to an enemy's record: the position
/// advances by the velocity and the velocity grows by the 1.01x
/// acceleration, unless the enemy leaves the playfield, in which case it
/// reappears inside the half-viewport rectangle at its kind's reset speed.
/// The animation cursor steps when its timer fired; the facing flag and
/// the frame count are kept.
pub open spec fn enemy_moved(pre: EnemyActor, post: Character, w: int, h: int, timer: bool) -> bool {
    let mx = moved(pre.character.trans_x as int, pre.character.diff_x as int);
    let my = moved(pre.character.trans_y as int, pre.character.diff_y as int);
    &&& post.frame_count == pre.character.frame_count
    &&& post.frame_index == next_frame(
        pre.character.frame_index as int,
        pre.character.frame_count as int,
        timer,
    )
    &&& post.flip == pre.character.flip
    &&& if leaves_playfield(pre, w, h) {
        &&& -(w / 2) <= post.trans_x <= w / 2
        &&& -(h / 2) <= post.trans_y <= h / 2
        &&& edge_spawn_ok(
            post.trans_x as int,
            post.trans_y as int,
            post.diff_x as int,
            post.diff_y as int,
            w,
            h,
        )
        &&& ({
            let s = kind_speed(pre.enemy.kind);
            let v2 = vec_norm_sq(post.diff_x as int, post.diff_y as int);
            (s - 2) * (s - 2) <= v2 <= (s + 10) * (s + 10)
        })
    } else {
        &&& post.trans_x == mx
        &&& post.trans_y == my
        &&& post.diff_x == grown(pre.character.diff_x as int)
        &&& post.diff_y == grown(pre.character.diff_y as int)
    }
}

/// One tick of enemy behaviour, exactly as `enemy_moved` describes it; the
/// collided flag clears on a respawn and is otherwise kept, and the kind
/// never changes.  The sprite's visual heading is the arctangent of the
/// velocity; the host derives it from `diff_x` and `diff_y` when it draws.
pub fn animate_enemy(a: &mut EnemyActor, width: i64, height: i64, timer_finished: bool)
    requires
        old(a).wf(),
        80_000 <= width <= 10_000_000,
        80_000 <= height <= 10_000_000,
    ensures
        final(a).wf(),
        final(a).enemy.kind == old(a).enemy.kind,
        enemy_moved(*old(a), final(a).character, width as int, height as int, timer_finished),
        final(a).enemy.collided == (if leaves_playfield(*old(a), width as int, height as int) {
            false
        } else {
            old(a).enemy.collided
        }),
{
    a.character.trans_x = crate::character::move_coord(a.character.trans_x, a.character.diff_x);
    a.character.trans_y = crate::character::move_coord(a.character.trans_y, a.character.diff_y);
    a.character.diff_x = grow(a.character.diff_x);
    a.character.diff_y = grow(a.character.diff_y);
    let ax: i64 = if a.character.trans_x >= 0 {
        a.character.trans_x
    } else {
        -a.character.trans_x
    };
    let ay: i64 = if a.character.trans_y >= 0 {
        a.character.trans_y
    } else {
        -a.character.trans_y
    };
    if width / 2 < ax && height / 2 < ay {
        let speed: i64 = reset_speed(&a.enemy.kind);
        let (px, py, vx, vy) = spawn_state(width, height, speed);
        a.character.trans_x = px;
        a.character.trans_y = py;
        a.character.diff_x = vx;
        a.character.diff_y = vy;
        a.enemy.collided = false;
    }
    if timer_finished {
        a.character.frame_index = (a.character.frame_index + 1) % a.character.frame_count;
    }
}

} // verus!
