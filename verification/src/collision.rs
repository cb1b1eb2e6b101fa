//! Axis-aligned collision between the player and the enemies, and what a
//! hit does to the score.

use vstd::prelude::*;

verus! {

use crate::enemy::EnemyActor;
use crate::fixed::P_CAP;
use crate::player::GAME_OVER_LIMIT;
use crate::player::Player;

/// Side length of every collision box: forty world units, independent of
/// the sprite's actual scale.
pub const BOX_SIZE: i64 = 40_000;

/// Axis-aligned overlap of the two fixed 40x40 boxes centred at the given
/// points (strict on both axes: touching edges do not overlap).
pub open spec fn boxes_overlap(ax: int, ay: int, bx: int, by: int) -> bool {
    &&& -(BOX_SIZE as int) < ax - bx < BOX_SIZE as int
    &&& -(BOX_SIZE as int) < ay - by < BOX_SIZE as int
}

pub fn collide(ax: i64, ay: i64, bx: i64, by: i64) -> (r: bool)
    requires
        -P_CAP <= ax <= P_CAP,
        -P_CAP <= ay <= P_CAP,
        -P_CAP <= bx <= P_CAP,
        -P_CAP <= by <= P_CAP,
    ensures
        r == boxes_overlap(ax as int, ay as int, bx as int, by as int),
{
    let wx: i64 = ax - bx;
    let wy: i64 = ay - by;
    -BOX_SIZE < wx && wx < BOX_SIZE && -BOX_SIZE < wy && wy < BOX_SIZE
}

/// Whether an enemy deals damage this tick: its box overlaps the player's
/// and it has not collided since its last (re)spawn.
pub open spec fn hits(px: int, py: int, a: EnemyActor) -> bool {
    &&& !a.enemy.collided
    &&& boxes_overlap(px, py, a.character.trans_x as int, a.character.trans_y as int)
}

/// How many enemies in the sequence deal damage this tick.
pub open spec fn hit_count(px: int, py: int, s: Seq<EnemyActor>) -> nat
    decreases s.len(),
{
    if s.len() == 0 {
        0
    } else {
        hit_count(px, py, s.drop_last()) + (if hits(px, py, s.last()) {
            1nat
        } else {
            0nat
        })
    }
}

/// The score after `n` halvings, each rounding down.
pub open spec fn halved(score: int, n: nat) -> int
    decreases n,
{
    if n == 0 {
        score
    } else {
        halved(score, (n - 1) as nat) / 2
    }
}

/// Halving never raises a score, and a score of at least zero stays so.
pub proof fn lemma_halved_bounds(score: int, n: nat)
    requires
        0 <= score,
    ensures
        0 <= halved(score, n) <= score,
    decreases n,
{
    if n > 0 {
        lemma_halved_bounds(score, (n - 1) as nat);
    }
}

/// One collision pass: every enemy whose box overlaps the player's box and
/// that has not collided since its last respawn halves the score once and
/// has its collided flag set.  Returns how many such hits there were and
/// whether the game is over, which is the case exactly when at least one
/// hit left the score below one point.
pub fn check_collision(player: &mut Player, px: i64, py: i64, enemies: &mut Vec<EnemyActor>) -> (r:
    (usize, bool))
    requires
        old(player).wf(),
        -P_CAP <= px <= P_CAP,
        -P_CAP <= py <= P_CAP,
        forall|i: int| 0 <= i < old(enemies)@.len() ==> old(enemies)@[i].wf(),
    ensures
        final(player).wf(),
        final(player).max_score == old(player).max_score,
        final(player).score == halved(
            old(player).score as int,
            hit_count(px as int, py as int, old(enemies)@),
        ),
        final(player).score <= old(player).score,
        r.0 == hit_count(px as int, py as int, old(enemies)@),
        r.0 <= old(enemies)@.len(),
        r.1 == (r.0 >= 1 && final(player).score < GAME_OVER_LIMIT),
        final(enemies)@.len() == old(enemies)@.len(),
        forall|i: int| 0 <= i < old(enemies)@.len() ==> #[trigger] final(enemies)@[i].character
            == old(enemies)@[i].character,
        forall|i: int| 0 <= i < old(enemies)@.len() ==> #[trigger] final(enemies)@[i].enemy.kind
            == old(enemies)@[i].enemy.kind,
        forall|i: int|
            0 <= i < old(enemies)@.len() ==> #[trigger] final(enemies)@[i].enemy.collided == (old(
                enemies,
            )@[i].enemy.collided || boxes_overlap(
            px as int,
            py as int,
            old(enemies)@[i].character.trans_x as int,
            old(enemies)@[i].character.trans_y as int,
        )),
{
    let ghost s0 = enemies@;
    let mut hit_total: usize = 0;
    let mut game_over: bool = false;
    let mut i: usize = 0;
    let n: usize = enemies.len();
    while i < n
        invariant
            player.wf(),
            player.max_score == old(player).max_score,
            n == s0.len(),
            enemies@.len() == s0.len(),
            i <= n,
            forall|j: int| 0 <= j < s0.len() ==> s0[j].wf(),
            player.score == halved(old(player).score as int, hit_count(px as int, py as int, s0.take(i as int))),
            player.score <= old(player).score,
            hit_total <= i,
            hit_total == hit_count(px as int, py as int, s0.take(i as int)),
            game_over == (hit_total >= 1 && player.score < GAME_OVER_LIMIT),
            -P_CAP <= px <= P_CAP,
            -P_CAP <= py <= P_CAP,
            forall|j: int| 0 <= j < s0.len() ==> #[trigger] enemies@[j].character
                == s0[j].character,
            forall|j: int| 0 <= j < s0.len() ==> #[trigger] enemies@[j].enemy.kind
                == s0[j].enemy.kind,
            forall|j: int| 0 <= j < s0.len() ==> #[trigger] enemies@[j].enemy.collided == (if j
                < i {
                s0[j].enemy.collided || boxes_overlap(
                    px as int,
                    py as int,
                    s0[j].character.trans_x as int,
                    s0[j].character.trans_y as int,
                )
            } else {
                s0[j].enemy.collided
            }),
        decreases n - i,
    {
        proof {
            assert(s0.take(i + 1).drop_last() =~= s0.take(i as int));
            assert(s0.take(i + 1).last() == s0[i as int]);
        }
        let overlap: bool = collide(
            px,
            py,
            enemies[i].character.trans_x,
            enemies[i].character.trans_y,
        );
        if !enemies[i].enemy.collided && overlap {
            player.score = player.score / 2;
            hit_total = hit_total + 1;
            if player.score < GAME_OVER_LIMIT {
                game_over = true;
            }
        }
        if overlap {
            let mut e: EnemyActor = enemies[i];
            e.enemy.collided = true;
            enemies[i] = e;
        }
        i = i + 1;
    }
    proof {
        assert(s0.take(n as int) =~= s0);
    }
    (hit_total, game_over)
}

} // verus!
