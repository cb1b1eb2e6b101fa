//! The player: score keeping, cursor steering and clamped movement.

use vstd::prelude::*;

verus! {

use crate::character::Character;
use crate::character::next_frame;
use crate::fixed::P_CAP;
use crate::fixed::clamped;
use crate::fixed::scale_to_speed;
use crate::fixed::scaled_x;
use crate::fixed::scaled_y;
use crate::fixed::vec_norm_sq;

/// Score gained on each slow score tick: one point.
pub const SCORE_STEP: i64 = 1000;

/// Largest score the simulation represents; accrual saturates here.
pub const SCORE_CAP: i64 = 1_000_000_000_000_000;

/// The game is over once the score falls strictly below one point.
pub const GAME_OVER_LIMIT: i64 = 1000;

/// The player moves at ten world units per tick when steering.
pub const PLAYER_SPEED: i64 = 10_000;

/// The player's sprite sheet has three animation frames.
pub const PLAYER_FRAMES: usize = 3;

/// Steering dead zone: closer than ten world units, the player stands still.
pub const STEER_DEADZONE_SQ: i64 = 100_000_000;

/// Current score and its high-water mark, in fixed-point points
/// (`crate::SCALE` steps per point).
#[derive(Debug, Clone, Copy)]
pub struct Player {
    pub score: i64,
    pub max_score: i64,
}

impl Player {
    /// Well-formed: the high-water mark has seen every score.
    pub open spec fn wf(self) -> bool {
        0 <= self.score <= self.max_score <= SCORE_CAP
    }
}

impl Default for Player {
    /// A fresh player with nothing scored yet.
    fn default() -> (p: Player)
        ensures
            p.score == 0,
            p.max_score == 0,
            p.wf(),
    {
        Player { score: 0, max_score: 0 }
    }
}

/// The player as scene setup creates it: nothing scored yet, standing
/// still at the origin, showing the first of its three animation frames.
pub fn setup_player() -> (r: (Player, Character))
    ensures
        r.0.score == 0,
        r.0.max_score == 0,
        r.0.wf(),
        r.1 == (Character {
            flip: false,
            diff_x: 0,
            diff_y: 0,
            trans_x: 0,
            trans_y: 0,
            frame_count: PLAYER_FRAMES as usize,
            frame_index: 0,
        }),
        r.1.wf(),
{
    (Player::default(), Character::from(PLAYER_FRAMES))
}

/// Score after one slow score tick: one more point, saturating at the cap.
pub open spec fn accrued(score: int) -> int {
    if score + SCORE_STEP <= SCORE_CAP {
        score + SCORE_STEP
    } else {
        SCORE_CAP as int
    }
}

/// Periodic score accrual while in play: the score gains a point and the
/// high-water mark follows it.  The high-water mark never decreases.
pub fn update_score(p: &mut Player)
    requires
        old(p).wf(),
    ensures
        final(p).wf(),
        final(p).score == accrued(old(p).score as int),
        final(p).max_score == (if final(p).score > old(p).max_score {
            final(p).score
        } else {
            old(p).max_score
        }),
        final(p).max_score >= old(p).max_score,
{
    if p.score + SCORE_STEP <= SCORE_CAP {
        p.score = p.score + SCORE_STEP;
    } else {
        p.score = SCORE_CAP;
    }
    if p.score > p.max_score {
        p.max_score = p.score;
    }
}

/// The steered velocity intent: full player speed toward the target when it
/// lies outside the dead zone, standing still otherwise.
pub open spec fn steered_x(tx: int, ty: int, px: int, py: int) -> int {
    if vec_norm_sq(tx - px, ty - py) > STEER_DEADZONE_SQ {
        scaled_x(tx - px, ty - py, PLAYER_SPEED as int)
    } else {
        0
    }
}

pub open spec fn steered_y(tx: int, ty: int, px: int, py: int) -> int {
    if vec_norm_sq(tx - px, ty - py) > STEER_DEADZONE_SQ {
        scaled_y(tx - px, ty - py, PLAYER_SPEED as int)
    } else {
        0
    }
}

/// Whether the sprite faces left after steering: only while moving left.
pub open spec fn steered_flip(tx: int, ty: int, px: int, py: int) -> bool {
    vec_norm_sq(tx - px, ty - py) > STEER_DEADZONE_SQ && tx - px < 0
}

/// Point the player's velocity intent at the target (the cursor, in world
/// coordinates): full speed toward it when it lies outside the dead zone,
/// standing still otherwise.  The sprite faces the direction of travel.
pub fn steer_player(c: &mut Character, target_x: i64, target_y: i64)
    requires
        old(c).wf(),
        -10_000_000 <= target_x <= 10_000_000,
        -10_000_000 <= target_y <= 10_000_000,
        -10_000_000 <= old(c).trans_x <= 10_000_000,
        -10_000_000 <= old(c).trans_y <= 10_000_000,
    ensures
        final(c).wf(),
        final(c).diff_x == steered_x(
            target_x as int,
            target_y as int,
            old(c).trans_x as int,
            old(c).trans_y as int,
        ),
        final(c).diff_y == steered_y(
            target_x as int,
            target_y as int,
            old(c).trans_x as int,
            old(c).trans_y as int,
        ),
        final(c).flip == steered_flip(
            target_x as int,
            target_y as int,
            old(c).trans_x as int,
            old(c).trans_y as int,
        ),
        final(c).trans_x == old(c).trans_x,
        final(c).trans_y == old(c).trans_y,
        final(c).frame_count == old(c).frame_count,
        final(c).frame_index == old(c).frame_index,
{
    let dx: i64 = target_x - c.trans_x;
    let dy: i64 = target_y - c.trans_y;
    assert(0 <= dx * dx <= 400_000_000_000_000 && 0 <= dy * dy
        <= 400_000_000_000_000) by (nonlinear_arith)
        requires
            -20_000_000 <= dx <= 20_000_000,
            -20_000_000 <= dy <= 20_000_000,
    ;
    let n2: i64 = dx * dx + dy * dy;
    assert(n2 == vec_norm_sq(dx as int, dy as int));
    if n2 > STEER_DEADZONE_SQ {
        let (vx, vy) = scale_to_speed(dx, dy, PLAYER_SPEED);
        proof {
            crate::fixed::lemma_scaled_component_bounds(dx as int, dy as int, PLAYER_SPEED as int);
        }
        c.flip = dx < 0;
        c.diff_x = vx;
        c.diff_y = vy;
    } else {
        c.flip = false;
        c.diff_x = 0;
        c.diff_y = 0;
    }
}

/// One tick of player movement: advance by the velocity intent, clamped to
/// the middle ninety percent of the viewport, and step the animation cursor
/// when its timer has fired.
pub fn animate_player(c: &mut Character, width: i64, height: i64, timer_finished: bool)
    requires
        old(c).wf(),
        0 <= width <= 10_000_000,
        0 <= height <= 10_000_000,
    ensures
        final(c).wf(),
        final(c).trans_x == clamped(
            old(c).trans_x + old(c).diff_x,
            -((width as int * 45) / 100),
            (width as int * 45) / 100,
        ),
        final(c).trans_y == clamped(
            old(c).trans_y + old(c).diff_y,
            -((height as int * 45) / 100),
            (height as int * 45) / 100,
        ),
        final(c).frame_index == next_frame(
            old(c).frame_index as int,
            old(c).frame_count as int,
            timer_finished,
        ),
        final(c).diff_x == old(c).diff_x,
        final(c).diff_y == old(c).diff_y,
        final(c).flip == old(c).flip,
        final(c).frame_count == old(c).frame_count,
{
    let bx: i64 = width * 45 / 100;
    let by: i64 = height * 45 / 100;
    proof {
        vstd::arithmetic::div_mod::lemma_div_pos_is_pos(width as int * 45, 100);
        vstd::arithmetic::div_mod::lemma_div_pos_is_pos(height as int * 45, 100);
        vstd::arithmetic::div_mod::lemma_div_nonincreasing(width as int * 45, 100);
        vstd::arithmetic::div_mod::lemma_div_nonincreasing(height as int * 45, 100);
    }
    let nx: i64 = c.trans_x + c.diff_x;
    let ny: i64 = c.trans_y + c.diff_y;
    c.trans_x = crate::fixed::clamp_i64(nx, -bx, bx);
    c.trans_y = crate::fixed::clamp_i64(ny, -by, by);
    if timer_finished {
        c.frame_index = (c.frame_index + 1) % c.frame_count;
    }
}

} // verus!
