//! Movement record shared by the player and the enemies: velocity intent,
//! last-known position, facing flag and animation cursor.

use vstd::prelude::*;

verus! {

use crate::fixed::P_CAP;
use crate::fixed::V_CAP;
use crate::fixed::clamped;

#[derive(Debug, Clone, Copy)]
pub struct Character {
    pub flip: bool,
    pub diff_x: i64,
    pub diff_y: i64,
    pub trans_x: i64,
    pub trans_y: i64,
    pub frame_count: usize,
    pub frame_index: usize,
}

impl Character {
    /// Well-formed: the animation cursor stays inside the sprite sheet and
    /// every coordinate stays inside the representable world.
    pub open spec fn wf(self) -> bool {
        &&& 1 <= self.frame_count
        &&& self.frame_index < self.frame_count
        &&& -V_CAP <= self.diff_x <= V_CAP
        &&& -V_CAP <= self.diff_y <= V_CAP
        &&& -P_CAP <= self.trans_x <= P_CAP
        &&& -P_CAP <= self.trans_y <= P_CAP
    }

    /// A still character at the origin showing the first of `frame_count`
    /// animation frames.
    pub fn from(frame_count: usize) -> (c: Character)
        requires
            1 <= frame_count,
        ensures
            c == (Character {
                flip: false,
                diff_x: 0,
                diff_y: 0,
                trans_x: 0,
                trans_y: 0,
                frame_count,
                frame_index: 0,
            }),
            c.wf(),
    {
        Character {
            flip: false,
            diff_x: 0,
            diff_y: 0,
            trans_x: 0,
            trans_y: 0,
            frame_count,
            frame_index: 0,
        }
    }

    /// The same character with its velocity intent replaced.
    pub fn with_direction(self, x: i64, y: i64) -> (c: Character)
        ensures
            c == (Character { diff_x: x, diff_y: y, ..self }),
    {
        Character { diff_x: x, diff_y: y, ..self }
    }
}

/// Position after one tick of movement: the velocity added, saturated at the
/// representable world's edge.
pub open spec fn moved(p: int, d: int) -> int {
    clamped(p + d, -(P_CAP as int), P_CAP as int)
}

/// Next animation cursor: advance cyclically when the sprite timer fired.
pub open spec fn next_frame(index: int, count: int, timer_finished: bool) -> int {
    if timer_finished {
        (index + 1) % count
    } else {
        index
    }
}

/// One tick of autonomous movement: the position advances by the velocity
/// intent (memoized into the record) and the animation cursor steps on
/// whenever its timer has fired.
pub fn animate_character(c: &mut Character, timer_finished: bool)
    requires
        old(c).wf(),
    ensures
        final(c).wf(),
        final(c).trans_x == moved(old(c).trans_x as int, old(c).diff_x as int),
        final(c).trans_y == moved(old(c).trans_y as int, old(c).diff_y as int),
        final(c).frame_index == next_frame(
            old(c).frame_index as int,
            old(c).frame_count as int,
            timer_finished,
        ),
        final(c).diff_x == old(c).diff_x,
        final(c).diff_y == old(c).diff_y,
        final(c).flip == old(c).flip,
        final(c).frame_count == old(c).frame_count,
{
    c.trans_x = move_coord(c.trans_x, c.diff_x);
    c.trans_y = move_coord(c.trans_y, c.diff_y);
    if timer_finished {
        c.frame_index = (c.frame_index + 1) % c.frame_count;
    }
}

/// One coordinate advanced by one velocity component, saturating at the
/// representable world's edge.
pub fn move_coord(p: i64, d: i64) -> (r: i64)
    requires
        -P_CAP <= p <= P_CAP,
        -V_CAP <= d <= V_CAP,
    ensures
        r == moved(p as int, d as int),
{
    let q: i64 = p + d;
    if q < -P_CAP {
        -P_CAP
    } else if q > P_CAP {
        P_CAP
    } else {
        q
    }
}

} // verus!
