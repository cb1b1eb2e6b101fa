//! The text of the score labels: a point count rendered as decimal
//! digits, left-padded with zeros to at least four places.

use vstd::prelude::*;

verus! {

/// The decimal digits of `n` as ASCII bytes, most significant first.
pub open spec fn decimal_digits(n: nat) -> Seq<u8>
    decreases n,
{
    if n < 10 {
        seq![(48 + n) as u8]
    } else {
        decimal_digits(n / 10).push((48 + n % 10) as u8)
    }
}

/// What a score label shows for `points`: its decimal digits, left-padded
/// with zeros to at least four places.
pub open spec fn score_label_text(points: nat) -> Seq<u8> {
    let d = decimal_digits(points);
    if d.len() >= 4 {
        d
    } else {
        Seq::new((4 - d.len()) as nat, |i: int| 48u8) + d
    }
}

/// The decimal digits of `n`, most significant first.
pub fn decimal_text(n: u64) -> (r: Vec<u8>)
    ensures
        r@ == decimal_digits(n as nat),
        r@.len() >= 1,
    decreases n,
{
    let mut r: Vec<u8>;
    if n < 10 {
        r = Vec::new();
        r.push(48 + n as u8);
        proof {
            assert(r@ =~= decimal_digits(n as nat));
        }
    } else {
        r = decimal_text(n / 10);
        r.push(48 + (n % 10) as u8);
    }
    r
}

/// Render a point count for a score label: decimal, and left-padded with
/// zeros to at least four places.
pub fn score_text(points: u64) -> (r: Vec<u8>)
    ensures
        r@ == score_label_text(points as nat),
        r@.len() >= 4,
{
    let mut digits: Vec<u8> = decimal_text(points);
    let mut r: Vec<u8> = Vec::new();
    let total: usize = if digits.len() >= 4 {
        digits.len()
    } else {
        4
    };
    let pad: usize = total - digits.len();
    let mut i: usize = 0;
    while i < pad
        invariant
            i <= pad,
            r@ =~= Seq::new(i as nat, |j: int| 48u8),
        decreases pad - i,
    {
        r.push(48);
        i = i + 1;
    }
    r.append(&mut digits);
    proof {
        assert(r@ =~= score_label_text(points as nat));
    }
    r
}

} // verus!
