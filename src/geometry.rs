//! Points, rectangles, and the arithmetic they share.

use vstd::prelude::*;

verus! {

/// Largest magnitude accepted for a coordinate, a size or a speed.
pub const COORD_MAX: i64 = 1_000_000_000_000;

/// Length units in one pixel.
pub const UNITS_PER_PIXEL: i64 = 1_000_000;

pub open spec fn coord_ok(v: int) -> bool {
    -COORD_MAX <= v <= COORD_MAX
}

/// The range of a point computed from bounded values: a rectangle's far
/// corner, or a corner of the view.
pub open spec fn wide_ok(v: int) -> bool {
    -4 * COORD_MAX <= v <= 4 * COORD_MAX
}

/// A point in world or screen space.
#[derive(Clone, Copy, Debug, PartialEq, Eq, Structural)]
pub struct Vec2 {
    pub x: i64,
    pub y: i64,
}

impl Vec2 {
    pub fn new(x: i64, y: i64) -> (r: Vec2)
        ensures
            r.x == x,
            r.y == y,
    {
        Vec2 { x, y }
    }

    pub open spec fn is_bounded(self) -> bool {
        coord_ok(self.x as int) && coord_ok(self.y as int)
    }

    pub fn in_range(&self) -> (r: bool)
        ensures
            r == self.is_bounded(),
    {
        coord_in_range(self.x) && coord_in_range(self.y)
    }
}

pub fn coord_in_range(v: i64) -> (r: bool)
    ensures
        r == coord_ok(v as int),
{
    -COORD_MAX <= v && v <= COORD_MAX
}

/// An axis-aligned rectangle: its top-left corner and its size.
#[derive(Clone, Copy, Debug, PartialEq, Eq, Structural)]
pub struct Rect {
    pub x: i64,
    pub y: i64,
    pub width: i64,
    pub height: i64,
}

impl Rect {
    pub fn new(x: i64, y: i64, width: i64, height: i64) -> (r: Rect)
        ensures
            r.x == x,
            r.y == y,
            r.width == width,
            r.height == height,
    {
        Rect { x, y, width, height }
    }

    pub open spec fn right(self) -> int {
        self.x + self.width
    }

    pub open spec fn bottom(self) -> int {
        self.y + self.height
    }

    pub open spec fn is_bounded(self) -> bool {
        &&& coord_ok(self.x as int)
        &&& coord_ok(self.y as int)
        &&& coord_ok(self.width as int)
        &&& coord_ok(self.height as int)
    }

    pub fn in_range(&self) -> (r: bool)
        ensures
            r == self.is_bounded(),
    {
        coord_in_range(self.x) && coord_in_range(self.y) && coord_in_range(self.width)
            && coord_in_range(self.height)
    }
}

/// Division rounded towards negative infinity, which is what `/` means on
/// mathematical integers for a positive divisor.
pub fn floor_div(a: i128, b: i128) -> (r: i128)
    requires
        b > 0,
    ensures
        r == a / b,
{
    if a >= 0 {
        (a as u128 / b as u128) as i128
    } else {
        // a == -(n + 1), and the floor of -(n + 1) / b is -(n / b) - 1.
        let n: u128 = (-(a + 1)) as u128;
        let q: u128 = n / (b as u128);
        proof {
            let (ni, bi, qi) = (n as int, b as int, q as int);
            let ri = ni % bi;
            vstd::arithmetic::div_mod::lemma_fundamental_div_mod(ni, bi);
            assert(0 <= qi <= ni) by (nonlinear_arith)
                requires
                    ni == bi * qi + ri,
                    0 <= ri,
                    bi >= 1,
                    qi >= 0,
            ;
            assert(a == (-qi - 1) * bi + (bi - 1 - ri)) by (nonlinear_arith)
                requires
                    ni == bi * qi + ri,
                    a == -(ni + 1),
            ;
            vstd::arithmetic::div_mod::lemma_fundamental_div_mod_converse(
                a as int,
                bi,
                -qi - 1,
                bi - 1 - ri,
            );
        }
        -(q as i128) - 1
    }
}

/// The integer square root: the largest `r` whose square is at most `n`.
pub open spec fn sqrt_floor(n: int) -> int {
    choose|r: int| 0 <= r && #[trigger] (r * r) <= n < (r + 1) * (r + 1)
}

/// Bisection between a root from below and one from above.
pub fn isqrt(n: u128) -> (r: u128)
    requires
        n < 0x100_0000_0000_0000_0000_0000_0000_0000,
    ensures
        r * r <= n < (r + 1) * (r + 1),
        r == sqrt_floor(n as int),
{
    let mut lo: u128 = 0;
    let mut hi: u128 = 0x1000_0000_0000_0000;
    assert(hi * hi == 0x100_0000_0000_0000_0000_0000_0000_0000) by (nonlinear_arith)
        requires
            hi == 0x1000_0000_0000_0000,
    ;
    while hi - lo > 1
        invariant
            lo < hi <= 0x1000_0000_0000_0000,
            lo * lo <= n,
            n < hi * hi,
        decreases hi - lo,
    {
        let mid = lo + (hi - lo) / 2;
        assert(mid * mid < 0x100_0000_0000_0000_0000_0000_0000_0000) by (nonlinear_arith)
            requires
                mid < 0x1000_0000_0000_0000,
        ;
        if mid * mid <= n {
            lo = mid;
        } else {
            hi = mid;
        }
    }
    proof {
        let (ri, ni) = (lo as int, n as int);
        assert(hi == lo + 1);
        assert(0 <= ri && ri * ri <= ni < (ri + 1) * (ri + 1));
        assert(exists|r: int| 0 <= r && #[trigger] (r * r) <= ni < (r + 1) * (r + 1));
        let c = sqrt_floor(ni);
        assert(0 <= c && c * c <= ni < (c + 1) * (c + 1));
        assert(c == ri) by (nonlinear_arith)
            requires
                0 <= c && c * c <= ni < (c + 1) * (c + 1),
                0 <= ri && ri * ri <= ni < (ri + 1) * (ri + 1),
        {
            if c < ri {
                assert((c + 1) * (c + 1) <= ri * ri) by (nonlinear_arith)
                    requires
                        0 <= c + 1 <= ri,
                ;
            } else if c > ri {
                assert((ri + 1) * (ri + 1) <= c * c) by (nonlinear_arith)
                    requires
                        0 <= ri + 1 <= c,
                ;
            }
        }
    }
    lo
}

} // verus!
