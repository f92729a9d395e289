//! Plane geometry on a fine grid: points, rectangles and zoom ratios.
//!
//! Document positions are counted in fine units, [`UNIT`] of them to a document unit, so that
//! halves, quarters and the other fractions the views use stay exact. Surface sizes are whole
//! pixels. A zoom is a ratio of surface pixels to fine units, kept exact as a fraction.
use vstd::prelude::*;

verus! {

/// Fine units per document unit.
pub const UNIT: i64 = 0x10_0000;

/// Largest document coordinate magnitude the library works with, in fine units.
pub const COORD_MAX: i64 = 0x1000_0000_0000_0000;

/// Largest surface size, in pixels, of any window or panel.
pub const SIZE_MAX: i64 = 0x1_0000;

/// Largest numerator or denominator of a zoom ratio.
pub const RATIO_MAX: i64 = 0x400_0000_0000;

/// Largest camera origin magnitude: a camera may look far past any document.
pub const VIEW_MAX: i64 = 0x4000_0000_0000_0000;

pub open spec fn coord_ok(v: int) -> bool {
    -COORD_MAX <= v <= COORD_MAX
}

pub open spec fn view_ok(v: int) -> bool {
    -VIEW_MAX <= v <= VIEW_MAX
}

/// `v` clamped into `[lo, hi]`.
pub open spec fn clamp_int(v: int, lo: int, hi: int) -> int {
    if v < lo {
        lo
    } else if v > hi {
        hi
    } else {
        v
    }
}

pub open spec fn max_int(a: int, b: int) -> int {
    if a >= b {
        a
    } else {
        b
    }
}

pub open spec fn abs_int(a: int) -> int {
    if a >= 0 {
        a
    } else {
        -a
    }
}

/// Smallest integer not below `a / b`, for `b > 0`.
pub open spec fn ceil_div(a: int, b: int) -> int {
    -((-a) / b)
}

/// `v` clamped into `[lo, hi]`.
pub fn clamp_i64(v: i64, lo: i64, hi: i64) -> (r: i64)
    requires
        lo <= hi,
    ensures
        r == clamp_int(v as int, lo as int, hi as int),
{
    if v < lo {
        lo
    } else if v > hi {
        hi
    } else {
        v
    }
}

/// Floor division `a / b` for a positive `b` (spec `/` is floor division for positive divisors).
pub fn floor_div(a: i64, b: i64) -> (q: i64)
    requires
        b > 0,
    ensures
        q as int == a as int / b as int,
        a >= 0 ==> 0 <= q <= a,
        a < 0 ==> a <= q < 0,
{
    proof {
        if a >= 0 {
            assert(0 <= (a as int) / (b as int) <= (a as int)) by (nonlinear_arith)
                requires
                    b > 0,
                    a >= 0,
            ;
        } else {
            assert((a as int) <= (a as int) / (b as int) < 0) by (nonlinear_arith)
                requires
                    b > 0,
                    a < 0,
            ;
        }
    }
    match a.checked_div_euclid(b) {
        Some(q) => q,
        None => {
            proof {
                assert(false);
            }
            0
        },
    }
}

/// Ceiling division `a / b` for a positive `b`.
pub fn ceil_div_i64(a: i64, b: i64) -> (q: i64)
    requires
        b > 0,
        a > i64::MIN,
    ensures
        q as int == ceil_div(a as int, b as int),
        a > 0 ==> 0 < q <= a,
        a <= 0 ==> a <= q <= 0,
{
    let f: i64 = floor_div(-a, b);
    proof {
        if a <= 0 {
            assert(0 <= (-(a as int)) / (b as int) <= -(a as int)) by (nonlinear_arith)
                requires
                    b > 0,
                    a <= 0,
            ;
        } else {
            assert(-(a as int) <= (-(a as int)) / (b as int) < 0) by (nonlinear_arith)
                requires
                    b > 0,
                    a > 0,
            ;
        }
    }
    -f
}

/// Whether `d * num <= k * den`, computed without overflow.
pub fn scaled_at_most(d: i64, num: i64, k: i64, den: i64) -> (b: bool)
    requires
        -0x4000_0000_0000_0000 <= d <= 0x4000_0000_0000_0000,
        1 <= num <= RATIO_MAX,
        0 <= k <= 0x1_0000,
        1 <= den <= RATIO_MAX,
    ensures
        b == (d * num <= k * den),
{
    proof {
        assert(-0x4000_0000_0000_0000 * RATIO_MAX <= d * num <= 0x4000_0000_0000_0000 * RATIO_MAX)
            by (nonlinear_arith)
            requires
                -0x4000_0000_0000_0000 <= d <= 0x4000_0000_0000_0000,
                1 <= num <= RATIO_MAX,
        ;
        assert(0 <= k * den <= 0x1_0000 * RATIO_MAX) by (nonlinear_arith)
            requires
                0 <= k <= 0x1_0000,
                1 <= den <= RATIO_MAX,
        ;
    }
    (d as i128) * (num as i128) <= (k as i128) * (den as i128)
}

/// A position in fine units, or a vector between two positions.
#[derive(Clone, Copy, Debug, PartialEq, Eq, Structural)]
pub struct Point {
    pub x: i64,
    pub y: i64,
}

impl Point {
    pub open spec fn in_range(self) -> bool {
        coord_ok(self.x as int) && coord_ok(self.y as int)
    }

    pub fn new(x: i64, y: i64) -> (p: Point)
        ensures
            p.x == x,
            p.y == y,
    {
        Point { x, y }
    }
}

/// A surface size in pixels.
#[derive(Clone, Copy, Debug, PartialEq, Eq, Structural)]
pub struct Size {
    pub width: i64,
    pub height: i64,
}

impl Size {
    pub open spec fn wf(self) -> bool {
        1 <= self.width <= SIZE_MAX && 1 <= self.height <= SIZE_MAX
    }

    pub fn new(width: i64, height: i64) -> (s: Size)
        ensures
            s.width == width,
            s.height == height,
    {
        Size { width, height }
    }

    /// The size with each side clamped into `[1, SIZE_MAX]`.
    pub open spec fn spec_clamped(self) -> Size {
        Size {
            width: clamp_int(self.width as int, 1, SIZE_MAX as int) as i64,
            height: clamp_int(self.height as int, 1, SIZE_MAX as int) as i64,
        }
    }

    pub fn clamped(&self) -> (s: Size)
        ensures
            s == self.spec_clamped(),
            s.wf(),
    {
        Size { width: clamp_i64(self.width, 1, SIZE_MAX), height: clamp_i64(self.height, 1, SIZE_MAX) }
    }
}

/// An axis-aligned rectangle, edges included.
#[derive(Clone, Copy, Debug, PartialEq, Eq, Structural)]
pub struct Rect {
    pub mins: Point,
    pub maxs: Point,
}

impl Rect {
    pub open spec fn in_range(self) -> bool {
        self.mins.in_range() && self.maxs.in_range()
    }

    /// Every coordinate lies in the camera range.
    pub open spec fn in_view_range(self) -> bool {
        view_ok(self.mins.x as int) && view_ok(self.mins.y as int) && view_ok(self.maxs.x as int)
            && view_ok(self.maxs.y as int)
    }

    /// Both extents are positive.
    pub open spec fn is_proper(self) -> bool {
        self.mins.x < self.maxs.x && self.mins.y < self.maxs.y
    }

    pub open spec fn width(self) -> int {
        self.maxs.x - self.mins.x
    }

    pub open spec fn height(self) -> int {
        self.maxs.y - self.mins.y
    }

    pub open spec fn contains_point(self, p: Point) -> bool {
        self.mins.x <= p.x <= self.maxs.x && self.mins.y <= p.y <= self.maxs.y
    }

    pub open spec fn contains_rect(self, other: Rect) -> bool {
        self.mins.x <= other.mins.x && other.maxs.x <= self.maxs.x && self.mins.y <= other.mins.y
            && other.maxs.y <= self.maxs.y
    }

    pub fn new(mins: Point, maxs: Point) -> (r: Rect)
        ensures
            r.mins == mins,
            r.maxs == maxs,
    {
        Rect { mins, maxs }
    }

    /// Whether `p` lies in the rectangle, edges included.
    pub fn contains(&self, p: Point) -> (b: bool)
        ensures
            b == self.contains_point(p),
    {
        self.mins.x <= p.x && p.x <= self.maxs.x && self.mins.y <= p.y && p.y <= self.maxs.y
    }

    /// Whether `other` lies entirely in the rectangle, edges included.
    pub fn contains_other(&self, other: &Rect) -> (b: bool)
        ensures
            b == self.contains_rect(*other),
    {
        self.mins.x <= other.mins.x && other.maxs.x <= self.maxs.x && self.mins.y <= other.mins.y
            && other.maxs.y <= self.maxs.y
    }

    /// The rectangle grown by `amount` on every side.
    pub fn loosened(&self, amount: i64) -> (r: Rect)
        requires
            0 <= amount <= COORD_MAX,
            self.in_view_range(),
        ensures
            r.mins.x == self.mins.x - amount,
            r.mins.y == self.mins.y - amount,
            r.maxs.x == self.maxs.x + amount,
            r.maxs.y == self.maxs.y + amount,
    {
        Rect {
            mins: Point { x: self.mins.x - amount, y: self.mins.y - amount },
            maxs: Point { x: self.maxs.x + amount, y: self.maxs.y + amount },
        }
    }
}

/// An exact positive fraction `num / den`.
#[derive(Clone, Copy, Debug, PartialEq, Eq, Structural)]
pub struct Ratio {
    pub num: i64,
    pub den: i64,
}

impl Ratio {
    pub open spec fn wf(self) -> bool {
        1 <= self.num <= RATIO_MAX && 1 <= self.den <= RATIO_MAX
    }

    /// `self < other` as fractions.
    pub open spec fn less_than(self, other: Ratio) -> bool {
        self.num * other.den < other.num * self.den
    }

    /// `self == other` as fractions.
    pub open spec fn same_value(self, other: Ratio) -> bool {
        self.num * other.den == other.num * self.den
    }

    pub fn new(num: i64, den: i64) -> (r: Ratio)
        ensures
            r.num == num,
            r.den == den,
    {
        Ratio { num, den }
    }

    /// Compare two fractions: whether `self < other`.
    pub fn lt(&self, other: &Ratio) -> (b: bool)
        requires
            self.wf(),
            other.wf(),
        ensures
            b == self.less_than(*other),
    {
        proof {
            assert(0 <= self.num * other.den <= RATIO_MAX * RATIO_MAX) by (nonlinear_arith)
                requires
                    self.wf(),
                    other.wf(),
            ;
            assert(0 <= other.num * self.den <= RATIO_MAX * RATIO_MAX) by (nonlinear_arith)
                requires
                    self.wf(),
                    other.wf(),
            ;
        }
        (self.num as i128) * (other.den as i128) < (other.num as i128) * (self.den as i128)
    }

    /// The number of fine units that `len_px` surface pixels cover at this zoom, rounded down.
    pub open spec fn spec_units_for(self, len_px: int) -> int {
        len_px * self.den / (self.num as int)
    }

    pub fn units_for(&self, len_px: i64) -> (u: i64)
        requires
            self.wf(),
            0 <= len_px <= SIZE_MAX,
        ensures
            u as int == self.spec_units_for(len_px as int),
            0 <= u <= SIZE_MAX * RATIO_MAX,
    {
        proof {
            assert(0 <= len_px * self.den <= SIZE_MAX * RATIO_MAX) by (nonlinear_arith)
                requires
                    0 <= len_px <= SIZE_MAX,
                    1 <= self.den <= RATIO_MAX,
            ;
            assert(0 <= (len_px * self.den) / (self.num as int) <= len_px * self.den)
                by (nonlinear_arith)
                requires
                    0 <= len_px * self.den,
                    1 <= self.num,
            ;
        }
        let p: i64 = len_px * self.den;
        p / self.num
    }
}

/// The smallest zoom a camera takes: a fifth of a surface pixel per document unit.
pub open spec fn zoom_min() -> Ratio {
    Ratio { num: 1, den: (5 * UNIT) as i64 }
}

/// The largest zoom a camera takes: six surface pixels per document unit.
pub open spec fn zoom_max() -> Ratio {
    Ratio { num: 6, den: UNIT }
}

/// `z` lies within the zoom limits of a camera.
pub open spec fn zoom_ok(z: Ratio) -> bool {
    &&& z.wf()
    &&& z.den <= 5 * UNIT * z.num
    &&& z.num * UNIT <= 6 * z.den
}

/// The zoom `num / den` brought into the zoom limits.
pub open spec fn clamp_zoom(num: int, den: int) -> Ratio {
    if den > 5 * UNIT * num {
        zoom_min()
    } else if num * UNIT > 6 * den {
        zoom_max()
    } else {
        Ratio { num: num as i64, den: den as i64 }
    }
}

/// The zoom `num / den`, `num` surface pixels over `den` fine units, brought into the zoom limits.
pub fn clamped_zoom(num: i64, den: i64) -> (z: Ratio)
    requires
        1 <= num <= SIZE_MAX,
        1 <= den <= 0x4000_0000_0000_0000,
    ensures
        z == clamp_zoom(num as int, den as int),
        zoom_ok(z),
{
    proof {
        assert(5 * UNIT * num <= 5 * UNIT * SIZE_MAX) by (nonlinear_arith)
            requires
                1 <= num <= SIZE_MAX,
        ;
    }
    if (den as i128) > 5 * (UNIT as i128) * (num as i128) {
        Ratio { num: 1, den: 5 * UNIT }
    } else if (num as i128) * (UNIT as i128) > 6 * (den as i128) {
        Ratio { num: 6, den: UNIT }
    } else {
        Ratio { num, den }
    }
}

} // verus!
