//! Integer geometry: points, axis-aligned rectangles, and the linear range
//! mapping used when converting between coordinate spaces.
//!
//! All virtual (view-space) coordinates are `i64` values bounded by
//! [`COORD_MAX`], which keeps every intermediate product of the range mapping
//! inside `i64`.

use vstd::prelude::*;

verus! {

/// Bound on every well-formed view-space coordinate.
pub const COORD_MAX: i64 = 1000000;

/// Saturating difference `a - b`, clamped into the `i64` range.
pub open spec fn sat_sub_spec(a: int, b: int) -> int {
    if a - b < i64::MIN {
        i64::MIN as int
    } else if a - b > i64::MAX {
        i64::MAX as int
    } else {
        a - b
    }
}

/// Executable saturating subtraction matching [`sat_sub_spec`].
pub fn sat_sub(a: i64, b: i64) -> (r: i64)
    ensures
        r as int == sat_sub_spec(a as int, b as int),
{
    if b >= 0 {
        if a >= i64::MIN + b {
            a - b
        } else {
            i64::MIN
        }
    } else {
        if a <= i64::MAX + b {
            a - b
        } else {
            i64::MAX
        }
    }
}

/// Midpoint of `lo..hi`, rounding toward negative infinity.
pub open spec fn mid_spec(lo: int, hi: int) -> int {
    (lo + hi) / 2
}

/// A position in virtual coordinates (origin at the window centre, y up).
#[derive(Clone, Copy, PartialEq, Eq, Structural, Debug)]
pub struct Point {
    pub x: i64,
    pub y: i64,
}

/// Component-wise saturating difference of two points.
pub open spec fn vec2_sub_spec(a: Point, b: Point) -> Point {
    Point { x: sat_sub_spec(a.x as int, b.x as int) as i64, y: sat_sub_spec(a.y as int, b.y as int) as i64 }
}

/// Subtract `b` from `a` component-wise, saturating at the `i64` bounds.
pub fn vec2_sub(a: Point, b: Point) -> (r: Point)
    ensures
        r == vec2_sub_spec(a, b),
{
    Point { x: sat_sub(a.x, b.x), y: sat_sub(a.y, b.y) }
}

/// An axis-aligned rectangle given by its left, right, bottom and top edges
/// in virtual coordinates.
#[derive(Clone, Copy, PartialEq, Eq, Structural, Debug)]
pub struct Rect {
    pub l: i64,
    pub r: i64,
    pub b: i64,
    pub t: i64,
}

impl Rect {
    /// Edges are ordered and bounded by [`COORD_MAX`].
    pub open spec fn wf(self) -> bool {
        &&& -COORD_MAX <= self.l <= self.r <= COORD_MAX
        &&& -COORD_MAX <= self.b <= self.t <= COORD_MAX
    }

    pub open spec fn width_spec(self) -> int {
        self.r - self.l
    }

    pub open spec fn height_spec(self) -> int {
        self.t - self.b
    }

    /// Centre of the rectangle, each axis rounded toward negative infinity.
    pub open spec fn center_spec(self) -> Point {
        Point { x: mid_spec(self.l as int, self.r as int) as i64, y: mid_spec(self.b as int, self.t as int) as i64 }
    }

    pub fn w(&self) -> (w: i64)
        requires
            self.wf(),
        ensures
            w as int == self.width_spec(),
    {
        self.r - self.l
    }

    pub fn h(&self) -> (h: i64)
        requires
            self.wf(),
        ensures
            h as int == self.height_spec(),
    {
        self.t - self.b
    }

    /// The centre of the rectangle.
    pub fn xy(&self) -> (c: Point)
        requires
            self.wf(),
        ensures
            c == self.center_spec(),
    {
        let x = match (self.l + self.r).checked_div_euclid(2) {
            Some(q) => q,
            None => 0,
        };
        let y = match (self.b + self.t).checked_div_euclid(2) {
            Some(q) => q,
            None => 0,
        };
        Point { x, y }
    }

    /// Is the point on or inside the rectangle's edges?
    pub open spec fn is_over_spec(self, p: Point) -> bool {
        self.l <= p.x <= self.r && self.b <= p.y <= self.t
    }

    pub fn is_over(&self, p: Point) -> (over: bool)
        ensures
            over == self.is_over_spec(p),
    {
        self.l <= p.x && p.x <= self.r && self.b <= p.y && p.y <= self.t
    }

    /// Intersection of two rectangles; edge-touching rectangles intersect in a
    /// zero-area rectangle.
    pub open spec fn overlap_spec(self, other: Rect) -> Option<Rect> {
        let l = if self.l > other.l { self.l } else { other.l };
        let r = if self.r < other.r { self.r } else { other.r };
        let b = if self.b > other.b { self.b } else { other.b };
        let t = if self.t < other.t { self.t } else { other.t };
        if l <= r && b <= t {
            Some(Rect { l, r, b, t })
        } else {
            None
        }
    }

    pub fn overlap(&self, other: Rect) -> (res: Option<Rect>)
        ensures
            res == self.overlap_spec(other),
    {
        let l = if self.l > other.l { self.l } else { other.l };
        let r = if self.r < other.r { self.r } else { other.r };
        let b = if self.b > other.b { self.b } else { other.b };
        let t = if self.t < other.t { self.t } else { other.t };
        if l <= r && b <= t {
            Some(Rect { l, r, b, t })
        } else {
            None
        }
    }

    /// Shrink every edge inward by `n`; an axis whose edges would cross
    /// collapses to its midpoint.
    pub open spec fn pad_spec(self, n: int) -> Rect {
        let (l, r) = if self.l + n <= self.r - n {
            (self.l + n, self.r - n)
        } else {
            (mid_spec(self.l as int, self.r as int), mid_spec(self.l as int, self.r as int))
        };
        let (b, t) = if self.b + n <= self.t - n {
            (self.b + n, self.t - n)
        } else {
            (mid_spec(self.b as int, self.t as int), mid_spec(self.b as int, self.t as int))
        };
        Rect { l: l as i64, r: r as i64, b: b as i64, t: t as i64 }
    }

    pub fn pad(&self, n: i64) -> (res: Rect)
        requires
            self.wf(),
            -COORD_MAX <= n <= COORD_MAX,
        ensures
            res == self.pad_spec(n as int),
            res.l <= res.r && res.b <= res.t,
    {
        let c = self.xy();
        let (l, r) = if self.l + n <= self.r - n {
            (self.l + n, self.r - n)
        } else {
            (c.x, c.x)
        };
        let (b, t) = if self.b + n <= self.t - n {
            (self.b + n, self.t - n)
        } else {
            (c.y, c.y)
        };
        Rect { l, r, b, t }
    }
}

/// Linear remapping of `v` from the range `in_min..in_max` onto
/// `out_min..out_max`, rounding toward negative infinity.
pub open spec fn map_range_spec(v: int, in_min: int, in_max: int, out_min: int, out_max: int) -> int {
    out_min + (v - in_min) * (out_max - out_min) / (in_max - in_min)
}

/// Executable linear range mapping matching [`map_range_spec`].
pub fn map_range(v: i64, in_min: i64, in_max: i64, out_min: i64, out_max: i64) -> (r: i64)
    requires
        in_min < in_max,
        -0x4000_0000 <= v <= 0x4000_0000,
        -0x4000_0000 <= in_min <= 0x4000_0000,
        -0x4000_0000 <= in_max <= 0x4000_0000,
        -0x4000_0000 <= out_min <= 0x4000_0000,
        -0x4000_0000 <= out_max <= 0x4000_0000,
    ensures
        r as int == map_range_spec(v as int, in_min as int, in_max as int, out_min as int, out_max as int),
{
    let a: i64 = v - in_min;
    let d: i64 = out_max - out_min;
    proof {
        assert((a as int) * (d as int) <= 0x4000_0000_0000_0000
            && (a as int) * (d as int) >= -0x4000_0000_0000_0000) by (nonlinear_arith)
            requires
                -0x8000_0000 <= a as int <= 0x8000_0000 && -0x8000_0000 <= d as int <= 0x8000_0000,
        ;
    }
    let num: i64 = a * d;
    let den: i64 = in_max - in_min;
    let q = match num.checked_div_euclid(den) {
        Some(q) => q,
        None => 0,
    };
    proof {
        lemma_div_bounds(num as int, den as int);
    }
    out_min + q
}

/// `v` clamped into `lo..=hi`.
pub open spec fn clamp_spec(v: int, lo: int, hi: int) -> int {
    if v < lo {
        lo
    } else if v > hi {
        hi
    } else {
        v
    }
}

/// Clamp `v` into the closed range `lo..=hi`.
pub fn clamp_value(v: i64, lo: i64, hi: i64) -> (r: i64)
    requires
        lo <= hi,
    ensures
        r as int == clamp_spec(v as int, lo as int, hi as int),
{
    if v < lo {
        lo
    } else if v > hi {
        hi
    } else {
        v
    }
}

/// Euclidean division by a positive divisor stays between the dividend's
/// magnitude bounds.
proof fn lemma_div_bounds(num: int, den: int)
    requires
        den >= 1,
    ensures
        num >= 0 ==> 0 <= num / den <= num,
        num < 0 ==> num <= num / den <= 0,
{
    if num >= 0 {
        assert(0 <= num / den <= num) by (nonlinear_arith)
            requires
                den >= 1 && num >= 0,
        ;
    } else {
        assert(num <= num / den <= 0) by (nonlinear_arith)
            requires
                den >= 1 && num < 0,
        ;
    }
}

} // verus!
