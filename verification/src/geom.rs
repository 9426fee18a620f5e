//! Geometry for the view: integer viewport points, the pan/zoom transform,
//! and exact rational content-space points produced by inverting it.
//!
//! All coordinates are integer layout units. The transform scales uniformly
//! by `scale` and translates by `(tx, ty)`; inverting it divides by `scale`,
//! so a content-space point is kept as an exact fraction with denominator
//! `scale` rather than a rounded integer. Mapping such a point forward again
//! therefore returns the original viewport point exactly.

use vstd::prelude::*;

verus! {

/// Largest magnitude a coordinate (point component, translation, frame or
/// line bound) may have. Keeping coordinates within this bound lets every
/// product with a scale factor fit comfortably in an `i64`.
pub const COORD_LIMIT: i64 = 0x4000_0000;

/// Largest value the zoom scale may have.
pub const SCALE_LIMIT: i64 = 0x4000_0000;

/// A point in viewport space, in integer layout units.
#[derive(Clone, Copy, PartialEq, Eq, Structural, Debug)]
pub struct Point {
    pub x: i64,
    pub y: i64,
}

/// A point in content (layout) space: the exact fraction
/// `(x_num / den, y_num / den)`. Produced by inverting the view transform,
/// whose zoom scale becomes the denominator.
#[derive(Clone, Copy, PartialEq, Eq, Structural, Debug)]
pub struct ContentPoint {
    pub x_num: i64,
    pub y_num: i64,
    pub den: i64,
}

/// An axis-aligned rectangle in content space.
#[derive(Clone, Copy, PartialEq, Eq, Structural, Debug)]
pub struct Rect {
    pub x: i64,
    pub y: i64,
    pub width: i64,
    pub height: i64,
}

/// The view's pan/zoom transform: uniform zoom by `scale`, then translation
/// by `(tx, ty)`. No rotation or skew.
#[derive(Clone, Copy, PartialEq, Eq, Structural, Debug)]
pub struct Transform {
    pub scale: i64,
    pub tx: i64,
    pub ty: i64,
}

impl Point {
    pub open spec fn wf(self) -> bool {
        &&& -COORD_LIMIT <= self.x <= COORD_LIMIT
        &&& -COORD_LIMIT <= self.y <= COORD_LIMIT
    }
}

impl ContentPoint {
    pub open spec fn wf(self) -> bool {
        &&& 0 < self.den <= SCALE_LIMIT
        &&& -2 * COORD_LIMIT <= self.x_num <= 2 * COORD_LIMIT
        &&& -2 * COORD_LIMIT <= self.y_num <= 2 * COORD_LIMIT
    }

    /// Whether the x-coordinate lies in the half-open interval `[lo, hi)`,
    /// compared exactly as a fraction.
    pub open spec fn x_in(self, lo: int, hi: int) -> bool {
        lo * self.den <= self.x_num < hi * self.den
    }

    /// Whether the y-coordinate lies in the half-open interval `[lo, hi)`,
    /// compared exactly as a fraction.
    pub open spec fn y_in(self, lo: int, hi: int) -> bool {
        lo * self.den <= self.y_num < hi * self.den
    }

    /// Exact test of `lo <= x < hi` on the fractional x-coordinate.
    pub fn in_x(&self, lo: i64, hi: i64) -> (r: bool)
        requires
            self.wf(),
            -2 * COORD_LIMIT <= lo <= 2 * COORD_LIMIT,
            -2 * COORD_LIMIT <= hi <= 2 * COORD_LIMIT,
        ensures
            r == self.x_in(lo as int, hi as int),
    {
        proof {
            lemma_scaled_bound_in_range(lo as int, self.den as int);
            lemma_scaled_bound_in_range(hi as int, self.den as int);
        }
        lo * self.den <= self.x_num && self.x_num < hi * self.den
    }

    /// Exact test of `lo <= y < hi` on the fractional y-coordinate.
    pub fn in_y(&self, lo: i64, hi: i64) -> (r: bool)
        requires
            self.wf(),
            -2 * COORD_LIMIT <= lo <= 2 * COORD_LIMIT,
            -2 * COORD_LIMIT <= hi <= 2 * COORD_LIMIT,
        ensures
            r == self.y_in(lo as int, hi as int),
    {
        proof {
            lemma_scaled_bound_in_range(lo as int, self.den as int);
            lemma_scaled_bound_in_range(hi as int, self.den as int);
        }
        lo * self.den <= self.y_num && self.y_num < hi * self.den
    }
}

/// A coordinate bound scaled by a denominator stays well inside `i64`.
proof fn lemma_scaled_bound_in_range(b: int, den: int)
    requires
        -2 * COORD_LIMIT <= b <= 2 * COORD_LIMIT,
        0 < den <= SCALE_LIMIT,
    ensures
        -0x2000_0000_0000_0000 <= b * den <= 0x2000_0000_0000_0000,
{
    assert(-0x2000_0000_0000_0000 <= b * den <= 0x2000_0000_0000_0000) by (nonlinear_arith)
        requires
            -0x8000_0000 <= b <= 0x8000_0000,
            0 < den <= 0x4000_0000,
    ;
}

impl Transform {
    pub open spec fn wf(self) -> bool {
        &&& 0 <= self.scale <= SCALE_LIMIT
        &&& -COORD_LIMIT <= self.tx <= COORD_LIMIT
        &&& -COORD_LIMIT <= self.ty <= COORD_LIMIT
    }

    /// The identity transform: zoom one, no pan.
    pub fn identity() -> (r: Transform)
        ensures
            r == (Transform { scale: 1, tx: 0, ty: 0 }),
            r.wf(),
    {
        Transform { scale: 1, tx: 0, ty: 0 }
    }

    /// A transform is singular exactly when its zoom scale is zero; no
    /// content is addressable through it.
    pub open spec fn is_singular(self) -> bool {
        self.scale == 0
    }

    pub open spec fn spec_inverse_transform_point(self, p: Point) -> Option<ContentPoint> {
        if self.scale == 0 {
            None
        } else {
            Some(
                ContentPoint {
                    x_num: (p.x - self.tx) as i64,
                    y_num: (p.y - self.ty) as i64,
                    den: self.scale,
                },
            )
        }
    }

    /// Map a viewport point into content space by applying the inverse of
    /// the transform. Fails exactly when the transform is singular.
    pub fn inverse_transform_point(&self, p: &Point) -> (r: Option<ContentPoint>)
        requires
            self.wf(),
            p.wf(),
        ensures
            r == self.spec_inverse_transform_point(*p),
            r is Some <==> !self.is_singular(),
            r matches Some(c) ==> c.wf(),
    {
        if self.scale == 0 {
            None
        } else {
            Some(ContentPoint { x_num: p.x - self.tx, y_num: p.y - self.ty, den: self.scale })
        }
    }

    pub open spec fn spec_transform_point(self, c: ContentPoint) -> Option<Point> {
        let nx = c.x_num * self.scale;
        let ny = c.y_num * self.scale;
        if c.den != 0 && nx % (c.den as int) == 0 && ny % (c.den as int) == 0 {
            Some(Point { x: (nx / (c.den as int) + self.tx) as i64, y: (ny / (c.den as int) + self.ty) as i64 })
        } else {
            None
        }
    }

    /// Map a content-space point forward into viewport space: scale, then
    /// translate. Defined when the scaled fraction is a whole number of
    /// layout units, as it always is for points the inverse map produced.
    pub fn transform_point(&self, c: &ContentPoint) -> (r: Option<Point>)
        requires
            self.wf(),
            c.wf(),
        ensures
            r == self.spec_transform_point(*c),
    {
        proof {
            assert(-0x2000_0000_0000_0000 <= c.x_num * self.scale <= 0x2000_0000_0000_0000)
                by (nonlinear_arith)
                requires
                    -0x8000_0000 <= c.x_num <= 0x8000_0000,
                    0 <= self.scale <= 0x4000_0000,
            ;
            assert(-0x2000_0000_0000_0000 <= c.y_num * self.scale <= 0x2000_0000_0000_0000)
                by (nonlinear_arith)
                requires
                    -0x8000_0000 <= c.y_num <= 0x8000_0000,
                    0 <= self.scale <= 0x4000_0000,
            ;
        }
        let nx: i64 = c.x_num * self.scale;
        let ny: i64 = c.y_num * self.scale;
        let rx = nx.checked_rem_euclid(c.den).unwrap();
        let ry = ny.checked_rem_euclid(c.den).unwrap();
        if rx == 0 && ry == 0 {
            proof {
                lemma_exact_div_bounded(nx as int, c.den as int, 0x2000_0000_0000_0000);
                lemma_exact_div_bounded(ny as int, c.den as int, 0x2000_0000_0000_0000);
            }
            let qx = nx.checked_div_euclid(c.den).unwrap();
            let qy = ny.checked_div_euclid(c.den).unwrap();
            Some(Point { x: qx + self.tx, y: qy + self.ty })
        } else {
            None
        }
    }
}

/// An exact quotient is no larger in magnitude than what it divides:
/// for a positive divisor `d` and `|n| <= bound`, `|n / d| <= bound`.
proof fn lemma_exact_div_bounded(n: int, d: int, bound: int)
    requires
        d >= 1,
        -bound <= n <= bound,
        n % d == 0,
    ensures
        -bound <= n / d <= bound,
{
    vstd::arithmetic::div_mod::lemma_fundamental_div_mod(n, d);
    let q = n / d;
    assert(-bound <= q <= bound) by (nonlinear_arith)
        requires
            d >= 1,
            -bound <= n <= bound,
            d * q == n,
    ;
}

/// Round trip: inverting a non-singular transform and mapping the result
/// forward returns the original viewport point exactly; a singular transform
/// inverts to nothing.
pub proof fn lemma_transform_round_trip(t: Transform, p: Point)
    requires
        t.wf(),
        p.wf(),
    ensures
        t.is_singular() ==> t.spec_inverse_transform_point(p) is None,
        !t.is_singular() ==> {
            &&& t.spec_inverse_transform_point(p) matches Some(c)
            &&& t.spec_transform_point(t.spec_inverse_transform_point(p)->Some_0) == Some(p)
        },
{
    if !t.is_singular() {
        let c = t.spec_inverse_transform_point(p)->Some_0;
        let nx = c.x_num * t.scale;
        let ny = c.y_num * t.scale;
        assert(nx % (c.den as int) == 0 && nx / (c.den as int) == c.x_num) by (nonlinear_arith)
            requires
                nx == c.x_num * t.scale,
                c.den == t.scale,
                t.scale != 0,
        ;
        assert(ny % (c.den as int) == 0 && ny / (c.den as int) == c.y_num) by (nonlinear_arith)
            requires
                ny == c.y_num * t.scale,
                c.den == t.scale,
                t.scale != 0,
        ;
    }
}

} // verus!
