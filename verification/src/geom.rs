use vstd::prelude::*;

use geo::algorithm::line_intersection::{line_intersection, LineIntersection};
use geo::algorithm::Vector2DOps;

verus! {

/// A position or displacement on the 2D Cartesian plane, with
/// double-precision coordinates.
///
/// The coordinates are held in a `geo::Coord` and are opaque to the
/// verifier: declaring `geo::Coord` itself would need its `CoordNum`
/// scalar bound, which cannot be declared here, so the pair is hidden
/// behind this struct instead. The field is public, so callers outside
/// the library build and inspect points freely.
///
/// A scalar (an interpolation parameter, a stroke half-width) is carried
/// in the same type, with the value in both components; the functions
/// that consume a scalar read its `x` component.
#[verifier::external_body]
pub struct Point2D {
    pub c: geo::Coord,
}

impl Clone for Point2D {
    /// Relies on `geo::Coord` being a plain pair of scalars: the copy is
    /// the same point.
    #[verifier::external_body]
    fn clone(&self) -> (r: Self)
        ensures
            r == *self,
    {
        Point2D { c: self.c }
    }
}

impl Copy for Point2D {}

/// The error conditions of the library. All three are precondition
/// violations by the caller, reported before any geometry is emitted.
#[derive(Clone, Copy, Debug, PartialEq, Eq, Structural)]
pub enum GeometryError {
    /// Fewer than two samples were requested from a curve.
    InvalidSampleCount,
    /// Two consecutive polyline points coincide, so the segment between
    /// them has no direction.
    DegenerateSegment,
    /// A polyline of fewer than two points was handed to the tessellator.
    MalformedPolyline,
}

/// How two line segments meet: in a single point, in a collinear
/// overlap, or not at all. Only the single-point case carries a
/// location; the tessellator treats the other two alike.
pub enum Crossing {
    Single(Point2D),
    Collinear,
    Separate,
}

// Names for what the outside calls below return. Each call is a pure
// function of its arguments (plain IEEE-754 arithmetic), but its value
// cannot be written out here, where floating point has no place; the
// name lets every caller's contract say exactly which value it passes
// on. Each name is given its meaning solely by the `ensures` of the one
// wrapper that applies it.
pub uninterp spec fn scalar_of(n: u32) -> Point2D;

pub uninterp spec fn div_of(a: Point2D, b: Point2D) -> Point2D;

pub uninterp spec fn add_of(a: Point2D, b: Point2D) -> Point2D;

pub uninterp spec fn sub_of(a: Point2D, b: Point2D) -> Point2D;

pub uninterp spec fn scale_of(v: Point2D, s: Point2D) -> Point2D;

pub uninterp spec fn unit_of(v: Point2D) -> Option<Point2D>;

pub uninterp spec fn left_of(v: Point2D) -> Point2D;

pub uninterp spec fn right_of(v: Point2D) -> Point2D;

pub uninterp spec fn crossing_of(a0: Point2D, a1: Point2D, b0: Point2D, b1: Point2D) -> Crossing;

/// Relies on std's `From<u32> for f64`: both components of the result
/// hold `n`, exactly (every `u32` is exactly representable).
#[verifier::external_body]
pub(crate) fn scalar_from(n: u32) -> (r: Point2D)
    ensures
        r == scalar_of(n),
{
    let c: geo::Coord = geo::Coord { x: n.into(), y: n.into() };
    Point2D { c }
}

/// Relies on geo's `Div<T> for Coord`: divides both components of `a`
/// by the scalar carried in `b`.
#[verifier::external_body]
pub(crate) fn scalar_div(a: Point2D, b: Point2D) -> (r: Point2D)
    ensures
        r == div_of(a, b),
{
    Point2D { c: a.c / b.c.x }
}

/// Relies on geo's `Add for Coord`: componentwise vector addition.
#[verifier::external_body]
pub(crate) fn coord_add(a: Point2D, b: Point2D) -> (r: Point2D)
    ensures
        r == add_of(a, b),
{
    Point2D { c: a.c + b.c }
}

/// Relies on geo's `Sub for Coord`: componentwise vector subtraction.
#[verifier::external_body]
pub(crate) fn coord_sub(a: Point2D, b: Point2D) -> (r: Point2D)
    ensures
        r == sub_of(a, b),
{
    Point2D { c: a.c - b.c }
}

/// Relies on geo's `Mul<T> for Coord`: scales both components of `v` by
/// the scalar carried in `s`.
#[verifier::external_body]
pub(crate) fn coord_scale(v: Point2D, s: Point2D) -> (r: Point2D)
    ensures
        r == scale_of(v, s),
{
    Point2D { c: v.c * s.c.x }
}

/// Relies on geo's `Vector2DOps::try_normalize`: a vector of unit length
/// in the direction of `v`, or `None` when no finite one exists — in
/// particular for the zero vector, so a degenerate segment is reported
/// here rather than poisoning the geometry.
#[verifier::external_body]
pub(crate) fn try_unit(v: Point2D) -> (r: Option<Point2D>)
    ensures
        r == unit_of(v),
{
    match v.c.try_normalize() {
        Some(u) => Some(Point2D { c: u }),
        None => None,
    }
}

/// Relies on geo's `Vector2DOps::left`: `v` rotated a quarter turn to
/// `(-y, x)`, toward the left of a walker headed along `v`.
#[verifier::external_body]
pub(crate) fn left_perp(v: Point2D) -> (r: Point2D)
    ensures
        r == left_of(v),
{
    Point2D { c: v.c.left() }
}

/// Relies on geo's `Vector2DOps::right`: `v` rotated a quarter turn to
/// `(y, -x)`, toward the right of a walker headed along `v`.
#[verifier::external_body]
pub(crate) fn right_perp(v: Point2D) -> (r: Point2D)
    ensures
        r == right_of(v),
{
    Point2D { c: v.c.right() }
}

/// Relies on geo's `line_intersection`: how the segment from `a0` to
/// `a1` meets the segment from `b0` to `b1`. A meeting in exactly one
/// point comes back as `Single` with that point; a collinear overlap as
/// `Collinear`; disjoint segments as `Separate`.
#[verifier::external_body]
pub(crate) fn segment_crossing(a0: Point2D, a1: Point2D, b0: Point2D, b1: Point2D) -> (r:
    Crossing)
    ensures
        r == crossing_of(a0, a1, b0, b1),
{
    let a = geo::Line::new(a0.c, a1.c);
    let b = geo::Line::new(b0.c, b1.c);
    match line_intersection(a, b) {
        Some(LineIntersection::SinglePoint { intersection, .. }) => {
            Crossing::Single(Point2D { c: intersection })
        },
        Some(LineIntersection::Collinear { .. }) => Crossing::Collinear,
        None => Crossing::Separate,
    }
}

} // verus!
