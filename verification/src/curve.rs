pub mod renderer;

use vstd::prelude::*;

use crate::geom::{
    add_of, coord_add, coord_scale, coord_sub, div_of, scalar_div, scalar_from, scalar_of,
    scale_of, sub_of, GeometryError, Point2D,
};

verus! {

/// Linear interpolation from `start` to `end` at the scalar `t`:
/// `end * t + start * (1 - t)`, stated over the named results of the
/// arithmetic the executable code delegates outside.
pub open spec fn lerp_at(start: Point2D, end: Point2D, t: Point2D) -> Point2D {
    add_of(scale_of(end, t), scale_of(start, sub_of(scalar_of(1), t)))
}

/// A quadratic Bézier curve, given by its start, middle and end control
/// points.
pub struct Bezier {
    pub start: Point2D,
    pub middle: Point2D,
    pub end: Point2D,
}

impl Bezier {
    /// The curve at parameter `t`, by two-level linear interpolation
    /// (De Casteljau for degree two): start toward middle, middle toward
    /// end, then the two results toward each other, each at `t`.
    pub open spec fn eval_at(self, t: Point2D) -> Point2D {
        lerp_at(lerp_at(self.start, self.middle, t), lerp_at(self.middle, self.end, t), t)
    }

    /// The parameter of sample `i` of `count`: `i / (count - 1)`.
    pub open spec fn param_at(i: int, count: int) -> Point2D {
        div_of(scalar_of(i as u32), scalar_of((count - 1) as u32))
    }

    pub fn new(start: Point2D, middle: Point2D, end: Point2D) -> (r: Self)
        ensures
            r.start == start,
            r.middle == middle,
            r.end == end,
    {
        Self { start, middle, end }
    }

    /// Samples the curve at `count` evenly spaced parameters in `[0, 1]`,
    /// both ends included, in order of rising parameter. The first sample
    /// is the start control point and the last is the end control point,
    /// exactly; each interior sample `i` is the curve at `i / (count - 1)`;
    /// so two samples are exactly the two endpoints, with no interior
    /// sample. Fewer than two samples cannot be spaced this way, and are
    /// refused.
    pub fn subdivide(&self, count: usize) -> (r: Result<PolyLine, GeometryError>)
        requires
            count <= u32::MAX,
        ensures
            count < 2 <==> (r matches Err(e) && e == GeometryError::InvalidSampleCount),
            count >= 2 ==> (r matches Ok(line) && line.points@.len() == count
                && line.points@[0] == self.start
                && line.points@[count - 1] == self.end
                && (forall|k: int| 1 <= k < count - 1 ==> #[trigger] line.points@[k]
                    == self.eval_at(Bezier::param_at(k, count as int)))),
            count == 2 ==> (r matches Ok(line)
                && line.points@ == seq![self.start, self.end]),
    {
        if count < 2 {
            return Err(GeometryError::InvalidSampleCount);
        }
        let mut points: Vec<Point2D> = Vec::new();
        points.push(self.start);
        let den = scalar_from((count - 1) as u32);
        let mut i: usize = 1;
        while i < count - 1
            invariant
                2 <= count <= u32::MAX,
                1 <= i <= count - 1,
                points@.len() == i,
                points@[0] == self.start,
                den == scalar_of((count - 1) as u32),
                forall|k: int| 1 <= k < i ==> #[trigger] points@[k]
                    == self.eval_at(Bezier::param_at(k, count as int)),
            decreases count - 1 - i,
        {
            let t = scalar_div(scalar_from(i as u32), den);
            points.push(self.eval(t));
            i += 1;
        }
        points.push(self.end);
        proof {
            if count == 2 {
                assert(points@ =~= seq![self.start, self.end]);
            }
        }
        Ok(PolyLine { points })
    }

    fn eval(&self, t: Point2D) -> (r: Point2D)
        ensures
            r == self.eval_at(t),
    {
        let a = Self::lerp(self.start, self.middle, t);
        let b = Self::lerp(self.middle, self.end, t);
        Self::lerp(a, b, t)
    }

    fn lerp(start: Point2D, end: Point2D, t: Point2D) -> (r: Point2D)
        ensures
            r == lerp_at(start, end, t),
    {
        let one_minus_t = coord_sub(scalar_from(1), t);
        coord_add(coord_scale(end, t), coord_scale(start, one_minus_t))
    }
}

/// An ordered sequence of points approximating a path. A stroke
/// operation needs at least two of them.
pub struct PolyLine {
    pub points: Vec<Point2D>,
}

impl PolyLine {
    /// The empty polyline.
    pub fn new() -> (r: Self)
        ensures
            r.points@ == Seq::<Point2D>::empty(),
    {
        Self { points: Vec::new() }
    }
}

} // verus!
