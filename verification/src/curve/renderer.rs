use vstd::prelude::*;

use crate::geom::{
    add_of, coord_add, coord_scale, coord_sub, crossing_of, left_of, left_perp, right_of,
    right_perp, scale_of, segment_crossing, sub_of, try_unit, unit_of, Crossing, GeometryError,
    Point2D,
};
use crate::mesh::RenderData;
use crate::curve::PolyLine;

verus! {

/// The joint decisions of a polyline, one entry per interior point: the
/// snapped corner and the side it lies on, or `None` where the joint is
/// left as a plain seam.
type Connections = Vec<Option<(Point2D, bool)>>;

/// Both offset points of `point` for a segment running along
/// `direction`: first the one on the right of the direction of travel,
/// then the one on the left.
pub open spec fn offset_pair_of(point: Point2D, direction: Point2D) -> (Point2D, Point2D) {
    (add_of(point, right_of(direction)), add_of(point, left_of(direction)))
}

/// The two offset points of segment `i` at its start, `points[i]`,
/// displaced by the half-width perpendicular to the segment's direction.
pub open spec fn start_points_at(
    points: Seq<Point2D>,
    dirs: Seq<Point2D>,
    i: int,
    width: Point2D,
) -> (Point2D, Point2D) {
    offset_pair_of(points[i], scale_of(dirs[i], width))
}

/// The two offset points of segment `i - 1` at its end, `points[i]`,
/// displaced by the half-width perpendicular to that segment's
/// direction.
pub open spec fn end_points_at(
    points: Seq<Point2D>,
    dirs: Seq<Point2D>,
    i: int,
    width: Point2D,
) -> (Point2D, Point2D) {
    offset_pair_of(points[i], scale_of(dirs[i - 1], width))
}

/// The miter decision at interior point `i`: the offset boundary of the
/// segment ending there, crossed with the offset boundary of the
/// segment starting there, on each side independently. When exactly one
/// side meets in a single point, the decision is that point and that
/// side (`false` for the right-hand side, `true` for the left-hand
/// one), a collinear overlap counting as no crossing. Otherwise — both
/// sides crossing, or neither — there is no decision.
pub open spec fn connection_at(
    points: Seq<Point2D>,
    dirs: Seq<Point2D>,
    i: int,
    width: Point2D,
) -> Option<(Point2D, bool)> {
    let sp = start_points_at(points, dirs, i - 1, width);
    let ep = end_points_at(points, dirs, i, width);
    let nsp = start_points_at(points, dirs, i, width);
    let nep = end_points_at(points, dirs, i + 1, width);
    match (crossing_of(sp.0, ep.0, nsp.0, nep.0), crossing_of(sp.1, ep.1, nsp.1, nep.1)) {
        (Crossing::Single(p), Crossing::Separate) => Some((p, false)),
        (Crossing::Single(p), Crossing::Collinear) => Some((p, false)),
        (Crossing::Separate, Crossing::Single(p)) => Some((p, true)),
        (Crossing::Collinear, Crossing::Single(p)) => Some((p, true)),
        _ => None,
    }
}

/// The start points of the segment beginning at `points[i]`, with the
/// snapped corner of the joint there in place of the raw offset point
/// on the decided side; the other side, the first point of the path,
/// and a joint without a decision keep the raw offset points.
pub open spec fn adjusted_start_at(
    points: Seq<Point2D>,
    dirs: Seq<Point2D>,
    conns: Seq<Option<(Point2D, bool)>>,
    i: int,
    width: Point2D,
) -> (Point2D, Point2D) {
    let sp = start_points_at(points, dirs, i, width);
    if i == 0 {
        sp
    } else {
        match conns[i - 1] {
            Some(c) => if c.1 {
                (sp.0, c.0)
            } else {
                (c.0, sp.1)
            },
            None => sp,
        }
    }
}

/// The end points of the segment ending at `points[i]`, adjusted the
/// same way; the last point of the path has no joint and keeps both raw
/// offset points.
pub open spec fn adjusted_end_at(
    points: Seq<Point2D>,
    dirs: Seq<Point2D>,
    conns: Seq<Option<(Point2D, bool)>>,
    i: int,
    width: Point2D,
) -> (Point2D, Point2D) {
    let ep = end_points_at(points, dirs, i, width);
    if i == dirs.len() {
        ep
    } else {
        match conns[i - 1] {
            Some(c) => if c.1 {
                (ep.0, c.0)
            } else {
                (c.0, ep.1)
            },
            None => ep,
        }
    }
}

/// The four quad corners of segment `i`: its adjusted start pair, then
/// its adjusted end pair.
pub open spec fn segment_quad_at(
    points: Seq<Point2D>,
    dirs: Seq<Point2D>,
    conns: Seq<Option<(Point2D, bool)>>,
    i: int,
    width: Point2D,
) -> Seq<Point2D> {
    let a = adjusted_start_at(points, dirs, conns, i - 1, width);
    let b = adjusted_end_at(points, dirs, conns, i, width);
    seq![a.0, a.1, b.0, b.1]
}

/// The fill-triangle corners of the joint at interior point `i`: with a
/// decision `(p, side)`, the raw end point on the side opposite the
/// snap, the snapped corner `p`, and the raw start point on that
/// opposite side; without a decision, nothing.
pub open spec fn joint_fill_at(
    points: Seq<Point2D>,
    dirs: Seq<Point2D>,
    conns: Seq<Option<(Point2D, bool)>>,
    i: int,
    width: Point2D,
) -> Seq<Point2D> {
    match conns[i - 1] {
        Some(c) => {
            let ep = end_points_at(points, dirs, i, width);
            let sp = start_points_at(points, dirs, i, width);
            if c.1 {
                seq![ep.0, c.0, sp.0]
            } else {
                seq![ep.1, c.0, sp.1]
            }
        },
        None => Seq::empty(),
    }
}

/// Some segment of the polyline has no finite unit direction — in
/// particular, two consecutive points coincide.
pub open spec fn has_degenerate_segment(points: Seq<Point2D>) -> bool {
    exists|k: int|
        0 <= k < points.len() - 1 && (#[trigger] unit_of(
            sub_of(points[k + 1], points[k]),
        )) is None
}

/// The unit direction of each segment of the polyline.
pub open spec fn directions_of(points: Seq<Point2D>) -> Seq<Point2D> {
    Seq::new((points.len() - 1) as nat, |k: int| unit_of(sub_of(points[k + 1], points[k])).unwrap())
}

/// The joint decision at every interior point of the polyline.
pub open spec fn connections_of(points: Seq<Point2D>, width: Point2D) -> Seq<
    Option<(Point2D, bool)>,
> {
    Seq::new(
        (points.len() - 2) as nat,
        |j: int| connection_at(points, directions_of(points), j + 1, width),
    )
}

/// How many joints carry a snap decision.
pub open spec fn snap_count(conns: Seq<Option<(Point2D, bool)>>) -> int
    decreases conns.len(),
{
    if conns.len() == 0 {
        0
    } else {
        snap_count(conns.drop_last()) + if conns.last() is Some {
            1int
        } else {
            0
        }
    }
}

/// The quad corners of segments `1` through `i`, in order.
pub open spec fn quad_vertices_upto(
    points: Seq<Point2D>,
    dirs: Seq<Point2D>,
    conns: Seq<Option<(Point2D, bool)>>,
    width: Point2D,
    i: int,
) -> Seq<Point2D>
    decreases i,
{
    if i <= 0 {
        Seq::empty()
    } else {
        quad_vertices_upto(points, dirs, conns, width, i - 1) + segment_quad_at(
            points,
            dirs,
            conns,
            i,
            width,
        )
    }
}

/// The fill-triangle corners of joints `1` through `j`, in order.
pub open spec fn fill_vertices_upto(
    points: Seq<Point2D>,
    dirs: Seq<Point2D>,
    conns: Seq<Option<(Point2D, bool)>>,
    width: Point2D,
    j: int,
) -> Seq<Point2D>
    decreases j,
{
    if j <= 0 {
        Seq::empty()
    } else {
        fill_vertices_upto(points, dirs, conns, width, j - 1) + joint_fill_at(
            points,
            dirs,
            conns,
            j,
            width,
        )
    }
}

/// The full vertex list of the stroked polyline: the quads of all
/// segments in ascending order, then the fill triangles of all snapped
/// joints in ascending order.
pub open spec fn stroke_vertices_of(points: Seq<Point2D>, width: Point2D) -> Seq<Point2D> {
    let dirs = directions_of(points);
    let conns = connections_of(points, width);
    quad_vertices_upto(points, dirs, conns, width, points.len() - 1) + fill_vertices_upto(
        points,
        dirs,
        conns,
        width,
        points.len() - 2,
    )
}

proof fn lemma_snap_count_push(s: Seq<Option<(Point2D, bool)>>, x: Option<(Point2D, bool)>)
    ensures
        snap_count(s.push(x)) == snap_count(s) + if x is Some {
            1int
        } else {
            0
        },
{
    assert(s.push(x).drop_last() =~= s);
}

proof fn lemma_snap_count_bounds(s: Seq<Option<(Point2D, bool)>>)
    ensures
        0 <= snap_count(s) <= s.len(),
    decreases s.len(),
{
    if s.len() > 0 {
        lemma_snap_count_bounds(s.drop_last());
    }
}

/// At a joint with a snap decision `(p, side)`, the quad of the segment
/// before the joint, the quad of the segment after it and the fill
/// triangle between them all carry the one snapped corner `p` on the
/// decided side, and the side opposite the snap keeps its raw offset
/// end and start points: the mesh closes the joint without a gap or an
/// overlap there.
pub proof fn lemma_joint_shared_corner(
    points: Seq<Point2D>,
    dirs: Seq<Point2D>,
    conns: Seq<Option<(Point2D, bool)>>,
    i: int,
    width: Point2D,
)
    requires
        dirs.len() + 1 == points.len(),
        conns.len() + 2 == points.len(),
        1 <= i < dirs.len(),
        conns[i - 1] is Some,
    ensures
        ({
            let c = conns[i - 1].unwrap();
            let before = segment_quad_at(points, dirs, conns, i, width);
            let after = segment_quad_at(points, dirs, conns, i + 1, width);
            let fill = joint_fill_at(points, dirs, conns, i, width);
            let ep = end_points_at(points, dirs, i, width);
            let sp = start_points_at(points, dirs, i, width);
            &&& before[if c.1 { 3int } else { 2 }] == c.0
            &&& after[if c.1 { 1int } else { 0 }] == c.0
            &&& fill[1] == c.0
            &&& before[if c.1 { 2int } else { 3 }] == (if c.1 { ep.0 } else { ep.1 })
            &&& after[if c.1 { 0int } else { 1 }] == (if c.1 { sp.0 } else { sp.1 })
            &&& fill == (if c.1 { seq![ep.0, c.0, sp.0] } else { seq![ep.1, c.0, sp.1] })
        }),
{
}

/// The stroke tessellator: turns a polyline and a half-width into one
/// triangle mesh, a constant-width ribbon with mitered interior joints.
/// It keeps no state; the struct only names the algorithm.
pub struct ConnectionRenderer {}

impl ConnectionRenderer {
    pub fn new() -> ConnectionRenderer {
        ConnectionRenderer {}
    }

    /// Strokes `line` with the half-width carried in `width`.
    ///
    /// A polyline of fewer than two points is refused as malformed.
    /// Otherwise the call fails, with the degenerate-segment error, for
    /// exactly the polylines with a segment of no finite unit direction
    /// — in particular, two coinciding consecutive points — and
    /// succeeds on every other input.
    ///
    /// The mesh of a success is pinned exactly: its vertices are the
    /// per-segment quads followed by the per-joint fill triangles, so it
    /// holds `4 * (n - 1)` quad corners plus three corners for each of
    /// the `F` snapped joints, with two more indices than vertices per
    /// segment. Every index addresses a vertex of the mesh, and the
    /// indices come in whole triangles.
    pub fn render(&self, line: &PolyLine, width: Point2D) -> (r: Result<
        RenderData,
        GeometryError,
    >)
        requires
            line.points@.len() <= 0x1000_0000,
        ensures
            line.points@.len() < 2 <==> (r matches Err(e)
                && e == GeometryError::MalformedPolyline),
            r matches Err(e) ==> (e == GeometryError::MalformedPolyline || e
                == GeometryError::DegenerateSegment),
            line.points@.len() >= 2 ==> ((r matches Err(e)) <==> has_degenerate_segment(
                line.points@,
            )),
            r matches Ok(m) ==> ({
                let pts = line.points@;
                let n = pts.len() as int;
                let f = snap_count(connections_of(pts, width));
                &&& n >= 2
                &&& m.wf()
                &&& m.vertices@ == stroke_vertices_of(pts, width)
                &&& m.vertices@.len() == 4 * (n - 1) + 3 * f
                &&& m.indices@.len() == 6 * (n - 1) + 3 * f
            }),
    {
        let n = line.points.len();
        if n < 2 {
            return Err(GeometryError::MalformedPolyline);
        }
        let dirs = match unit_directions(&line.points) {
            Ok(d) => d,
            Err(e) => {
                return Err(e);
            },
        };
        proof {
            assert forall|k: int| 0 <= k < dirs@.len() implies directions_of(line.points@)[k]
                == dirs@[k] by {
                assert(unit_of(sub_of(line.points@[k + 1], line.points@[k])) == Some(dirs@[k]));
            }
            assert(dirs@ =~= directions_of(line.points@));
        }
        let conns = gather_connections(&line.points, &dirs, width);
        proof {
            assert(conns@ =~= connections_of(line.points@, width));
        }
        let mut result = RenderData::new();
        let mut i: usize = 1;
        while i <= dirs.len()
            invariant
                dirs@.len() + 1 == line.points@.len(),
                conns@.len() + 2 == line.points@.len(),
                2 <= line.points@.len() <= 0x1000_0000,
                1 <= i <= dirs@.len() + 1,
                result.wf(),
                result.vertices@ == quad_vertices_upto(line.points@, dirs@, conns@, width, i - 1),
                result.vertices@.len() == 4 * (i - 1),
                result.indices@.len() == 6 * (i - 1),
            decreases dirs@.len() + 1 - i,
        {
            let frag = get_segment_render_data(&line.points, &dirs, &conns, i, width);
            result = result.merge(frag);
            proof {
                assert(quad_vertices_upto(line.points@, dirs@, conns@, width, i as int)
                    == quad_vertices_upto(line.points@, dirs@, conns@, width, i - 1)
                    + segment_quad_at(line.points@, dirs@, conns@, i as int, width));
            }
            i += 1;
        }
        let mut j: usize = 1;
        while j < dirs.len()
            invariant
                dirs@.len() + 1 == line.points@.len(),
                conns@.len() + 2 == line.points@.len(),
                2 <= line.points@.len() <= 0x1000_0000,
                1 <= j <= dirs@.len(),
                result.wf(),
                result.vertices@ == quad_vertices_upto(
                    line.points@,
                    dirs@,
                    conns@,
                    width,
                    dirs@.len() as int,
                ) + fill_vertices_upto(line.points@, dirs@, conns@, width, j - 1),
                result.vertices@.len() == 4 * dirs@.len() + 3 * snap_count(conns@.take(j - 1)),
                result.indices@.len() == result.vertices@.len() + 2 * dirs@.len(),
            decreases dirs@.len() - j,
        {
            proof {
                lemma_snap_count_bounds(conns@.take(j - 1));
            }
            let frag = get_connection_render_data(&line.points, &dirs, &conns, j, width);
            result = result.merge(frag);
            proof {
                assert(conns@.take(j as int) =~= conns@.take(j - 1).push(conns@[j - 1]));
                lemma_snap_count_push(conns@.take(j - 1), conns@[j - 1]);
                assert(fill_vertices_upto(line.points@, dirs@, conns@, width, j as int)
                    == fill_vertices_upto(line.points@, dirs@, conns@, width, j - 1)
                    + joint_fill_at(line.points@, dirs@, conns@, j as int, width));
            }
            j += 1;
        }
        proof {
            assert(conns@.take(conns@.len() as int) =~= conns@);
            lemma_snap_count_bounds(conns@);
        }
        Ok(result)
    }
}

/// The unit direction of each segment: entry `i` points from `points[i]`
/// toward `points[i + 1]`. A segment with no finite unit direction — in
/// particular one whose endpoints coincide — is reported as degenerate;
/// otherwise every direction is the named unit vector of its segment's
/// difference.
fn unit_directions(points: &Vec<Point2D>) -> (r: Result<Vec<Point2D>, GeometryError>)
    requires
        points@.len() >= 2,
    ensures
        r matches Ok(d) ==> d@.len() + 1 == points@.len() && !has_degenerate_segment(points@)
            && (forall|k: int|
            0 <= k < d@.len() ==> (#[trigger] unit_of(sub_of(points@[k + 1], points@[k])))
                == Some(d@[k])),
        r matches Err(e) ==> e == GeometryError::DegenerateSegment && has_degenerate_segment(
            points@,
        ),
{
    let mut dirs: Vec<Point2D> = Vec::new();
    let n = points.len();
    let mut i: usize = 0;
    while i < n - 1
        invariant
            n == points@.len(),
            points@.len() >= 2,
            i + 1 <= points@.len(),
            dirs@.len() == i,
            forall|k: int|
                0 <= k < i ==> (#[trigger] unit_of(sub_of(points@[k + 1], points@[k]))) == Some(
                    dirs@[k],
                ),
        decreases points@.len() - i,
    {
        let d = coord_sub(points[i + 1], points[i]);
        match try_unit(d) {
            Some(u) => dirs.push(u),
            None => {
                return Err(GeometryError::DegenerateSegment);
            },
        }
        i += 1;
    }
    proof {
        assert(!has_degenerate_segment(points@)) by {
            assert forall|k: int| 0 <= k < points@.len() - 1 implies !((#[trigger] unit_of(
                sub_of(points@[k + 1], points@[k]),
            )) is None) by {
                assert(unit_of(sub_of(points@[k + 1], points@[k])) == Some(dirs@[k]));
            }
        }
    }
    Ok(dirs)
}

/// The joint decision of every interior point, each computed once:
/// entry `j - 1` holds the decision at interior point `j`.
fn gather_connections(points: &Vec<Point2D>, dirs: &Vec<Point2D>, width: Point2D) -> (r:
    Connections)
    requires
        dirs@.len() + 1 == points@.len(),
        points@.len() >= 2,
    ensures
        r@.len() + 2 == points@.len(),
        forall|j: int| 0 <= j < r@.len() ==> #[trigger] r@[j] == connection_at(
            points@,
            dirs@,
            j + 1,
            width,
        ),
{
    let mut conns: Connections = Vec::new();
    let dlen = dirs.len();
    let mut k: usize = 0;
    while k < dlen - 1
        invariant
            dlen == dirs@.len(),
            dirs@.len() + 1 == points@.len(),
            points@.len() >= 2,
            k + 1 <= dirs@.len(),
            conns@.len() == k,
            forall|j: int| 0 <= j < k ==> #[trigger] conns@[j] == connection_at(
                points@,
                dirs@,
                j + 1,
                width,
            ),
        decreases dirs@.len() - k,
    {
        conns.push(get_connection(points, dirs, k + 1, width));
        k += 1;
    }
    conns
}

/// Both offset points of `point` for a segment running along
/// `direction`: first the one on the right of the direction of travel,
/// then the one on the left.
fn offset_by_direction(point: Point2D, direction: Point2D) -> (r: (Point2D, Point2D))
    ensures
        r == offset_pair_of(point, direction),
{
    (coord_add(point, right_perp(direction)), coord_add(point, left_perp(direction)))
}

/// The two offset points of segment `i` at its start, `points[i]`,
/// displaced by the half-width perpendicular to the segment's direction.
fn get_start_points(points: &Vec<Point2D>, dirs: &Vec<Point2D>, i: usize, width: Point2D) -> (r: (
    Point2D,
    Point2D,
))
    requires
        dirs@.len() + 1 == points@.len(),
        i < dirs@.len(),
    ensures
        r == start_points_at(points@, dirs@, i as int, width),
{
    offset_by_direction(points[i], coord_scale(dirs[i], width))
}

/// The two offset points of segment `i - 1` at its end, `points[i]`,
/// displaced by the half-width perpendicular to that segment's
/// direction.
fn get_end_points(points: &Vec<Point2D>, dirs: &Vec<Point2D>, i: usize, width: Point2D) -> (r: (
    Point2D,
    Point2D,
))
    requires
        dirs@.len() + 1 == points@.len(),
        1 <= i <= dirs@.len(),
    ensures
        r == end_points_at(points@, dirs@, i as int, width),
{
    offset_by_direction(points[i], coord_scale(dirs[i - 1], width))
}

/// The miter decision at interior point `i`, exactly as
/// [`connection_at`] states it.
fn get_connection(points: &Vec<Point2D>, dirs: &Vec<Point2D>, i: usize, width: Point2D) -> (r:
    Option<(Point2D, bool)>)
    requires
        dirs@.len() + 1 == points@.len(),
        1 <= i < dirs@.len(),
    ensures
        r == connection_at(points@, dirs@, i as int, width),
{
    // `i + 1` stays in bounds because `i` is below the segment count,
    // which this call pins to `usize`.
    let _segment_count = dirs.len();
    let sp = get_start_points(points, dirs, i - 1, width);
    let ep = get_end_points(points, dirs, i, width);
    let nsp = get_start_points(points, dirs, i, width);
    let nep = get_end_points(points, dirs, i + 1, width);
    let c0 = segment_crossing(sp.0, ep.0, nsp.0, nep.0);
    let c1 = segment_crossing(sp.1, ep.1, nsp.1, nep.1);
    match (c0, c1) {
        (Crossing::Single(p), Crossing::Separate) => Some((p, false)),
        (Crossing::Single(p), Crossing::Collinear) => Some((p, false)),
        (Crossing::Separate, Crossing::Single(p)) => Some((p, true)),
        (Crossing::Collinear, Crossing::Single(p)) => Some((p, true)),
        _ => None,
    }
}

/// The start points of the segment beginning at `points[i]`, adjusted
/// for the joint there, exactly as [`adjusted_start_at`] states it.
fn get_adjusted_start_points(
    points: &Vec<Point2D>,
    dirs: &Vec<Point2D>,
    conns: &Connections,
    i: usize,
    width: Point2D,
) -> (r: (Point2D, Point2D))
    requires
        dirs@.len() + 1 == points@.len(),
        conns@.len() + 2 == points@.len(),
        i < dirs@.len(),
    ensures
        r == adjusted_start_at(points@, dirs@, conns@, i as int, width),
{
    let sp = get_start_points(points, dirs, i, width);
    if i == 0 {
        return sp;
    }
    match conns[i - 1] {
        Some((p, false)) => (p, sp.1),
        Some((p, true)) => (sp.0, p),
        None => sp,
    }
}

/// The end points of the segment ending at `points[i]`, adjusted for
/// the joint there, exactly as [`adjusted_end_at`] states it.
fn get_adjusted_end_points(
    points: &Vec<Point2D>,
    dirs: &Vec<Point2D>,
    conns: &Connections,
    i: usize,
    width: Point2D,
) -> (r: (Point2D, Point2D))
    requires
        dirs@.len() + 1 == points@.len(),
        conns@.len() + 2 == points@.len(),
        1 <= i <= dirs@.len(),
    ensures
        r == adjusted_end_at(points@, dirs@, conns@, i as int, width),
{
    let ep = get_end_points(points, dirs, i, width);
    if i == dirs.len() {
        return ep;
    }
    match conns[i - 1] {
        Some((p, false)) => (p, ep.1),
        Some((p, true)) => (ep.0, p),
        None => ep,
    }
}

/// The quad of segment `i` (running from `points[i - 1]` to
/// `points[i]`): exactly the four adjusted offset points of
/// [`segment_quad_at`], covered by two triangles with a consistent
/// winding.
fn get_segment_render_data(
    points: &Vec<Point2D>,
    dirs: &Vec<Point2D>,
    conns: &Connections,
    i: usize,
    width: Point2D,
) -> (r: RenderData)
    requires
        dirs@.len() + 1 == points@.len(),
        conns@.len() + 2 == points@.len(),
        1 <= i <= dirs@.len(),
    ensures
        r.wf(),
        r.vertices@ == segment_quad_at(points@, dirs@, conns@, i as int, width),
        r.vertices@.len() == 4,
        r.indices@ == seq![0u32, 2, 3, 0, 3, 1],
{
    let sp = get_adjusted_start_points(points, dirs, conns, i - 1, width);
    let ep = get_adjusted_end_points(points, dirs, conns, i, width);
    let mut vertices: Vec<Point2D> = Vec::new();
    vertices.push(sp.0);
    vertices.push(sp.1);
    vertices.push(ep.0);
    vertices.push(ep.1);
    let mut indices: Vec<u32> = Vec::new();
    indices.push(0);
    indices.push(2);
    indices.push(3);
    indices.push(0);
    indices.push(3);
    indices.push(1);
    proof {
        assert(vertices@ =~= segment_quad_at(points@, dirs@, conns@, i as int, width));
        assert(indices@ =~= seq![0u32, 2, 3, 0, 3, 1]);
    }
    RenderData { vertices, indices }
}

/// The fill triangle of the joint at interior point `i`: exactly the
/// corners of [`joint_fill_at`] — nothing without a decision, and with
/// one, the raw end point opposite the snap, the snapped corner as
/// apex, and the raw start point opposite the snap.
fn get_connection_render_data(
    points: &Vec<Point2D>,
    dirs: &Vec<Point2D>,
    conns: &Connections,
    i: usize,
    width: Point2D,
) -> (r: RenderData)
    requires
        dirs@.len() + 1 == points@.len(),
        conns@.len() + 2 == points@.len(),
        1 <= i < dirs@.len(),
    ensures
        r.wf(),
        r.vertices@ == joint_fill_at(points@, dirs@, conns@, i as int, width),
        r.indices@ == (if conns@[i - 1] is Some {
            seq![0u32, 1, 2]
        } else {
            Seq::<u32>::empty()
        }),
{
    let conn = conns[i - 1];
    if conn.is_none() {
        return RenderData { vertices: Vec::new(), indices: Vec::new() };
    }
    let ep = get_end_points(points, dirs, i, width);
    let sp = get_start_points(points, dirs, i, width);
    let mut vertices: Vec<Point2D> = Vec::new();
    match conn {
        Some((p, false)) => {
            vertices.push(ep.1);
            vertices.push(p);
            vertices.push(sp.1);
        },
        Some((p, true)) => {
            vertices.push(ep.0);
            vertices.push(p);
            vertices.push(sp.0);
        },
        None => {
        },
    }
    let mut indices: Vec<u32> = Vec::new();
    indices.push(0);
    indices.push(1);
    indices.push(2);
    proof {
        assert(vertices@ =~= joint_fill_at(points@, dirs@, conns@, i as int, width));
        assert(indices@ =~= seq![0u32, 1, 2]);
    }
    RenderData { vertices, indices }
}

} // verus!
