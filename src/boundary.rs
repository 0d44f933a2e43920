//! Rendering of a volume's boundary, natively or as a polygon.
use vstd::prelude::*;
use crate::geometry::{
    check_latlon, distance_text, do_point, format_distance, format_latlon, latlon_text, parse_latlon,
    point_line, position_of, radius_mm_spec, radius_to_mm, valid_latlon, DmsPoint, Heading, Position,
};
use crate::tessellate::{
    arc_points, arc_steps, bearing_of, bearing_ok, circle_points, dest_ok, points_text, poly_arc,
    poly_circle, push_points,
};
use crate::yaixm::{Arc, Boundary, Circle, Direction};

verus! {

/// Every point of a line chain is well formed, and there is at least one.
pub open spec fn line_ok(l: Seq<String>) -> bool {
    l.len() > 0 && forall|i: int| 0 <= i < l.len() ==> valid_latlon(#[trigger] l[i]@)
}

/// The point directives of a line chain.
pub open spec fn line_text(l: Seq<String>) -> Seq<char>
    decreases l.len(),
{
    if l.len() == 0 {
        Seq::empty()
    } else {
        line_text(l.drop_last()) + point_line(l.last()@)
    }
}

/// Writes a line chain, one point per coordinate.
pub fn do_line(line: &Vec<String>) -> (r: String)
    requires
        forall|i: int| 0 <= i < line@.len() ==> valid_latlon(#[trigger] line@[i]@),
    ensures
        r@ == line_text(line@),
{
    let mut out = String::new();
    let mut i: usize = 0;
    while i < line.len()
        invariant
            0 <= i <= line.len(),
            forall|j: int| 0 <= j < line@.len() ==> valid_latlon(#[trigger] line@[j]@),
            out@ == line_text(line@.subrange(0, i as int)),
        decreases line.len() - i,
    {
        let p = do_point(line[i].as_str());
        out.append(p.as_str());
        assert(line@.subrange(0, i + 1).drop_last() == line@.subrange(0, i as int));
        i = i + 1;
    }
    assert(line@.subrange(0, line.len() as int) == line@);
    out
}

/// A circle can be written at the given resolution.
pub open spec fn circle_ok(c: Circle, res: Option<u32>) -> bool {
    &&& valid_latlon(c.centre@)
    &&& match res {
        None => distance_text(c.radius@) is Some,
        Some(r) => r > 0 && radius_mm_spec(c.radius@) is Some,
    }
}

/// The text of a circle: native centre and radius, or a polygon.
pub open spec fn circle_text<D: Fn(Position, Heading, u64) -> DmsPoint>(
    c: Circle,
    res: Option<u32>,
    d: D,
) -> Seq<char> {
    match res {
        None => "V X="@ + latlon_text(c.centre@) + "\nDC "@ + distance_text(c.radius@)->0 + "\n"@,
        Some(r) => points_text(
            circle_points(position_of(c.centre@), radius_mm_spec(c.radius@)->0 as u64, r, d),
        ),
    }
}

/// Writes a circle.
pub fn do_circle<D: Fn(Position, Heading, u64) -> DmsPoint>(
    circle: &Circle,
    resolution: Option<u32>,
    dest: &D,
) -> (r: String)
    requires
        circle_ok(*circle, resolution),
        dest_ok(*dest),
    ensures
        r@ == circle_text(*circle, resolution, *dest),
{
    let mut out = String::new();
    match resolution {
        None => {
            out.append("V X=");
            let c = format_latlon(circle.centre.as_str());
            out.append(c.as_str());
            out.append("\nDC ");
            let dist = format_distance(circle.radius.as_str()).unwrap();
            out.append(dist.as_str());
            out.append("\n");
        },
        Some(res) => {
            let centre = parse_latlon(circle.centre.as_str());
            let mm = radius_to_mm(circle.radius.as_str()).unwrap();
            let pts = poly_circle(centre, mm, res, dest);
            push_points(&mut out, &pts);
        },
    }
    out
}

/// An arc from `prev` can be written at the given resolution.
pub open spec fn arc_ok(a: Arc, prev: Seq<char>, res: Option<u32>) -> bool {
    &&& valid_latlon(prev)
    &&& valid_latlon(a.centre@)
    &&& valid_latlon(a.to@)
    &&& match res {
        None => true,
        Some(r) => r > 0 && radius_mm_spec(a.radius@) is Some,
    }
}

/// The text of an arc from `prev`: native direction, centre and end points,
/// or a polygon.
pub open spec fn arc_text<B: Fn(Position, Position) -> u64, D: Fn(Position, Heading, u64) -> DmsPoint>(
    a: Arc,
    prev: Seq<char>,
    res: Option<u32>,
    b: B,
    d: D,
) -> Seq<char> {
    match res {
        None => "V D="@ + (if a.dir == Direction::Clockwise { "+"@ } else { "-"@ }) + "\nV X="@
            + latlon_text(a.centre@) + "\nDB "@ + latlon_text(prev) + ", "@ + latlon_text(a.to@)
            + "\n"@,
        Some(r) => {
            let c = position_of(a.centre@);
            let to = position_of(a.to@);
            let steps = arc_steps(bearing_of(b, c, position_of(prev)), bearing_of(b, c, to), a.dir, r);
            points_text(arc_points(c, to, steps, radius_mm_spec(a.radius@)->0 as u64, r, d))
        },
    }
}

/// Writes an arc that starts at `from`.
pub fn do_arc<B: Fn(Position, Position) -> u64, D: Fn(Position, Heading, u64) -> DmsPoint>(
    arc: &Arc,
    from: &str,
    resolution: Option<u32>,
    bearing: &B,
    dest: &D,
) -> (r: String)
    requires
        arc_ok(*arc, from@, resolution),
        bearing_ok(*bearing),
        dest_ok(*dest),
    ensures
        r@ == arc_text(*arc, from@, resolution, *bearing, *dest),
{
    let mut out = String::new();
    match resolution {
        None => {
            out.append("V D=");
            out.append(if arc.dir == Direction::Clockwise { "+" } else { "-" });
            out.append("\nV X=");
            let c = format_latlon(arc.centre.as_str());
            out.append(c.as_str());
            out.append("\nDB ");
            let f = format_latlon(from);
            out.append(f.as_str());
            out.append(", ");
            let t = format_latlon(arc.to.as_str());
            out.append(t.as_str());
            out.append("\n");
        },
        Some(res) => {
            let centre = parse_latlon(arc.centre.as_str());
            let start = parse_latlon(from);
            let to = parse_latlon(arc.to.as_str());
            let mm = radius_to_mm(arc.radius.as_str()).unwrap();
            let pts = poly_arc(centre, start, to, arc.dir, mm, res, bearing, dest);
            push_points(&mut out, &pts);
        },
    }
    out
}

/// The last point written after the first `k` segments, if any.
pub open spec fn prev_after(bs: Seq<Boundary>, k: int) -> Option<Seq<char>>
    decreases k,
{
    if k <= 0 || k > bs.len() {
        None
    } else {
        match bs[k - 1] {
            Boundary::Line(l) => Some(l@.last()@),
            Boundary::Arc(a) => Some(a.to@),
            Boundary::Circle(_) => prev_after(bs, k - 1),
        }
    }
}

/// A segment can be written after `prev`.
pub open spec fn segment_ok(s: Boundary, prev: Option<Seq<char>>, res: Option<u32>) -> bool {
    match s {
        Boundary::Line(l) => line_ok(l@),
        Boundary::Arc(a) => prev is Some && arc_ok(a, prev->0, res),
        Boundary::Circle(c) => circle_ok(c, res),
    }
}

/// The text of a segment written after `prev`.
pub open spec fn segment_text<B: Fn(Position, Position) -> u64, D: Fn(Position, Heading, u64) -> DmsPoint>(
    s: Boundary,
    prev: Option<Seq<char>>,
    res: Option<u32>,
    b: B,
    d: D,
) -> Seq<char> {
    match s {
        Boundary::Line(l) => line_text(l@),
        Boundary::Arc(a) => arc_text(a, prev->0, res, b, d),
        Boundary::Circle(c) => circle_text(c, res, d),
    }
}

/// The text of the first `k` segments.
pub open spec fn segments_text<B: Fn(Position, Position) -> u64, D: Fn(Position, Heading, u64) -> DmsPoint>(
    bs: Seq<Boundary>,
    k: int,
    res: Option<u32>,
    b: B,
    d: D,
) -> Seq<char>
    decreases k,
{
    if k <= 0 || k > bs.len() {
        Seq::empty()
    } else {
        segments_text(bs, k - 1, res, b, d) + segment_text(bs[k - 1], prev_after(bs, k - 1), res, b, d)
    }
}

/// A boundary can be written: it has a segment, every arc follows a point,
/// and every segment is well formed.
pub open spec fn boundary_ok(bs: Seq<Boundary>, res: Option<u32>) -> bool {
    &&& bs.len() > 0
    &&& forall|k: int| 0 <= k < bs.len() ==> segment_ok(#[trigger] bs[k], prev_after(bs, k), res)
}

/// The closing point: where the boundary starts with a line chain whose first
/// point is not the last point written.
pub open spec fn closing_text(bs: Seq<Boundary>) -> Seq<char> {
    match bs[0] {
        Boundary::Line(l) => if prev_after(bs, bs.len() as int) != Some(l@[0]@) {
            point_line(l@[0]@)
        } else {
            Seq::empty()
        },
        _ => Seq::empty(),
    }
}

/// The text of a boundary.
pub open spec fn boundary_text<B: Fn(Position, Position) -> u64, D: Fn(Position, Heading, u64) -> DmsPoint>(
    bs: Seq<Boundary>,
    res: Option<u32>,
    b: B,
    d: D,
) -> Seq<char> {
    segments_text(bs, bs.len() as int, res, b, d) + closing_text(bs)
}

/// Writes a boundary, closing the polygon where it starts with a line chain.
pub fn do_boundary<B: Fn(Position, Position) -> u64, D: Fn(Position, Heading, u64) -> DmsPoint>(
    boundary: &Vec<Boundary>,
    resolution: Option<u32>,
    bearing: &B,
    dest: &D,
) -> (r: String)
    requires
        boundary_ok(boundary@, resolution),
        bearing_ok(*bearing),
        dest_ok(*dest),
    ensures
        r@ == boundary_text(boundary@, resolution, *bearing, *dest),
{
    let mut out = String::new();
    let mut prev: &str = "";
    let mut has_prev = false;
    let mut i: usize = 0;
    while i < boundary.len()
        invariant
            0 <= i <= boundary.len(),
            boundary_ok(boundary@, resolution),
            bearing_ok(*bearing),
            dest_ok(*dest),
            has_prev == prev_after(boundary@, i as int) is Some,
            has_prev ==> prev@ == prev_after(boundary@, i as int)->0,
            out@ == segments_text(boundary@, i as int, resolution, *bearing, *dest),
        decreases boundary.len() - i,
    {
        let seg = &boundary[i];
        assert(segment_ok(boundary@[i as int], prev_after(boundary@, i as int), resolution));
        match seg {
            Boundary::Line(line) => {
                let t = do_line(line);
                out.append(t.as_str());
                prev = line[line.len() - 1].as_str();
                has_prev = true;
            },
            Boundary::Arc(arc) => {
                let t = do_arc(arc, prev, resolution, bearing, dest);
                out.append(t.as_str());
                prev = arc.to.as_str();
                has_prev = true;
            },
            Boundary::Circle(circle) => {
                let t = do_circle(circle, resolution, dest);
                out.append(t.as_str());
            },
        }
        i = i + 1;
    }
    // Close the polygon
    match &boundary[0] {
        Boundary::Line(line) => {
            let first = line[0].as_str();
            let same = has_prev && crate::text::str_eq(first, prev);
            if !same {
                let p = do_point(first);
                out.append(p.as_str());
            }
        },
        _ => {},
    }
    out
}

/// Whether a line chain can be written.
fn check_line(line: &Vec<String>) -> (r: bool)
    ensures
        r == line_ok(line@),
{
    if line.len() == 0 {
        return false;
    }
    let mut i: usize = 0;
    while i < line.len()
        invariant
            0 <= i <= line.len(),
            forall|j: int| 0 <= j < i ==> valid_latlon(#[trigger] line@[j]@),
        decreases line.len() - i,
    {
        if !check_latlon(line[i].as_str()) {
            return false;
        }
        i = i + 1;
    }
    true
}

/// Whether a radius can be read for a polygon at resolution `res`.
fn check_poly_radius(radius: &str, res: u32) -> (r: bool)
    ensures
        r == (res > 0 && radius_mm_spec(radius@) is Some),
{
    res > 0 && radius_to_mm(radius).is_some()
}

/// Whether a boundary can be written at the given resolution.
pub fn check_boundary(boundary: &Vec<Boundary>, resolution: Option<u32>) -> (r: bool)
    ensures
        r == boundary_ok(boundary@, resolution),
{
    if boundary.len() == 0 {
        return false;
    }
    let mut prev: &str = "";
    let mut has_prev = false;
    let mut i: usize = 0;
    while i < boundary.len()
        invariant
            0 <= i <= boundary.len(),
            has_prev == prev_after(boundary@, i as int) is Some,
            has_prev ==> prev@ == prev_after(boundary@, i as int)->0,
            forall|k: int| 0 <= k < i ==> segment_ok(#[trigger] boundary@[k], prev_after(boundary@, k), resolution),
        decreases boundary.len() - i,
    {
        let ok = match &boundary[i] {
            Boundary::Line(line) => {
                let ok = check_line(line);
                if ok {
                    prev = line[line.len() - 1].as_str();
                    has_prev = true;
                }
                ok
            },
            Boundary::Arc(arc) => {
                let ok = has_prev && check_latlon(prev) && check_latlon(arc.centre.as_str())
                    && check_latlon(arc.to.as_str()) && match resolution {
                    None => true,
                    Some(res) => check_poly_radius(arc.radius.as_str(), res),
                };
                prev = arc.to.as_str();
                has_prev = true;
                ok
            },
            Boundary::Circle(circle) => {
                check_latlon(circle.centre.as_str()) && match resolution {
                    None => format_distance(circle.radius.as_str()).is_some(),
                    Some(res) => check_poly_radius(circle.radius.as_str(), res),
                }
            },
        };
        if !ok {
            assert(!segment_ok(boundary@[i as int], prev_after(boundary@, i as int), resolution));
            return false;
        }
        i = i + 1;
    }
    true
}

} // verus!
