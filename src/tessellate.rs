//! Discretisation of circles and arcs into polygons.
use vstd::prelude::*;
use crate::geometry::{degrees_to_point, dms_line, dms_of, DmsPoint, Heading, Position};
use crate::yaixm::Direction;

verus! {

/// The bearing function is total, deterministic, and gives micro-degrees
/// below 360 degrees.
pub open spec fn bearing_ok<B: Fn(Position, Position) -> u64>(b: B) -> bool {
    &&& forall|p: Position, q: Position| #[trigger] call_requires(b, (p, q))
    &&& forall|p: Position, q: Position, r1: u64, r2: u64|
        #![trigger call_ensures(b, (p, q), r1), call_ensures(b, (p, q), r2)]
        call_ensures(b, (p, q), r1) && call_ensures(b, (p, q), r2) ==> r1 == r2
    &&& forall|p: Position, q: Position, r: u64|
        #[trigger] call_ensures(b, (p, q), r) ==> r < 360_000_000
}

/// The destination function is total and deterministic.
pub open spec fn dest_ok<D: Fn(Position, Heading, u64) -> DmsPoint>(d: D) -> bool {
    &&& forall|p: Position, h: Heading, m: u64| #[trigger] call_requires(d, (p, h, m))
    &&& forall|p: Position, h: Heading, m: u64, r1: DmsPoint, r2: DmsPoint|
        #![trigger call_ensures(d, (p, h, m), r1), call_ensures(d, (p, h, m), r2)]
        call_ensures(d, (p, h, m), r1) && call_ensures(d, (p, h, m), r2) ==> r1 == r2
}

/// The initial bearing from `p` to `q`, in micro-degrees.
pub open spec fn bearing_of<B: Fn(Position, Position) -> u64>(b: B, p: Position, q: Position) -> u64 {
    choose|r: u64| call_ensures(b, (p, q), r)
}

/// The point reached from `p` along heading `h` after `m` millimetres.
pub open spec fn dest_of<D: Fn(Position, Heading, u64) -> DmsPoint>(
    d: D,
    p: Position,
    h: Heading,
    m: u64,
) -> DmsPoint {
    choose|r: DmsPoint| call_ensures(d, (p, h, m), r)
}

/// Calls the bearing function.
pub fn bearing_call<B: Fn(Position, Position) -> u64>(b: &B, p: Position, q: Position) -> (r: u64)
    requires
        bearing_ok(*b),
    ensures
        r == bearing_of(*b, p, q),
        r < 360_000_000,
{
    let r = b(p, q);
    assert(call_ensures(*b, (p, q), bearing_of(*b, p, q)));
    r
}

/// Calls the destination function.
pub fn dest_call<D: Fn(Position, Heading, u64) -> DmsPoint>(
    d: &D,
    p: Position,
    h: Heading,
    m: u64,
) -> (r: DmsPoint)
    requires
        dest_ok(*d),
    ensures
        r == dest_of(*d, p, h, m),
{
    let r = d(p, h, m);
    assert(call_ensures(*d, (p, h, m), dest_of(*d, p, h, m)));
    r
}

/// The heading of step `a` when the full circle is divided into `res` steps.
pub open spec fn step_heading(a: nat, res: u32) -> Heading {
    Heading { num: (a * 360) as u64, den: res as u64 }
}

/// The text of a sequence of computed points.
pub open spec fn points_text(ps: Seq<DmsPoint>) -> Seq<char>
    decreases ps.len(),
{
    if ps.len() == 0 {
        Seq::empty()
    } else {
        points_text(ps.drop_last()) + dms_line(ps.last())
    }
}

/// Writes a sequence of computed points.
pub fn push_points(out: &mut String, ps: &Vec<DmsPoint>)
    ensures
        final(out)@ == old(out)@ + points_text(ps@),
{
    let ghost start = out@;
    let mut i: usize = 0;
    while i < ps.len()
        invariant
            0 <= i <= ps.len(),
            out@ == start + points_text(ps@.subrange(0, i as int)),
        decreases ps.len() - i,
    {
        degrees_to_point(out, ps[i]);
        assert(ps@.subrange(0, i + 1).drop_last() == ps@.subrange(0, i as int));
        i = i + 1;
    }
    assert(ps@.subrange(0, ps.len() as int) == ps@);
}

/// The points of a circle about `c` of radius `mm`: `res + 1` points at
/// headings 0, 360/res, ..., 360 degrees.
pub open spec fn circle_points<D: Fn(Position, Heading, u64) -> DmsPoint>(
    c: Position,
    mm: u64,
    res: u32,
    d: D,
) -> Seq<DmsPoint> {
    Seq::new((res + 1) as nat, |a: int| dest_of(d, c, step_heading(a as nat, res), mm))
}

/// Divides a circle into a closed ring of `resolution + 1` points.
pub fn poly_circle<D: Fn(Position, Heading, u64) -> DmsPoint>(
    centre: Position,
    radius_mm: u64,
    resolution: u32,
    dest: &D,
) -> (pts: Vec<DmsPoint>)
    requires
        resolution > 0,
        dest_ok(*dest),
    ensures
        pts@ == circle_points(centre, radius_mm, resolution, *dest),
        pts@.len() == resolution + 1,
        pts@[0] == dest_of(*dest, centre, Heading { num: 0, den: resolution as u64 }, radius_mm),
        pts@[resolution as int] == dest_of(
            *dest,
            centre,
            Heading { num: (360 * resolution) as u64, den: resolution as u64 },
            radius_mm,
        ),
{
    let mut pts: Vec<DmsPoint> = Vec::new();
    let mut a: u64 = 0;
    while a <= resolution as u64
        invariant
            0 <= a <= resolution as u64 + 1,
            dest_ok(*dest),
            pts@.len() == a,
            forall|i: int|
                0 <= i < a ==> pts@[i] == dest_of(
                    *dest,
                    centre,
                    step_heading(i as nat, resolution),
                    radius_mm,
                ),
        decreases resolution as u64 + 1 - a,
    {
        let h = Heading { num: a * 360, den: resolution as u64 };
        let p = dest_call(dest, centre, h, radius_mm);
        pts.push(p);
        a = a + 1;
    }
    assert(pts@ =~= circle_points(centre, radius_mm, resolution, *dest));
    pts
}

/// Whether step `a` lies strictly inside (`lo` + 0.5°, `hi` - 0.5°), with
/// `lo` and `hi` in micro-degrees and step `a` at `a * 360 / res` degrees.
pub open spec fn inside(a: nat, lo: int, hi: int, res: u32) -> bool {
    &&& a * 360_000_000 > (lo + 500_000) * res
    &&& a * 360_000_000 < (hi - 500_000) * res
}

/// The steps among `0 .. k` that lie inside the range, ascending.
pub open spec fn steps_below(k: nat, lo: int, hi: int, res: u32) -> Seq<nat>
    decreases k,
{
    if k == 0 {
        Seq::empty()
    } else {
        let rest = steps_below((k - 1) as nat, lo, hi, res);
        if inside((k - 1) as nat, lo, hi, res) {
            rest.push((k - 1) as nat)
        } else {
            rest
        }
    }
}

/// The bearings of the arc's ends after adjustment: for a clockwise arc the
/// end is moved a turn on where it lies before the start; for an
/// anticlockwise arc the start is moved a turn on where it lies before the end.
pub open spec fn arc_range(from: u64, to: u64, dir: Direction) -> (int, int) {
    match dir {
        Direction::Clockwise => (from as int, if from > to { to + 360_000_000 } else { to as int }),
        Direction::Anticlockwise => (to as int, if from < to { from + 360_000_000 } else { from as int }),
    }
}

/// The steps of an arc, in drawing order: candidates at `360 / res` degree
/// spacing over two turns, strictly inside the arc with half a degree kept
/// clear of either end, reversed for an anticlockwise arc.
pub open spec fn arc_steps(from: u64, to: u64, dir: Direction, res: u32) -> Seq<nat> {
    let (lo, hi) = arc_range(from, to, dir);
    let up = steps_below((2 * res + 1) as nat, lo, hi, res);
    match dir {
        Direction::Clockwise => up,
        Direction::Anticlockwise => up.reverse(),
    }
}

proof fn lemma_steps_below_inside(k: nat, lo: int, hi: int, res: u32)
    ensures
        forall|i: int|
            0 <= i < steps_below(k, lo, hi, res).len() ==> inside(
                #[trigger] steps_below(k, lo, hi, res)[i],
                lo,
                hi,
                res,
            ) && steps_below(k, lo, hi, res)[i] < k,
    decreases k,
{
    if k > 0 {
        let k1 = (k - 1) as nat;
        lemma_steps_below_inside(k1, lo, hi, res);
        let rest = steps_below(k1, lo, hi, res);
        let s = steps_below(k, lo, hi, res);
        assert forall|i: int| 0 <= i < s.len() implies inside(#[trigger] s[i], lo, hi, res) && s[i] < k by {
            if i < rest.len() {
                assert(s[i] == rest[i]);
            }
        }
    }
}

/// The points of an arc: one for each step, then the end point itself.
pub open spec fn arc_points<D: Fn(Position, Heading, u64) -> DmsPoint>(
    c: Position,
    to: Position,
    steps: Seq<nat>,
    mm: u64,
    res: u32,
    d: D,
) -> Seq<DmsPoint> {
    Seq::new(steps.len(), |i: int| dest_of(d, c, step_heading(steps[i], res), mm)).push(
        dms_of(to),
    )
}

/// The ascending steps strictly inside (`lo`, `hi`).
fn steps_between(lo: u64, hi: u64, res: u32) -> (r: Vec<u64>)
    requires
        lo < 720_000_000,
        hi < 720_000_000,
    ensures
        r@.len() == steps_below((2 * res + 1) as nat, lo as int, hi as int, res).len(),
        forall|i: int|
            0 <= i < r@.len() ==> r@[i] == steps_below(
                (2 * res + 1) as nat,
                lo as int,
                hi as int,
                res,
            )[i],
{
    let mut r: Vec<u64> = Vec::new();
    let n: u64 = 2 * (res as u64) + 1;
    let mut a: u64 = 0;
    while a < n
        invariant
            0 <= a <= n,
            n == 2 * res + 1,
            lo < 720_000_000,
            hi < 720_000_000,
            r@.len() == steps_below(a as nat, lo as int, hi as int, res).len(),
            forall|i: int|
                0 <= i < r@.len() ==> r@[i] == steps_below(a as nat, lo as int, hi as int, res)[i],
        decreases n - a,
    {
        let scaled = a * 360_000_000;
        let res64 = res as u64;
        assert(lo * res64 <= 720_000_000 * res64) by (nonlinear_arith)
            requires lo < 720_000_000;
        assert(hi * res64 <= 720_000_000 * res64) by (nonlinear_arith)
            requires hi < 720_000_000;
        let keep = scaled > lo * res64 + 500_000 * res64 && scaled + 500_000 * res64 < hi * res64;
        assert(keep == inside(a as nat, lo as int, hi as int, res)) by (nonlinear_arith)
            requires
                scaled == a * 360_000_000,
                res64 == res,
                keep == (scaled > lo * res64 + 500_000 * res64 && scaled + 500_000 * res64 < hi * res64),
        ;
        if keep {
            r.push(a);
        }
        a = a + 1;
    }
    r
}

/// Divides an arc about `centre`, from `from` to `to`, into points: those
/// at the steps of `arc_steps`, then the end point exactly.
pub fn poly_arc<B: Fn(Position, Position) -> u64, D: Fn(Position, Heading, u64) -> DmsPoint>(
    centre: Position,
    from: Position,
    to: Position,
    dir: Direction,
    radius_mm: u64,
    resolution: u32,
    bearing: &B,
    dest: &D,
) -> (pts: Vec<DmsPoint>)
    requires
        resolution > 0,
        bearing_ok(*bearing),
        dest_ok(*dest),
    ensures
        pts@ == arc_points(
            centre,
            to,
            arc_steps(
                bearing_of(*bearing, centre, from),
                bearing_of(*bearing, centre, to),
                dir,
                resolution,
            ),
            radius_mm,
            resolution,
            *dest,
        ),
{
    let from_ang = bearing_call(bearing, centre, from);
    let to_ang = bearing_call(bearing, centre, to);
    let (lo, hi) = match dir {
        Direction::Clockwise => (from_ang, if from_ang > to_ang { to_ang + 360_000_000 } else { to_ang }),
        Direction::Anticlockwise => (to_ang, if from_ang < to_ang { from_ang + 360_000_000 } else { from_ang }),
    };
    let steps = steps_between(lo, hi, resolution);
    let ghost up = steps_below((2 * resolution + 1) as nat, lo as int, hi as int, resolution);
    let ghost want = arc_steps(from_ang, to_ang, dir, resolution);
    assert(want =~= match dir {
        Direction::Clockwise => up,
        Direction::Anticlockwise => up.reverse(),
    });
    let n = steps.len();
    proof {
        lemma_steps_below_inside((2 * resolution + 1) as nat, lo as int, hi as int, resolution);
    }
    let mut pts: Vec<DmsPoint> = Vec::new();
    let mut i: usize = 0;
    while i < n
        invariant
            0 <= i <= n,
            n == steps@.len(),
            n == want.len(),
            up.len() == n,
            forall|j: int| 0 <= j < n ==> steps@[j] == up[j],
            forall|j: int| 0 <= j < n ==> #[trigger] up[j] < 2 * resolution + 1,
            want == (match dir {
                Direction::Clockwise => up,
                Direction::Anticlockwise => up.reverse(),
            }),
            dest_ok(*dest),
            pts@.len() == i,
            forall|j: int|
                0 <= j < i ==> pts@[j] == dest_of(
                    *dest,
                    centre,
                    step_heading(want[j], resolution),
                    radius_mm,
                ),
        decreases n - i,
    {
        let a = match dir {
            Direction::Clockwise => steps[i],
            Direction::Anticlockwise => steps[n - 1 - i],
        };
        assert(a == want[i as int]);
        let h = Heading { num: a * 360, den: resolution as u64 };
        let p = dest_call(dest, centre, h, radius_mm);
        pts.push(p);
        i = i + 1;
    }
    let end = DmsPoint {
        south: to.lat < 0,
        lat: if to.lat < 0 { (0 - (to.lat as i64)) as u32 } else { to.lat as u32 },
        west: to.lon < 0,
        lon: if to.lon < 0 { (0 - (to.lon as i64)) as u32 } else { to.lon as u32 },
    };
    pts.push(end);
    assert(pts@ =~= arc_points(centre, to, want, radius_mm, resolution, *dest));
    pts
}

/// Every step of an arc lies strictly inside the arc, more than half a
/// degree from either end bearing, and the last point of an arc is its
/// declared end point.
pub proof fn lemma_arc_clear_of_ends<D: Fn(Position, Heading, u64) -> DmsPoint>(
    from: u64,
    to: u64,
    dir: Direction,
    res: u32,
    c: Position,
    end: Position,
    mm: u64,
    d: D,
)
    ensures
        forall|i: int|
            0 <= i < arc_steps(from, to, dir, res).len() ==> inside(
                #[trigger] arc_steps(from, to, dir, res)[i],
                arc_range(from, to, dir).0,
                arc_range(from, to, dir).1,
                res,
            ),
        arc_points(c, end, arc_steps(from, to, dir, res), mm, res, d).last() == dms_of(end),
{
    let (lo, hi) = arc_range(from, to, dir);
    let up = steps_below((2 * res + 1) as nat, lo, hi, res);
    lemma_steps_below_inside((2 * res + 1) as nat, lo, hi, res);
    let steps = arc_steps(from, to, dir, res);
    assert forall|i: int| 0 <= i < steps.len() implies inside(#[trigger] steps[i], lo, hi, res) by {
        match dir {
            Direction::Clockwise => {},
            Direction::Anticlockwise => {
                assert(steps[i] == up[up.len() - 1 - i]);
            },
        }
    }
}

} // verus!
