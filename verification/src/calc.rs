use vstd::prelude::*;

verus! {

use vstd::arithmetic::div_mod::lemma_fundamental_div_mod_converse;
use crate::basis::{hermite_axis, lemma_sample_axis_bound, sample_axis};
use crate::opts::SplineOpts;
use crate::opts3d::SplineOpts3D;
use crate::points::{Point, Points};
use crate::points3d::{Point3D, Points3D};
use crate::window::{window_at, window_next, window_next2, window_prev};
use crate::{Error, COORD_LIMIT, SEGMENTS_LIMIT, TENSION_LIMIT};

/// Number of interpolated intervals: one per point for a closed curve,
/// one per gap between consecutive points for an open one.
pub open spec fn intervals(n: int, closed: bool) -> int {
    if closed {
        n
    } else {
        n - 1
    }
}

/// The tension in force for an interval: the override carried by its
/// `curr` point if present, else the global one from the options.
pub open spec fn effective_tension(curr_tension: Option<i64>, global: i64) -> int {
    match curr_tension {
        Some(t) => t as int,
        None => global as int,
    }
}

/// A coordinate the engine accepts.
pub open spec fn coord_ok(v: i64) -> bool {
    -COORD_LIMIT <= v <= COORD_LIMIT
}

/// A tension override the engine accepts.
pub open spec fn tension_opt_ok(t: Option<i64>) -> bool {
    match t {
        Some(t0) => -TENSION_LIMIT <= t0 <= TENSION_LIMIT,
        None => true,
    }
}

/// A control point the engine accepts.
pub open spec fn point_ok(p: Point) -> bool {
    coord_ok(p.x) && coord_ok(p.y) && tension_opt_ok(p.tension)
}

/// A point sequence the engine accepts.
pub open spec fn points_ok(s: Seq<Point>) -> bool {
    forall|i: int| 0 <= i < s.len() ==> point_ok(#[trigger] s[i])
}

/// A hidden anchor the engine accepts.
pub open spec fn hidden_ok(h: Option<Point>) -> bool {
    match h {
        Some(p) => point_ok(p),
        None => true,
    }
}

/// Options the engine accepts: tension and anchors within the fixed
/// limits, and not more segments per interval than `SEGMENTS_LIMIT`.
pub open spec fn opts_ok(o: SplineOpts) -> bool {
    &&& -TENSION_LIMIT <= o.tension <= TENSION_LIMIT
    &&& o.num_of_segments <= SEGMENTS_LIMIT
    &&& hidden_ok(o.hidden_point_at_start)
    &&& hidden_ok(o.hidden_point_at_end)
}

/// Sampled output point `k` of interval `i`: the cubic Hermite blend of
/// the interval's four-point window at parameter `k / num_of_segments`.
pub open spec fn spline_sample(pts: Seq<Point>, o: SplineOpts, i: int, k: int) -> Point {
    let p = window_prev(pts, o.closed, o.hidden_point_at_start, i);
    let c = pts[i];
    let n = window_next(pts, o.closed, i);
    let n2 = window_next2(pts, o.closed, o.hidden_point_at_end, i);
    let tn = effective_tension(c.tension, o.tension);
    let s = o.num_of_segments as int;
    Point {
        x: sample_axis(p.x as int, c.x as int, n.x as int, n2.x as int, tn, s, k) as i64,
        y: sample_axis(p.y as int, c.y as int, n.y as int, n2.y as int, tn, s, k) as i64,
        tension: None,
    }
}

/// The single point appended after all windows: the first input point
/// for a closed curve, else the last input point.
pub open spec fn closing_point(pts: Seq<Point>, closed: bool) -> Point {
    if closed {
        Point { x: pts[0].x, y: pts[0].y, tension: None }
    } else {
        Point { x: pts[pts.len() - 1].x, y: pts[pts.len() - 1].y, tension: None }
    }
}

/// The whole output curve: `num_of_segments` samples per interval, in
/// increasing parameter order, followed by the closing point.
pub open spec fn spline_seq(pts: Seq<Point>, o: SplineOpts) -> Seq<Point> {
    let s = o.num_of_segments as int;
    let total = intervals(pts.len() as int, o.closed) * s;
    Seq::new(
        (total + 1) as nat,
        |j: int|
            if j < total {
                spline_sample(pts, o, j / s, j % s)
            } else {
                closing_point(pts, o.closed)
            },
    )
}

/// Everything `calc_spline` promises: with fewer than two points it
/// returns the `TooFewPoints` error and nothing else, otherwise the
/// exact interpolated curve.
pub open spec fn calc_spline_post(pts: Seq<Point>, o: SplineOpts, r: Result<Points, Error>) -> bool {
    match r {
        Ok(out) => pts.len() >= 2 && out@ == spline_seq(pts, o),
        Err(e) => pts.len() < 2 && e == Error::TooFewPoints,
    }
}

/// Returns the points of the curve constructed within the range of the
/// passed points, using cubic Hermite (Catmull-Rom style) spline
/// interpolation: `num_of_segments` samples per interval followed by
/// one closing point. With zero segments per interval every window
/// contributes nothing and only the closing point is emitted.
#[verifier::loop_isolation(false)]
pub fn calc_spline(points: &Points, opts: &SplineOpts) -> (r: Result<Points, Error>)
    requires
        points_ok(points@),
        opts_ok(*opts),
        points@.len() * (opts.num_of_segments as int) + 1 <= usize::MAX as int,
    ensures
        calc_spline_post(points@, *opts, r),
        r matches Ok(out) ==> out@.len() == intervals(points@.len() as int, opts.closed) * (
        opts.num_of_segments as int) + 1,
{
    let pts = points.get_ref();
    let n = pts.len();
    if n < 2 {
        return Err(Error::TooFewPoints);
    }
    let s = opts.get_num_of_segments();
    let closed = opts.get_closed();
    let hs = opts.get_hidden_point_at_start();
    let he = opts.get_hidden_point_at_end();
    let global = opts.get_tension();
    let m: usize = if closed {
        n
    } else {
        n - 1
    };
    let ghost total: int = intervals(n as int, closed) * (s as int);
    let mut result: Vec<Point> = Vec::new();
    let mut i: usize = 0;
    while i < m
        invariant
            i <= m,
            result@.len() == i as int * (s as int),
            forall|j: int| 0 <= j < result@.len() ==> result@[j] == spline_seq(points@, *opts)[j],
        decreases m - i,
    {
        let (wp, wc, wn, wn2) = window_at(pts, closed, &hs, &he, i);
        let tn = match wc.tension {
            Some(t) => t,
            None => global,
        };
        proof {
            assert(point_ok(pts@[i as int]));
            assert(point_ok(wp) && point_ok(wn) && point_ok(wn2));
            assert((i as int) * (s as int) + (s as int) <= total) by (nonlinear_arith)
                requires
                    (i as int) < (m as int),
                    0 <= s as int,
                    total == (m as int) * (s as int),
            ;
        }
        let mut k: u32 = 0;
        while k < s
            invariant
                k <= s,
                result@.len() == i as int * (s as int) + k as int,
                forall|j: int|
                    0 <= j < result@.len() ==> result@[j] == spline_seq(points@, *opts)[j],
            decreases s - k,
        {
            let x = hermite_axis(wp.x, wc.x, wn.x, wn2.x, tn, s, k);
            let y = hermite_axis(wp.y, wc.y, wn.y, wn2.y, tn, s, k);
            let ghost j: int = i as int * (s as int) + k as int;
            proof {
                lemma_fundamental_div_mod_converse(j, s as int, i as int, k as int);
                lemma_sample_axis_bound(wp.x as int, wc.x as int, wn.x as int, wn2.x as int,
                    tn as int, s as int, k as int);
                lemma_sample_axis_bound(wp.y as int, wc.y as int, wn.y as int, wn2.y as int,
                    tn as int, s as int, k as int);
                assert(j < total);
                assert(spline_seq(points@, *opts)[j] == spline_sample(points@, *opts, i as int,
                    k as int));
                assert(spline_sample(points@, *opts, i as int, k as int) == (Point {
                    x,
                    y,
                    tension: None,
                }));
            }
            result.push(Point { x, y, tension: None });
            k = k + 1;
        }
        proof {
            assert((i as int + 1) * (s as int) == i as int * (s as int) + (s as int))
                by (nonlinear_arith);
        }
        i = i + 1;
    }
    let last = if closed {
        pts[0]
    } else {
        pts[n - 1]
    };
    result.push(Point::new(last.x, last.y));
    proof {
        assert(result@ =~= spline_seq(points@, *opts));
    }
    Ok(Points(result))
}

/// A 3D control point the engine accepts.
pub open spec fn point_3d_ok(p: Point3D) -> bool {
    coord_ok(p.x) && coord_ok(p.y) && coord_ok(p.z) && tension_opt_ok(p.tension)
}

/// A 3D point sequence the engine accepts.
pub open spec fn points_3d_ok(s: Seq<Point3D>) -> bool {
    forall|i: int| 0 <= i < s.len() ==> point_3d_ok(#[trigger] s[i])
}

/// A hidden 3D anchor the engine accepts.
pub open spec fn hidden_3d_ok(h: Option<Point3D>) -> bool {
    match h {
        Some(p) => point_3d_ok(p),
        None => true,
    }
}

/// 3D options the engine accepts.
pub open spec fn opts_3d_ok(o: SplineOpts3D) -> bool {
    &&& -TENSION_LIMIT <= o.tension <= TENSION_LIMIT
    &&& o.num_of_segments <= SEGMENTS_LIMIT
    &&& hidden_3d_ok(o.hidden_point_at_start)
    &&& hidden_3d_ok(o.hidden_point_at_end)
}

/// Sampled output point `k` of interval `i` of a 3D curve: each axis is
/// interpolated independently with the same basis weights.
pub open spec fn spline_sample_3d(pts: Seq<Point3D>, o: SplineOpts3D, i: int, k: int) -> Point3D {
    let p = window_prev(pts, o.closed, o.hidden_point_at_start, i);
    let c = pts[i];
    let n = window_next(pts, o.closed, i);
    let n2 = window_next2(pts, o.closed, o.hidden_point_at_end, i);
    let tn = effective_tension(c.tension, o.tension);
    let s = o.num_of_segments as int;
    Point3D {
        x: sample_axis(p.x as int, c.x as int, n.x as int, n2.x as int, tn, s, k) as i64,
        y: sample_axis(p.y as int, c.y as int, n.y as int, n2.y as int, tn, s, k) as i64,
        z: sample_axis(p.z as int, c.z as int, n.z as int, n2.z as int, tn, s, k) as i64,
        tension: None,
    }
}

/// The single 3D point appended after all windows.
pub open spec fn closing_point_3d(pts: Seq<Point3D>, closed: bool) -> Point3D {
    if closed {
        Point3D { x: pts[0].x, y: pts[0].y, z: pts[0].z, tension: None }
    } else {
        Point3D {
            x: pts[pts.len() - 1].x,
            y: pts[pts.len() - 1].y,
            z: pts[pts.len() - 1].z,
            tension: None,
        }
    }
}

/// The whole 3D output curve.
pub open spec fn spline_seq_3d(pts: Seq<Point3D>, o: SplineOpts3D) -> Seq<Point3D> {
    let s = o.num_of_segments as int;
    let total = intervals(pts.len() as int, o.closed) * s;
    Seq::new(
        (total + 1) as nat,
        |j: int|
            if j < total {
                spline_sample_3d(pts, o, j / s, j % s)
            } else {
                closing_point_3d(pts, o.closed)
            },
    )
}

/// Everything `calc_spline_3d` promises.
pub open spec fn calc_spline_3d_post(
    pts: Seq<Point3D>,
    o: SplineOpts3D,
    r: Result<Points3D, Error>,
) -> bool {
    match r {
        Ok(out) => pts.len() >= 2 && out@ == spline_seq_3d(pts, o),
        Err(e) => pts.len() < 2 && e == Error::TooFewPoints,
    }
}

/// Returns the points of the 3D curve constructed within the range of
/// the passed points, using cubic Hermite (Catmull-Rom style) spline
/// interpolation; the z channel uses the same basis weights as x and y.
#[verifier::loop_isolation(false)]
pub fn calc_spline_3d(points: &Points3D, opts: &SplineOpts3D) -> (r: Result<Points3D, Error>)
    requires
        points_3d_ok(points@),
        opts_3d_ok(*opts),
        points@.len() * (opts.num_of_segments as int) + 1 <= usize::MAX as int,
    ensures
        calc_spline_3d_post(points@, *opts, r),
        r matches Ok(out) ==> out@.len() == intervals(points@.len() as int, opts.closed) * (
        opts.num_of_segments as int) + 1,
{
    let pts = points.get_ref();
    let n = pts.len();
    if n < 2 {
        return Err(Error::TooFewPoints);
    }
    let s = opts.get_num_of_segments();
    let closed = opts.get_closed();
    let hs = opts.get_hidden_point_at_start();
    let he = opts.get_hidden_point_at_end();
    let global = opts.get_tension();
    let m: usize = if closed {
        n
    } else {
        n - 1
    };
    let ghost total: int = intervals(n as int, closed) * (s as int);
    let mut result: Vec<Point3D> = Vec::new();
    let mut i: usize = 0;
    while i < m
        invariant
            i <= m,
            result@.len() == i as int * (s as int),
            forall|j: int|
                0 <= j < result@.len() ==> result@[j] == spline_seq_3d(points@, *opts)[j],
        decreases m - i,
    {
        let (wp, wc, wn, wn2) = window_at(pts, closed, &hs, &he, i);
        let tn = match wc.tension {
            Some(t) => t,
            None => global,
        };
        proof {
            assert(point_3d_ok(pts@[i as int]));
            assert(point_3d_ok(wp) && point_3d_ok(wn) && point_3d_ok(wn2));
            assert((i as int) * (s as int) + (s as int) <= total) by (nonlinear_arith)
                requires
                    (i as int) < (m as int),
                    0 <= s as int,
                    total == (m as int) * (s as int),
            ;
        }
        let mut k: u32 = 0;
        while k < s
            invariant
                k <= s,
                result@.len() == i as int * (s as int) + k as int,
                forall|j: int|
                    0 <= j < result@.len() ==> result@[j] == spline_seq_3d(points@, *opts)[j],
            decreases s - k,
        {
            let x = hermite_axis(wp.x, wc.x, wn.x, wn2.x, tn, s, k);
            let y = hermite_axis(wp.y, wc.y, wn.y, wn2.y, tn, s, k);
            let z = hermite_axis(wp.z, wc.z, wn.z, wn2.z, tn, s, k);
            let ghost j: int = i as int * (s as int) + k as int;
            proof {
                lemma_fundamental_div_mod_converse(j, s as int, i as int, k as int);
                lemma_sample_axis_bound(wp.x as int, wc.x as int, wn.x as int, wn2.x as int,
                    tn as int, s as int, k as int);
                lemma_sample_axis_bound(wp.y as int, wc.y as int, wn.y as int, wn2.y as int,
                    tn as int, s as int, k as int);
                lemma_sample_axis_bound(wp.z as int, wc.z as int, wn.z as int, wn2.z as int,
                    tn as int, s as int, k as int);
                assert(j < total);
                assert(spline_seq_3d(points@, *opts)[j] == spline_sample_3d(points@, *opts,
                    i as int, k as int));
                assert(spline_sample_3d(points@, *opts, i as int, k as int) == (Point3D {
                    x,
                    y,
                    z,
                    tension: None,
                }));
            }
            result.push(Point3D { x, y, z, tension: None });
            k = k + 1;
        }
        proof {
            assert((i as int + 1) * (s as int) == i as int * (s as int) + (s as int))
                by (nonlinear_arith);
        }
        i = i + 1;
    }
    let last = if closed {
        pts[0]
    } else {
        pts[n - 1]
    };
    result.push(Point3D::new(last.x, last.y, last.z));
    proof {
        assert(result@ =~= spline_seq_3d(points@, *opts));
    }
    Ok(Points3D(result))
}

impl Points {
    /// Returns the interpolated curve for these points; the method form
    /// of `calc_spline`.
    pub fn calc_spline(&self, opts: &SplineOpts) -> (r: Result<Points, Error>)
        requires
            points_ok(self@),
            opts_ok(*opts),
            self@.len() * (opts.num_of_segments as int) + 1 <= usize::MAX as int,
        ensures
            calc_spline_post(self@, *opts, r),
            r matches Ok(out) ==> out@.len() == intervals(self@.len() as int, opts.closed) * (
            opts.num_of_segments as int) + 1,
    {
        calc_spline(self, opts)
    }
}

impl Points3D {
    /// Returns the interpolated 3D curve for these points; the method
    /// form of `calc_spline_3d`.
    pub fn calc_spline(&self, opts: &SplineOpts3D) -> (r: Result<Points3D, Error>)
        requires
            points_3d_ok(self@),
            opts_3d_ok(*opts),
            self@.len() * (opts.num_of_segments as int) + 1 <= usize::MAX as int,
        ensures
            calc_spline_3d_post(self@, *opts, r),
            r matches Ok(out) ==> out@.len() == intervals(self@.len() as int, opts.closed) * (
            opts.num_of_segments as int) + 1,
    {
        calc_spline_3d(self, opts)
    }
}

/// Law: for any accepted input with `n >= 2` points and `s` segments
/// per interval, the output holds `(n - 1) * s + 1` points when the
/// curve is open and `n * s + 1` when it is closed.
pub proof fn lemma_spline_len(pts: Seq<Point>, o: SplineOpts)
    requires
        pts.len() >= 2,
    ensures
        spline_seq(pts, o).len() == intervals(pts.len() as int, o.closed) * (
        o.num_of_segments as int) + 1,
{
    assert(0 <= intervals(pts.len() as int, o.closed) * (o.num_of_segments as int))
        by (nonlinear_arith)
        requires
            1 <= intervals(pts.len() as int, o.closed),
            0 <= o.num_of_segments as int,
    ;
}

/// Law: the last output point of a closed curve is exactly the first
/// input point, closing the loop back to its start.
pub proof fn lemma_closed_returns_to_start(pts: Seq<Point>, o: SplineOpts)
    requires
        pts.len() >= 2,
        o.closed,
    ensures
        spline_seq(pts, o).last() == (Point { x: pts[0].x, y: pts[0].y, tension: None }),
{
    lemma_spline_len(pts, o);
}

/// Law: the last output point of an open curve is exactly the last
/// input point, appended because the basis never samples `t = 1`.
pub proof fn lemma_open_ends_at_last(pts: Seq<Point>, o: SplineOpts)
    requires
        pts.len() >= 2,
        !o.closed,
    ensures
        spline_seq(pts, o).last() == (Point {
            x: pts[pts.len() - 1].x,
            y: pts[pts.len() - 1].y,
            tension: None,
        }),
{
    lemma_spline_len(pts, o);
}

/// Law: the first sample of every window is exactly `curr`: at the
/// start of interval `i` the output point carries the coordinates of
/// input point `i`, bit for bit.
pub proof fn lemma_window_first_sample(pts: Seq<Point>, o: SplineOpts, i: int)
    requires
        pts.len() >= 2,
        1 <= o.num_of_segments,
        0 <= i < intervals(pts.len() as int, o.closed),
    ensures
        ({
            let q = spline_seq(pts, o)[i * (o.num_of_segments as int)];
            q.x == pts[i].x && q.y == pts[i].y && q.tension is None
        }),
{
    let s = o.num_of_segments as int;
    let m = intervals(pts.len() as int, o.closed);
    let j = i * s;
    assert(0 <= j && j + s <= m * s) by (nonlinear_arith)
        requires
            0 <= i < m,
            1 <= s,
            j == i * s,
    ;
    lemma_fundamental_div_mod_converse(j, s, i, 0);
    let p = window_prev(pts, o.closed, o.hidden_point_at_start, i);
    let c = pts[i];
    let n = window_next(pts, o.closed, i);
    let n2 = window_next2(pts, o.closed, o.hidden_point_at_end, i);
    let tn = effective_tension(c.tension, o.tension);
    crate::basis::lemma_sample_at_zero(p.x as int, c.x as int, n.x as int, n2.x as int, tn, s);
    crate::basis::lemma_sample_at_zero(p.y as int, c.y as int, n.y as int, n2.y as int, tn, s);
}

/// Law: evaluation is deterministic: two results that both satisfy the
/// contract on the same input are the same curve, point for point.
pub proof fn lemma_calc_spline_deterministic(
    pts: Seq<Point>,
    o: SplineOpts,
    r1: Result<Points, Error>,
    r2: Result<Points, Error>,
)
    requires
        calc_spline_post(pts, o, r1),
        calc_spline_post(pts, o, r2),
    ensures
        r1 matches Ok(a) ==> (r2 matches Ok(b) && a@ == b@),
        r1 matches Err(e1) ==> (r2 matches Err(e2) && e1 == e2),
{
}

/// Law: with an effective tension of zero the tangents vanish and every
/// sample of an interval lies between `curr` and `next` on each axis:
/// the interval degenerates to its chord.
pub proof fn lemma_zero_tension_on_chord(pts: Seq<Point>, o: SplineOpts, i: int, k: int)
    requires
        pts.len() >= 2,
        0 <= i < intervals(pts.len() as int, o.closed),
        0 <= k < o.num_of_segments,
        effective_tension(pts[i].tension, o.tension) == 0,
    ensures
        ({
            let q = spline_seq(pts, o)[i * (o.num_of_segments as int) + k];
            let c = pts[i];
            let n = window_next(pts, o.closed, i);
            let s = o.num_of_segments as int;
            let b1 = crate::basis::basis1(k, s);
            let b2 = crate::basis::basis2(k, s);
            &&& q.x as int == (b1 * (c.x as int) + b2 * (n.x as int)) / (s * s * s)
            &&& q.y as int == (b1 * (c.y as int) + b2 * (n.y as int)) / (s * s * s)
            &&& (if c.x <= n.x { c.x } else { n.x }) <= q.x <= (if c.x <= n.x { n.x } else { c.x })
            &&& (if c.y <= n.y { c.y } else { n.y }) <= q.y <= (if c.y <= n.y { n.y } else { c.y })
        }),
{
    let s = o.num_of_segments as int;
    let m = intervals(pts.len() as int, o.closed);
    let j = i * s + k;
    assert(0 <= j && j < m * s) by (nonlinear_arith)
        requires
            0 <= i < m,
            0 <= k < s,
            j == i * s + k,
    ;
    lemma_fundamental_div_mod_converse(j, s, i, k);
    let p = window_prev(pts, o.closed, o.hidden_point_at_start, i);
    let c = pts[i];
    let n = window_next(pts, o.closed, i);
    let n2 = window_next2(pts, o.closed, o.hidden_point_at_end, i);
    crate::basis::lemma_zero_tension_chord(p.x as int, c.x as int, n.x as int, n2.x as int, s, k);
    crate::basis::lemma_zero_tension_chord(p.y as int, c.y as int, n.y as int, n2.y as int, s, k);
}

/// Law: 3D output length, as for 2D.
pub proof fn lemma_spline_len_3d(pts: Seq<Point3D>, o: SplineOpts3D)
    requires
        pts.len() >= 2,
    ensures
        spline_seq_3d(pts, o).len() == intervals(pts.len() as int, o.closed) * (
        o.num_of_segments as int) + 1,
{
    assert(0 <= intervals(pts.len() as int, o.closed) * (o.num_of_segments as int))
        by (nonlinear_arith)
        requires
            1 <= intervals(pts.len() as int, o.closed),
            0 <= o.num_of_segments as int,
    ;
}

/// Law: a closed 3D curve's last output point is exactly the first
/// input point.
pub proof fn lemma_closed_returns_to_start_3d(pts: Seq<Point3D>, o: SplineOpts3D)
    requires
        pts.len() >= 2,
        o.closed,
    ensures
        spline_seq_3d(pts, o).last() == (Point3D {
            x: pts[0].x,
            y: pts[0].y,
            z: pts[0].z,
            tension: None,
        }),
{
    lemma_spline_len_3d(pts, o);
}

/// Law: the first sample of every 3D window is exactly `curr`.
pub proof fn lemma_window_first_sample_3d(pts: Seq<Point3D>, o: SplineOpts3D, i: int)
    requires
        pts.len() >= 2,
        1 <= o.num_of_segments,
        0 <= i < intervals(pts.len() as int, o.closed),
    ensures
        ({
            let q = spline_seq_3d(pts, o)[i * (o.num_of_segments as int)];
            q.x == pts[i].x && q.y == pts[i].y && q.z == pts[i].z && q.tension is None
        }),
{
    let s = o.num_of_segments as int;
    let m = intervals(pts.len() as int, o.closed);
    let j = i * s;
    assert(0 <= j && j + s <= m * s) by (nonlinear_arith)
        requires
            0 <= i < m,
            1 <= s,
            j == i * s,
    ;
    lemma_fundamental_div_mod_converse(j, s, i, 0);
    let p = window_prev(pts, o.closed, o.hidden_point_at_start, i);
    let c = pts[i];
    let n = window_next(pts, o.closed, i);
    let n2 = window_next2(pts, o.closed, o.hidden_point_at_end, i);
    crate::basis::lemma_sample_at_zero(p.x as int, c.x as int, n.x as int, n2.x as int,
        effective_tension(c.tension, o.tension), s);
    crate::basis::lemma_sample_at_zero(p.y as int, c.y as int, n.y as int, n2.y as int,
        effective_tension(c.tension, o.tension), s);
    crate::basis::lemma_sample_at_zero(p.z as int, c.z as int, n.z as int, n2.z as int,
        effective_tension(c.tension, o.tension), s);
}

/// Law: with an effective tension of zero every 3D sample lies between
/// `curr` and `next` on each axis, as in the 2D case.
pub proof fn lemma_zero_tension_on_chord_3d(pts: Seq<Point3D>, o: SplineOpts3D, i: int, k: int)
    requires
        pts.len() >= 2,
        0 <= i < intervals(pts.len() as int, o.closed),
        0 <= k < o.num_of_segments,
        effective_tension(pts[i].tension, o.tension) == 0,
    ensures
        ({
            let q = spline_seq_3d(pts, o)[i * (o.num_of_segments as int) + k];
            let c = pts[i];
            let n = window_next(pts, o.closed, i);
            let s = o.num_of_segments as int;
            let b1 = crate::basis::basis1(k, s);
            let b2 = crate::basis::basis2(k, s);
            &&& q.x as int == (b1 * (c.x as int) + b2 * (n.x as int)) / (s * s * s)
            &&& q.y as int == (b1 * (c.y as int) + b2 * (n.y as int)) / (s * s * s)
            &&& q.z as int == (b1 * (c.z as int) + b2 * (n.z as int)) / (s * s * s)
            &&& (if c.x <= n.x { c.x } else { n.x }) <= q.x <= (if c.x <= n.x { n.x } else { c.x })
            &&& (if c.y <= n.y { c.y } else { n.y }) <= q.y <= (if c.y <= n.y { n.y } else { c.y })
            &&& (if c.z <= n.z { c.z } else { n.z }) <= q.z <= (if c.z <= n.z { n.z } else { c.z })
        }),
{
    let s = o.num_of_segments as int;
    let m = intervals(pts.len() as int, o.closed);
    let j = i * s + k;
    assert(0 <= j && j < m * s) by (nonlinear_arith)
        requires
            0 <= i < m,
            0 <= k < s,
            j == i * s + k,
    ;
    lemma_fundamental_div_mod_converse(j, s, i, k);
    let p = window_prev(pts, o.closed, o.hidden_point_at_start, i);
    let c = pts[i];
    let n = window_next(pts, o.closed, i);
    let n2 = window_next2(pts, o.closed, o.hidden_point_at_end, i);
    crate::basis::lemma_zero_tension_chord(p.x as int, c.x as int, n.x as int, n2.x as int, s, k);
    crate::basis::lemma_zero_tension_chord(p.y as int, c.y as int, n.y as int, n2.y as int, s, k);
    crate::basis::lemma_zero_tension_chord(p.z as int, c.z as int, n.z as int, n2.z as int, s, k);
}

/// Law: 3D evaluation is deterministic.
pub proof fn lemma_calc_spline_3d_deterministic(
    pts: Seq<Point3D>,
    o: SplineOpts3D,
    r1: Result<Points3D, Error>,
    r2: Result<Points3D, Error>,
)
    requires
        calc_spline_3d_post(pts, o, r1),
        calc_spline_3d_post(pts, o, r2),
    ensures
        r1 matches Ok(a) ==> (r2 matches Ok(b) && a@ == b@),
        r1 matches Err(e1) ==> (r2 matches Err(e2) && e1 == e2),
{
}

} // verus!
