use vstd::prelude::*;

pub mod basis;
pub mod calc;
pub mod opts;
pub mod opts3d;
pub mod points;
pub mod points3d;
pub mod window;

pub use calc::{calc_spline, calc_spline_3d};
pub use opts::SplineOpts;
pub use opts3d::SplineOpts3D;
pub use points::{Point, Points};
pub use points3d::{Point3D, Points3D};

verus! {

/// Fixed-point denominator for tension values: a tension of one is
/// represented as `TENSION_UNIT`, so a tension field holding `500`
/// means one half.
pub const TENSION_UNIT: i64 = 1000;

/// Tension used when neither the options nor the point carry one:
/// one half, in `TENSION_UNIT` fixed-point units.
pub const DEFAULT_TENSION: i64 = 500;

/// Number of sampled points per interval when the options do not say.
pub const DEFAULT_SEGMENTS: u32 = 16;

/// Precision used by `approx_eq`: coordinates whose difference is
/// strictly below this count as equal.
pub const DEFAULT_APPROX_EQ_PRECISION: i64 = 1;

/// Largest coordinate magnitude the engine accepts; keeps every
/// intermediate product of the interpolation inside 128 bits.
pub const COORD_LIMIT: i64 = 1_000_000_000_000;

/// Largest tension magnitude (in `TENSION_UNIT` units) the engine accepts.
pub const TENSION_LIMIT: i64 = 10_000_000;

/// Largest number of segments per interval the engine accepts.
pub const SEGMENTS_LIMIT: u32 = 100_000;

/// What can go wrong while building point collections or evaluating a curve.
#[derive(Clone, Copy, Debug, PartialEq, Eq, Structural)]
pub enum Error {
    /// Fewer control points than the operation needs.
    TooFewPoints,
    /// A flat coordinate list ended after an `x` with no `y`.
    MissingY,
    /// A flat 3D coordinate list ended after a `y` with no `z`.
    MissingZ,
}

/// The flat `[x, y, x, y, ...]` coordinate list of a point sequence.
pub open spec fn flat_of_points(s: Seq<crate::points::Point>) -> Seq<i64> {
    Seq::new(
        (2 * s.len()) as nat,
        |j: int|
            if j % 2 == 0 {
                s[j / 2].x
            } else {
                s[j / 2].y
            },
    )
}

/// The points a list of `(x, y)` pairs denotes.
pub open spec fn points_of_tuples(s: Seq<(i64, i64)>) -> Seq<crate::points::Point> {
    Seq::new(
        s.len(),
        |i: int| crate::points::Point { x: s[i].0, y: s[i].1, tension: None },
    )
}

/// The `(x, y)` pairs of a point sequence.
pub open spec fn tuples_of_points(s: Seq<crate::points::Point>) -> Seq<(i64, i64)> {
    Seq::new(s.len(), |i: int| (s[i].x, s[i].y))
}

/// Convenience facade for calculating spline points straight from flat
/// or tuple coordinate lists.
pub struct Spline();

impl Spline {
    /// Calculates a flat vector of curve points from known points given
    /// as a flat `[x, y, x, y, ...]` list; a malformed or too short
    /// list yields an empty vector.
    pub fn from_flatten_points(points: &Vec<i64>, opts: &crate::opts::SplineOpts) -> (r: Vec<i64>)
        requires
            forall|i: int|
                0 <= i < points@.len() ==> crate::calc::coord_ok(#[trigger] points@[i]),
            crate::calc::opts_ok(*opts),
            points@.len() * (opts.num_of_segments as int) + 2 <= usize::MAX as int,
        ensures
            points@.len() % 2 == 1 || points@.len() / 2 < 2 ==> r@ == Seq::<i64>::empty(),
            points@.len() % 2 == 0 && points@.len() / 2 >= 2 ==> r@ == flat_of_points(
                crate::calc::spline_seq(crate::points::points_of_flat(points@), *opts),
            ),
    {
        let prepared = match crate::points::Points::try_from_flatten(points) {
            Ok(p) => p,
            Err(_) => {
                return Vec::new();
            },
        };
        proof {
            assert forall|i: int|
                0 <= i < prepared@.len() implies crate::calc::point_ok(
                #[trigger] prepared@[i],
            ) by {
                assert(prepared@[i] == crate::points::points_of_flat(points@)[i]);
            }
            assert(prepared@.len() * (opts.num_of_segments as int) <= points@.len() * (
            opts.num_of_segments as int)) by (nonlinear_arith)
                requires
                    0 <= prepared@.len() <= points@.len(),
                    0 <= opts.num_of_segments as int,
            ;
        }
        let curve = match crate::calc::calc_spline(&prepared, opts) {
            Ok(c) => c,
            Err(_) => {
                proof {
                    assert(false);
                }
                return Vec::new();
            },
        };
        let pts = curve.into_inner();
        proof {
            let m = prepared@.len() as int;
            let s = opts.num_of_segments as int;
            vstd::arithmetic::div_mod::lemma_fundamental_div_mod(points@.len() as int, 2);
            assert(crate::calc::intervals(m, opts.closed) * s <= m * s) by (nonlinear_arith)
                requires
                    crate::calc::intervals(m, opts.closed) <= m,
                    0 <= s,
            ;
            assert(2 * (m * s) <= points@.len() as int * s) by (nonlinear_arith)
                requires
                    2 * m <= points@.len() as int,
                    0 <= s,
            ;
        }
        let mut flat: Vec<i64> = Vec::new();
        let mut i: usize = 0;
        while i < pts.len()
            invariant
                pts@ == crate::calc::spline_seq(crate::points::points_of_flat(points@), *opts),
                i <= pts@.len(),
                2 * pts@.len() <= usize::MAX as int,
                flat@.len() == 2 * i as int,
                forall|j: int|
                    0 <= j < flat@.len() ==> flat@[j] == flat_of_points(pts@)[j],
            decreases pts@.len() - i,
        {
            let p = pts[i];
            flat.push(p.x);
            flat.push(p.y);
            proof {
                vstd::arithmetic::div_mod::lemma_fundamental_div_mod_converse(
                    2 * i as int,
                    2,
                    i as int,
                    0,
                );
                vstd::arithmetic::div_mod::lemma_fundamental_div_mod_converse(
                    2 * i as int + 1,
                    2,
                    i as int,
                    1,
                );
            }
            i = i + 1;
        }
        proof {
            assert(flat@ =~= flat_of_points(pts@));
        }
        flat
    }

    /// Calculates a vector of curve point tuples from known points
    /// given as `(x, y)` pairs; fewer than two points yield an empty
    /// vector.
    pub fn from_tuples(points: &Vec<(i64, i64)>, opts: &crate::opts::SplineOpts) -> (r: Vec<
        (i64, i64),
    >)
        requires
            forall|i: int|
                0 <= i < points@.len() ==> crate::calc::coord_ok(#[trigger] points@[i].0)
                    && crate::calc::coord_ok(points@[i].1),
            crate::calc::opts_ok(*opts),
            points@.len() * (opts.num_of_segments as int) + 1 <= usize::MAX as int,
        ensures
            points@.len() < 2 ==> r@ == Seq::<(i64, i64)>::empty(),
            points@.len() >= 2 ==> r@ == tuples_of_points(
                crate::calc::spline_seq(points_of_tuples(points@), *opts),
            ),
    {
        let mut v: Vec<crate::points::Point> = Vec::new();
        let mut i: usize = 0;
        while i < points.len()
            invariant
                i <= points@.len(),
                v@.len() == i as int,
                forall|j: int| 0 <= j < i as int ==> v@[j] == points_of_tuples(points@)[j],
            decreases points@.len() - i,
        {
            let (x, y) = points[i];
            v.push(crate::points::Point::new(x, y));
            i = i + 1;
        }
        proof {
            assert(v@ =~= points_of_tuples(points@));
        }
        let prepared = crate::points::Points(v);
        if prepared.get_ref().len() < 2 {
            return Vec::new();
        }
        proof {
            assert forall|i2: int|
                0 <= i2 < prepared@.len() implies crate::calc::point_ok(
                #[trigger] prepared@[i2],
            ) by {
                assert(prepared@[i2] == points_of_tuples(points@)[i2]);
            }
        }
        let curve = match crate::calc::calc_spline(&prepared, opts) {
            Ok(c) => c,
            Err(_) => {
                proof {
                    assert(false);
                }
                return Vec::new();
            },
        };
        let pts = curve.into_inner();
        let mut out: Vec<(i64, i64)> = Vec::new();
        let mut j: usize = 0;
        while j < pts.len()
            invariant
                pts@ == crate::calc::spline_seq(points_of_tuples(points@), *opts),
                j <= pts@.len(),
                out@.len() == j as int,
                forall|j2: int| 0 <= j2 < j as int ==> out@[j2] == tuples_of_points(pts@)[j2],
            decreases pts@.len() - j,
        {
            let p = pts[j];
            out.push((p.x, p.y));
            j = j + 1;
        }
        proof {
            assert(out@ =~= tuples_of_points(pts@));
        }
        out
    }
}

impl Error {
    /// A short human-readable description of the error.
    pub fn message(&self) -> (r: &'static str)
        ensures
            *self == Error::TooFewPoints ==> r@ == "too few points"@,
            *self == Error::MissingY ==> r@ == "missing y coordinate"@,
            *self == Error::MissingZ ==> r@ == "missing z coordinate"@,
    {
        match self {
            Error::TooFewPoints => "too few points",
            Error::MissingY => "missing y coordinate",
            Error::MissingZ => "missing z coordinate",
        }
    }
}

} // verus!
