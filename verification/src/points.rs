use vstd::prelude::*;

verus! {

use crate::{Error, DEFAULT_APPROX_EQ_PRECISION};

/// A point in the 2D coordinate system: fixed-point coordinates and an
/// optional tension override for the interval that starts at this point.
#[derive(Clone, Copy, Debug)]
pub struct Point {
    /// x-axis point value.
    pub x: i64,
    /// y-axis point value.
    pub y: i64,
    /// Optional tension of the curve between this point and the next
    /// point, in `TENSION_UNIT` fixed-point units.
    pub tension: Option<i64>,
}

impl Point {
    /// Creates a new point with no tension override.
    pub fn new(x: i64, y: i64) -> (p: Point)
        ensures
            p == (Point { x, y, tension: None }),
    {
        Point { x, y, tension: None }
    }

    /// Creates a new point with a tension override for the interval
    /// between it and the next point.
    pub fn with_tension(x: i64, y: i64, tension: i64) -> (p: Point)
        ensures
            p == (Point { x, y, tension: Some(tension) }),
    {
        Point { x, y, tension: Some(tension) }
    }

    /// Tests approximate equality of the coordinates with the default
    /// precision `DEFAULT_APPROX_EQ_PRECISION`.
    pub fn approx_eq(&self, other: &Point) -> (r: bool)
        ensures
            r == (vstd::math::abs(self.x - other.x) < DEFAULT_APPROX_EQ_PRECISION
                && vstd::math::abs(self.y - other.y) < DEFAULT_APPROX_EQ_PRECISION),
    {
        self.approx_eq_with_precision(other, DEFAULT_APPROX_EQ_PRECISION)
    }

    /// Tests approximate equality of the coordinates: both axis
    /// differences must be strictly below `precision` in magnitude.
    pub fn approx_eq_with_precision(&self, other: &Point, precision: i64) -> (r: bool)
        ensures
            r == (vstd::math::abs(self.x - other.x) < precision && vstd::math::abs(
                self.y - other.y,
            ) < precision),
    {
        let dx: i128 = (self.x as i128) - (other.x as i128);
        let dy: i128 = (self.y as i128) - (other.y as i128);
        let adx: i128 = if dx < 0 {
            -dx
        } else {
            dx
        };
        let ady: i128 = if dy < 0 {
            -dy
        } else {
            dy
        };
        adx < (precision as i128) && ady < (precision as i128)
    }

    /// Inverts the x-value of the point based on the width of the
    /// canvas.
    pub fn invert_horizontally(&mut self, width: i64)
        requires
            i64::MIN <= width - old(self).x <= i64::MAX,
        ensures
            final(self).x == width - old(self).x,
            final(self).y == old(self).y,
            final(self).tension == old(self).tension,
    {
        self.x = width - self.x;
    }

    /// Inverts the y-value of the point based on the height of the
    /// canvas.
    pub fn invert_vertically(&mut self, height: i64)
        requires
            i64::MIN <= height - old(self).y <= i64::MAX,
        ensures
            final(self).x == old(self).x,
            final(self).y == height - old(self).y,
            final(self).tension == old(self).tension,
    {
        self.y = height - self.y;
    }
}

/// Wrapper for the source points of a 2D curve: the unit of input and
/// output of the evaluation engine, viewed as the sequence of its
/// points in traversal order.
#[derive(Clone, Debug)]
pub struct Points(pub Vec<Point>);

impl View for Points {
    type V = Seq<Point>;

    open spec fn view(&self) -> Seq<Point> {
        self.0@
    }
}

/// The points a flat `[x, y, x, y, ...]` coordinate list denotes.
pub open spec fn points_of_flat(flat: Seq<i64>) -> Seq<Point> {
    Seq::new((flat.len() / 2) as nat, |i: int| Point { x: flat[2 * i], y: flat[2 * i + 1], tension: None })
}

impl Points {
    /// Gets a reference to the underlying `Vec<Point>`.
    pub fn get_ref(&self) -> (r: &Vec<Point>)
        ensures
            r@ == self@,
    {
        &self.0
    }

    /// Gets a mutable reference to the underlying `Vec<Point>`.
    pub fn get_mut(&mut self) -> (r: &mut Vec<Point>)
        ensures
            r@ == old(self)@,
            final(self).0 == *final(r),
    {
        &mut self.0
    }

    /// Consumes the `Points`, returning the wrapped `Vec<Point>`.
    pub fn into_inner(self) -> (r: Vec<Point>)
        ensures
            r@ == self@,
    {
        self.0
    }

    /// The stricter construction path: accepts the points only when at
    /// least three are given.
    pub fn try_from(pts: &Vec<Point>) -> (r: Result<Points, Error>)
        ensures
            pts@.len() >= 3 ==> (r matches Ok(ps) && ps@ == pts@),
            pts@.len() < 3 ==> r == Result::<Points, Error>::Err(Error::TooFewPoints),
    {
        if pts.len() < 3 {
            Err(Error::TooFewPoints)
        } else {
            let mut v: Vec<Point> = Vec::new();
            let mut i: usize = 0;
            while i < pts.len()
                invariant
                    i <= pts@.len(),
                    v@ =~= pts@.subrange(0, i as int),
                decreases pts@.len() - i,
            {
                v.push(pts[i]);
                i = i + 1;
            }
            proof {
                assert(v@ =~= pts@);
            }
            Ok(Points(v))
        }
    }

    /// Builds points from a flat sequence of fixed-point numbers where
    /// the value at an even index is `x` and the value at an odd index
    /// is `y`.
    pub fn try_from_flatten(flat: &Vec<i64>) -> (r: Result<Points, Error>)
        ensures
            flat@.len() % 2 == 1 ==> r == Result::<Points, Error>::Err(Error::MissingY),
            flat@.len() % 2 == 0 && flat@.len() / 2 < 2 ==> r == Result::<Points, Error>::Err(
                Error::TooFewPoints,
            ),
            flat@.len() % 2 == 0 && flat@.len() / 2 >= 2 ==> (r matches Ok(ps) && ps@
                == points_of_flat(flat@)),
    {
        if flat.len() % 2 == 1 {
            return Err(Error::MissingY);
        }
        let flen = flat.len();
        let count = flen / 2;
        let mut v: Vec<Point> = Vec::new();
        let mut i: usize = 0;
        while i < count
            invariant
                flen == flat@.len(),
                count == flat@.len() / 2,
                flat@.len() % 2 == 0,
                i <= count,
                v@.len() == i as int,
                forall|j: int| 0 <= j < i as int ==> v@[j] == points_of_flat(flat@)[j],
            decreases count - i,
        {
            proof {
                vstd::arithmetic::div_mod::lemma_fundamental_div_mod(flat@.len() as int, 2);
                assert(flat@.len() as int == 2 * (flat@.len() as int / 2));
                assert(2 * (i as int) + 1 < flat@.len() as int);
            }
            v.push(Point::new(flat[2 * i], flat[2 * i + 1]));
            i = i + 1;
        }
        if v.len() < 2 {
            return Err(Error::TooFewPoints);
        }
        proof {
            assert(v@ =~= points_of_flat(flat@));
        }
        Ok(Points(v))
    }
}

impl From<Vec<Point>> for Points {
    /// Wraps an already prepared list of points.
    fn from(v: Vec<Point>) -> (r: Points) {
        Points(v)
    }
}

impl vstd::std_specs::convert::FromSpecImpl<Vec<Point>> for Points {
    open spec fn obeys_from_spec() -> bool {
        true
    }

    open spec fn from_spec(v: Vec<Point>) -> Points {
        Points(v)
    }
}

} // verus!
