use vstd::prelude::*;

verus! {

use crate::{Error, DEFAULT_APPROX_EQ_PRECISION};

/// A point in the 3D coordinate system: fixed-point coordinates and an
/// optional tension override for the interval that starts at this point.
#[derive(Clone, Copy, Debug)]
pub struct Point3D {
    /// x-axis point value.
    pub x: i64,
    /// y-axis point value.
    pub y: i64,
    /// z-axis point value.
    pub z: i64,
    /// Optional tension of the curve between this point and the next
    /// point, in `TENSION_UNIT` fixed-point units.
    pub tension: Option<i64>,
}

impl Point3D {
    /// Creates a new point with no tension override.
    pub fn new(x: i64, y: i64, z: i64) -> (p: Point3D)
        ensures
            p == (Point3D { x, y, z, tension: None }),
    {
        Point3D { x, y, z, tension: None }
    }

    /// Creates a new point with a tension override for the interval
    /// between it and the next point.
    pub fn with_tension(x: i64, y: i64, z: i64, tension: i64) -> (p: Point3D)
        ensures
            p == (Point3D { x, y, z, tension: Some(tension) }),
    {
        Point3D { x, y, z, tension: Some(tension) }
    }

    /// Tests approximate equality of the coordinates with the default
    /// precision `DEFAULT_APPROX_EQ_PRECISION`.
    pub fn approx_eq(&self, other: &Point3D) -> (r: bool)
        ensures
            r == (vstd::math::abs(self.x - other.x) < DEFAULT_APPROX_EQ_PRECISION
                && vstd::math::abs(self.y - other.y) < DEFAULT_APPROX_EQ_PRECISION
                && vstd::math::abs(self.z - other.z) < DEFAULT_APPROX_EQ_PRECISION),
    {
        self.approx_eq_with_precision(other, DEFAULT_APPROX_EQ_PRECISION)
    }

    /// Tests approximate equality of the coordinates: all three axis
    /// differences must be strictly below `precision` in magnitude.
    pub fn approx_eq_with_precision(&self, other: &Point3D, precision: i64) -> (r: bool)
        ensures
            r == (vstd::math::abs(self.x - other.x) < precision && vstd::math::abs(
                self.y - other.y,
            ) < precision && vstd::math::abs(self.z - other.z) < precision),
    {
        let dx: i128 = (self.x as i128) - (other.x as i128);
        let dy: i128 = (self.y as i128) - (other.y as i128);
        let dz: i128 = (self.z as i128) - (other.z as i128);
        let adx: i128 = if dx < 0 {
            -dx
        } else {
            dx
        };
        let ady: i128 = if dy < 0 {
            -dy
        } else {
            dy
        };
        let adz: i128 = if dz < 0 {
            -dz
        } else {
            dz
        };
        adx < (precision as i128) && ady < (precision as i128) && adz < (precision as i128)
    }

    /// Inverts the x-value of the point based on the width of the
    /// canvas.
    pub fn invert_horizontally(&mut self, width: i64)
        requires
            i64::MIN <= width - old(self).x <= i64::MAX,
        ensures
            final(self).x == width - old(self).x,
            final(self).y == old(self).y,
            final(self).z == old(self).z,
            final(self).tension == old(self).tension,
    {
        self.x = width - self.x;
    }

    /// Inverts the y-value of the point based on the height of the
    /// canvas.
    pub fn invert_vertically(&mut self, height: i64)
        requires
            i64::MIN <= height - old(self).y <= i64::MAX,
        ensures
            final(self).x == old(self).x,
            final(self).y == height - old(self).y,
            final(self).z == old(self).z,
            final(self).tension == old(self).tension,
    {
        self.y = height - self.y;
    }
}

/// Wrapper for the source points of a 3D curve: the unit of input and
/// output of the evaluation engine, viewed as the sequence of its
/// points in traversal order.
#[derive(Clone, Debug)]
pub struct Points3D(pub Vec<Point3D>);

impl View for Points3D {
    type V = Seq<Point3D>;

    open spec fn view(&self) -> Seq<Point3D> {
        self.0@
    }
}

/// The points a flat `[x, y, z, x, y, z, ...]` coordinate list denotes.
pub open spec fn points_of_flat_3d(flat: Seq<i64>) -> Seq<Point3D> {
    Seq::new(
        (flat.len() / 3) as nat,
        |i: int| Point3D { x: flat[3 * i], y: flat[3 * i + 1], z: flat[3 * i + 2], tension: None },
    )
}

impl Points3D {
    /// Gets a reference to the underlying `Vec<Point3D>`.
    pub fn get_ref(&self) -> (r: &Vec<Point3D>)
        ensures
            r@ == self@,
    {
        &self.0
    }

    /// Gets a mutable reference to the underlying `Vec<Point3D>`.
    pub fn get_mut(&mut self) -> (r: &mut Vec<Point3D>)
        ensures
            r@ == old(self)@,
            final(self).0 == *final(r),
    {
        &mut self.0
    }

    /// Consumes the `Points3D`, returning the wrapped `Vec<Point3D>`.
    pub fn into_inner(self) -> (r: Vec<Point3D>)
        ensures
            r@ == self@,
    {
        self.0
    }

    /// The stricter construction path: accepts the points only when at
    /// least three are given.
    pub fn try_from(pts: &Vec<Point3D>) -> (r: Result<Points3D, Error>)
        ensures
            pts@.len() >= 3 ==> (r matches Ok(ps) && ps@ == pts@),
            pts@.len() < 3 ==> r == Result::<Points3D, Error>::Err(Error::TooFewPoints),
    {
        if pts.len() < 3 {
            Err(Error::TooFewPoints)
        } else {
            let mut v: Vec<Point3D> = Vec::new();
            let mut i: usize = 0;
            while i < pts.len()
                invariant
                    i <= pts@.len(),
                    v@ =~= pts@.subrange(0, i as int),
                decreases pts@.len() - i,
            {
                v.push(pts[i]);
                i = i + 1;
            }
            proof {
                assert(v@ =~= pts@);
            }
            Ok(Points3D(v))
        }
    }

    /// Builds points from a flat sequence of fixed-point numbers taken
    /// in groups of three: `x`, then `y`, then `z`.
    pub fn try_from_flatten(flat: &Vec<i64>) -> (r: Result<Points3D, Error>)
        ensures
            flat@.len() % 3 == 1 ==> r == Result::<Points3D, Error>::Err(Error::MissingY),
            flat@.len() % 3 == 2 ==> r == Result::<Points3D, Error>::Err(Error::MissingZ),
            flat@.len() % 3 == 0 && flat@.len() / 3 < 2 ==> r == Result::<Points3D, Error>::Err(
                Error::TooFewPoints,
            ),
            flat@.len() % 3 == 0 && flat@.len() / 3 >= 2 ==> (r matches Ok(ps) && ps@
                == points_of_flat_3d(flat@)),
    {
        if flat.len() % 3 == 1 {
            return Err(Error::MissingY);
        }
        if flat.len() % 3 == 2 {
            return Err(Error::MissingZ);
        }
        let flen = flat.len();
        let count = flen / 3;
        let mut v: Vec<Point3D> = Vec::new();
        let mut i: usize = 0;
        while i < count
            invariant
                flen == flat@.len(),
                count == flat@.len() / 3,
                flat@.len() % 3 == 0,
                i <= count,
                v@.len() == i as int,
                forall|j: int| 0 <= j < i as int ==> v@[j] == points_of_flat_3d(flat@)[j],
            decreases count - i,
        {
            proof {
                vstd::arithmetic::div_mod::lemma_fundamental_div_mod(flat@.len() as int, 3);
                assert(flat@.len() as int == 3 * (flat@.len() as int / 3));
                assert(3 * (i as int) + 2 < flat@.len() as int);
            }
            v.push(Point3D::new(flat[3 * i], flat[3 * i + 1], flat[3 * i + 2]));
            i = i + 1;
        }
        if v.len() < 2 {
            return Err(Error::TooFewPoints);
        }
        proof {
            assert(v@ =~= points_of_flat_3d(flat@));
        }
        Ok(Points3D(v))
    }
}

impl From<Vec<Point3D>> for Points3D {
    /// Wraps an already prepared list of points.
    fn from(v: Vec<Point3D>) -> (r: Points3D) {
        Points3D(v)
    }
}

impl vstd::std_specs::convert::FromSpecImpl<Vec<Point3D>> for Points3D {
    open spec fn obeys_from_spec() -> bool {
        true
    }

    open spec fn from_spec(v: Vec<Point3D>) -> Points3D {
        Points3D(v)
    }
}

} // verus!
