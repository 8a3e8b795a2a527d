use cubic_spline::{Error, Point, Point3D, Points, Points3D};

fn points_eq(pp1: &Points3D, pp2: &Points3D) -> bool {
    pp1.get_ref()
        .iter()
        .zip(pp2.get_ref().iter())
        .all(|(p1, p2)| p1.approx_eq_with_precision(p2, 1))
}

#[test]
fn from() {
    let src1: Vec<Point3D> = vec![Point3D::new(12, 33, 10), Point3D::new(1222, 3333, 1000)];
    let src2: Vec<Point3D> = vec![Point3D::new(12, 33, 10), Point3D::new(1222, 3333, 1000)];
    let src3: Vec<(i64, i64, i64)> = vec![(12, 33, 10), (1222, 3333, 1000)];
    let src4: Vec<i64> = vec![12, 33, 10, 1222, 3333, 1000];

    let from_tuples = Points3D::from(
        src3.iter().map(|&(x, y, z)| Point3D::new(x, y, z)).collect::<Vec<_>>(),
    );
    assert!(points_eq(&Points3D::from(src1.clone()), &Points3D::from(src2)));
    assert!(points_eq(&Points3D::from(src1.clone()), &from_tuples));
    assert!(points_eq(
        &Points3D::from(src1),
        &Points3D::try_from_flatten(&src4).unwrap(),
    ));

    let src5: Vec<Point3D> = vec![Point3D::new(12, 33, 10)];
    let src6: Vec<i64> = vec![12, 33, 10, 1222];

    assert_eq!(Points3D::try_from(&src5).unwrap_err(), Error::TooFewPoints);
    assert_eq!(Points3D::try_from_flatten(&src6).unwrap_err(), Error::MissingY);
}

#[test]
fn try_from_flatten_errors() {
    assert_eq!(
        Points::try_from_flatten(&vec![1, 2, 3]).unwrap_err(),
        Error::MissingY
    );
    assert_eq!(
        Points::try_from_flatten(&vec![1, 2]).unwrap_err(),
        Error::TooFewPoints
    );
    assert_eq!(
        Points3D::try_from_flatten(&vec![1, 2, 3, 4, 5]).unwrap_err(),
        Error::MissingZ
    );
    assert_eq!(
        Points3D::try_from_flatten(&vec![1, 2, 3]).unwrap_err(),
        Error::TooFewPoints
    );
    let ok = Points::try_from_flatten(&vec![10, 20, 30, 40]).unwrap();
    assert_eq!(ok.get_ref().len(), 2);
    assert_eq!(ok.get_ref()[0].x, 10);
    assert_eq!(ok.get_ref()[0].y, 20);
    assert_eq!(ok.get_ref()[1].x, 30);
    assert_eq!(ok.get_ref()[1].y, 40);
}

#[test]
fn error_messages() {
    assert_eq!(Error::TooFewPoints.message(), "too few points");
    assert_eq!(Error::MissingY.message(), "missing y coordinate");
    assert_eq!(Error::MissingZ.message(), "missing z coordinate");
}

#[test]
fn approx_eq_points() {
    assert!(Point::new(12, 35).approx_eq(&Point::new(12, 35)));
    assert!(!Point::new(12, 35).approx_eq(&Point::new(13, 35)));
    assert!(Point::new(10, 10).approx_eq_with_precision(&Point::new(11, 10), 2));
    assert!(!Point::new(10, 10).approx_eq_with_precision(&Point::new(12, 10), 2));
    assert!(Point3D::new(12, 35, 10).approx_eq(&Point3D::new(12, 35, 10)));
    assert!(!Point3D::new(12, 35, 10).approx_eq(&Point3D::new(12, 35, 11)));
}

#[test]
fn invert_point_coordinates() {
    let mut p = Point::new(1, 3);
    p.invert_horizontally(3);
    assert_eq!(p.x, 2);
    assert_eq!(p.y, 3);
    let mut q = Point::new(1, 3);
    q.invert_vertically(7);
    assert_eq!(q.x, 1);
    assert_eq!(q.y, 4);
    let mut r = Point3D::new(1, 3, 5);
    r.invert_horizontally(3);
    assert_eq!((r.x, r.y, r.z), (2, 3, 5));
    r.invert_vertically(7);
    assert_eq!((r.x, r.y, r.z), (2, 4, 5));
}

#[test]
fn with_tension_keeps_override() {
    let p = Point::with_tension(4, 5, 250);
    assert_eq!(p.tension, Some(250));
    let q = Point3D::with_tension(4, 5, 6, 0);
    assert_eq!(q.tension, Some(0));
    assert_eq!(Point::new(4, 5).tension, None);
}

#[test]
fn get_mut_and_into_inner() {
    let mut pts = Points::from(vec![Point::new(1, 2), Point::new(3, 4)]);
    pts.get_mut()[0] = Point::new(9, 9);
    let inner = pts.into_inner();
    assert_eq!(inner[0].x, 9);
    assert_eq!(inner[1].y, 4);
    let mut pts3 = Points3D::from(vec![Point3D::new(1, 2, 3), Point3D::new(4, 5, 6)]);
    pts3.get_mut()[1] = Point3D::new(7, 8, 9);
    assert_eq!(pts3.into_inner()[1].z, 9);
}
