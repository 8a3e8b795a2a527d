use cubic_spline::{
    calc_spline, calc_spline_3d, Error, Point, Point3D, Points, Points3D, Spline, SplineOpts,
    SplineOpts3D, DEFAULT_SEGMENTS, DEFAULT_TENSION, TENSION_UNIT,
};

fn pts2(coords: &[(i64, i64)]) -> Points {
    Points::from(coords.iter().map(|&(x, y)| Point::new(x, y)).collect::<Vec<_>>())
}

fn pts3(coords: &[(i64, i64, i64)]) -> Points3D {
    Points3D::from(coords.iter().map(|&(x, y, z)| Point3D::new(x, y, z)).collect::<Vec<_>>())
}

/// Float Catmull-Rom reference for one axis, mirroring the engine's
/// formulas with real arithmetic; the fixed-point engine must stay
/// within one unit of it (its one flooring division).
fn float_axis(p: f64, c: f64, n: f64, n2: f64, tension: f64, s: u32, k: u32) -> f64 {
    let st = f64::from(k) / f64::from(s);
    let st2 = st * st;
    let st3 = st2 * st;
    let c1 = 2.0 * st3 - 3.0 * st2 + 1.0;
    let c2 = -2.0 * st3 + 3.0 * st2;
    let c3 = st3 - 2.0 * st2 + st;
    let c4 = st3 - st2;
    let t1 = (n - p) * tension;
    let t2 = (n2 - c) * tension;
    c1 * c + c2 * n + c3 * t1 + c4 * t2
}

/// Resolves the window of interval `i` for an open curve without
/// hidden anchors, as the generator's boundary rules say.
fn open_window(coords: &[(i64, i64)], i: usize) -> [(i64, i64); 4] {
    let n = coords.len();
    let prev = if i == 0 { coords[0] } else { coords[i - 1] };
    let next = coords[i + 1];
    let next2 = if i == n - 2 { coords[i + 1] } else { coords[i + 2] };
    [prev, coords[i], next, next2]
}

#[test]
fn scenario_a_open_three_points() {
    let points = pts2(&[(10, 10), (33, 27), (51, 9)]);
    let opts = SplineOpts::new().tension(500).num_of_segments(16);
    let curve = calc_spline(&points, &opts).unwrap();
    let v = curve.get_ref();
    assert_eq!(v.len(), 33);
    assert_eq!((v[0].x, v[0].y), (10, 10));
    assert_eq!((v[32].x, v[32].y), (51, 9));
    for p in v.iter() {
        assert_eq!(p.tension, None);
    }
}

#[test]
fn scenario_a_matches_float_reference() {
    let coords = [(10i64, 10i64), (33, 27), (51, 9)];
    let points = pts2(&coords);
    let opts = SplineOpts::new().tension(500).num_of_segments(16);
    let curve = calc_spline(&points, &opts).unwrap();
    let v = curve.get_ref();
    let tension = 500.0 / TENSION_UNIT as f64;
    for i in 0..2usize {
        let w = open_window(&coords, i);
        for k in 0..16u32 {
            let out = &v[i * 16 + k as usize];
            let fx = float_axis(
                w[0].0 as f64, w[1].0 as f64, w[2].0 as f64, w[3].0 as f64, tension, 16, k,
            );
            let fy = float_axis(
                w[0].1 as f64, w[1].1 as f64, w[2].1 as f64, w[3].1 as f64, tension, 16, k,
            );
            assert!((out.x as f64 - fx).abs() < 1.0 + 1e-6);
            assert!((out.y as f64 - fy).abs() < 1.0 + 1e-6);
        }
    }
}

#[test]
fn scenario_b_three_points_3d() {
    let points = pts3(&[(10, 10, 10), (33, 27, 15), (51, 9, 0)]);
    let opts = SplineOpts3D::new().tension(500).num_of_segments(16);
    let curve = calc_spline_3d(&points, &opts).unwrap();
    let v = curve.get_ref();
    assert_eq!(v.len(), 33);
    assert_eq!((v[0].x, v[0].y, v[0].z), (10, 10, 10));
    assert_eq!((v[32].x, v[32].y, v[32].z), (51, 9, 0));
    // The z channel is interpolated independently, with the same basis
    // weights: it must match the float reference computed on z alone.
    let zs = [10i64, 15, 0];
    let tension = 0.5;
    for i in 0..2usize {
        let (zp, zc, zn, zn2) = if i == 0 {
            (zs[0], zs[0], zs[1], zs[2])
        } else {
            (zs[0], zs[1], zs[2], zs[2])
        };
        for k in 0..16u32 {
            let fz = float_axis(zp as f64, zc as f64, zn as f64, zn2 as f64, tension, 16, k);
            let out = &v[i * 16 + k as usize];
            assert!((out.z as f64 - fz).abs() < 1.0 + 1e-6);
        }
    }
}

#[test]
fn scenario_c_two_points_degenerate() {
    let points = pts2(&[(0, 0), (10, 0)]);
    let opts = SplineOpts::new().tension(500).num_of_segments(4);
    let curve = calc_spline(&points, &opts).unwrap();
    let v = curve.get_ref();
    assert_eq!(v.len(), 5);
    assert_eq!((v[0].x, v[0].y), (0, 0));
    assert_eq!((v[4].x, v[4].y), (10, 0));
    // Exact fixed-point samples: with both fallback rules triggered the
    // tangents are t1 = 5, t2 = 0, and the four interior weights give
    // floor values 2, 5 and 7.
    assert_eq!(v[1].x, 2);
    assert_eq!(v[2].x, 5);
    assert_eq!(v[3].x, 7);
    let mut last_x = 0;
    for p in v.iter() {
        assert_eq!(p.y, 0);
        assert!(0 <= p.x && p.x <= 10);
        assert!(p.x >= last_x);
        last_x = p.x;
    }
}

#[test]
fn closed_curve_returns_to_start() {
    let points = pts2(&[(0, 0), (100, 0), (50, 80)]);
    let opts = SplineOpts::new().tension(500).num_of_segments(8).closed(true);
    let curve = calc_spline(&points, &opts).unwrap();
    let v = curve.get_ref();
    assert_eq!(v.len(), 3 * 8 + 1);
    assert_eq!((v[0].x, v[0].y), (0, 0));
    assert_eq!((v[24].x, v[24].y), (0, 0));
    // Each interval starts exactly at its control point.
    assert_eq!((v[8].x, v[8].y), (100, 0));
    assert_eq!((v[16].x, v[16].y), (50, 80));
}

#[test]
fn closed_curve_matches_float_reference() {
    let coords = [(0i64, 0i64), (100, 0), (50, 80)];
    let points = pts2(&coords);
    let opts = SplineOpts::new().tension(500).num_of_segments(8).closed(true);
    let curve = calc_spline(&points, &opts).unwrap();
    let v = curve.get_ref();
    let n = coords.len();
    for i in 0..n {
        // Closed windows wrap cyclically, also at the seam.
        let w = [
            coords[(i + n - 1) % n],
            coords[i],
            coords[(i + 1) % n],
            coords[(i + 2) % n],
        ];
        for k in 0..8u32 {
            let out = &v[i * 8 + k as usize];
            let fx = float_axis(
                w[0].0 as f64, w[1].0 as f64, w[2].0 as f64, w[3].0 as f64, 0.5, 8, k,
            );
            let fy = float_axis(
                w[0].1 as f64, w[1].1 as f64, w[2].1 as f64, w[3].1 as f64, 0.5, 8, k,
            );
            assert!((out.x as f64 - fx).abs() < 1.0 + 1e-6);
            assert!((out.y as f64 - fy).abs() < 1.0 + 1e-6);
        }
    }
}

#[test]
fn hidden_anchors_match_float_reference() {
    let coords = [(0i64, 0i64), (100, 0), (200, 100)];
    let start = (-100i64, -200i64);
    let end = (300i64, 400i64);
    let opts = SplineOpts::new()
        .tension(500)
        .num_of_segments(8)
        .hidden_point_at_start(Point::new(start.0, start.1))
        .hidden_point_at_end(Point::new(end.0, end.1));
    let curve = calc_spline(&pts2(&coords), &opts).unwrap();
    let v = curve.get_ref();
    // Window 0 takes the hidden start as prev; the last window takes
    // the hidden end as next2.
    let windows = [
        [start, coords[0], coords[1], coords[2]],
        [coords[0], coords[1], coords[2], end],
    ];
    for (i, w) in windows.iter().enumerate() {
        for k in 0..8u32 {
            let out = &v[i * 8 + k as usize];
            let fx = float_axis(
                w[0].0 as f64, w[1].0 as f64, w[2].0 as f64, w[3].0 as f64, 0.5, 8, k,
            );
            let fy = float_axis(
                w[0].1 as f64, w[1].1 as f64, w[2].1 as f64, w[3].1 as f64, 0.5, 8, k,
            );
            assert!((out.x as f64 - fx).abs() < 1.0 + 1e-6);
            assert!((out.y as f64 - fy).abs() < 1.0 + 1e-6);
        }
    }
}

#[test]
fn tension_zero_stays_on_chord() {
    let coords = [(0i64, 0i64), (100, 0), (100, 100)];
    let points = pts2(&coords);
    let opts = SplineOpts::new().tension(0).num_of_segments(10);
    let curve = calc_spline(&points, &opts).unwrap();
    let v = curve.get_ref();
    assert_eq!(v.len(), 21);
    for i in 0..2usize {
        let c = coords[i];
        let n = coords[i + 1];
        for k in 0..10usize {
            let q = &v[i * 10 + k];
            assert!(c.0.min(n.0) <= q.x && q.x <= c.0.max(n.0));
            assert!(c.1.min(n.1) <= q.y && q.y <= c.1.max(n.1));
        }
    }
}

#[test]
fn repeated_evaluation_is_identical() {
    let points = pts2(&[(10, 10), (33, 27), (51, 9), (7, 4)]);
    let opts = SplineOpts::new().tension(777).num_of_segments(12);
    let a = calc_spline(&points, &opts).unwrap();
    let b = calc_spline(&points, &opts).unwrap();
    assert_eq!(a.get_ref().len(), b.get_ref().len());
    for (p, q) in a.get_ref().iter().zip(b.get_ref().iter()) {
        assert_eq!((p.x, p.y, p.tension), (q.x, q.y, q.tension));
    }
}

#[test]
fn hidden_anchors_shape_the_ends() {
    let base = [(0i64, 0i64), (100, 0), (200, 100)];
    let plain_opts = SplineOpts::new().tension(500).num_of_segments(8);
    let shaped_opts = SplineOpts::new()
        .tension(500)
        .num_of_segments(8)
        .hidden_point_at_start(Point::new(-100, -200))
        .hidden_point_at_end(Point::new(300, 400));
    let plain = calc_spline(&pts2(&base), &plain_opts).unwrap();
    let shaped = calc_spline(&pts2(&base), &shaped_opts).unwrap();
    let pv = plain.get_ref();
    let sv = shaped.get_ref();
    // Anchors bend the curve but are never emitted: same length, same
    // endpoints, same interval starts.
    assert_eq!(pv.len(), sv.len());
    assert_eq!(sv.len(), 17);
    assert_eq!((sv[0].x, sv[0].y), (0, 0));
    assert_eq!((sv[8].x, sv[8].y), (100, 0));
    assert_eq!((sv[16].x, sv[16].y), (200, 100));
    // Between the anchors the interiors differ.
    assert!(pv.iter().zip(sv.iter()).any(|(p, q)| (p.x, p.y) != (q.x, q.y)));
}

#[test]
fn hidden_end_bends_a_two_point_curve() {
    let base = [(0i64, 0i64), (100, 0)];
    let plain_opts = SplineOpts::new().tension(500).num_of_segments(8);
    let shaped_opts = SplineOpts::new()
        .tension(500)
        .num_of_segments(8)
        .hidden_point_at_end(Point::new(100, 400));
    let plain = calc_spline(&pts2(&base), &plain_opts).unwrap();
    let shaped = calc_spline(&pts2(&base), &shaped_opts).unwrap();
    assert_eq!(plain.get_ref().len(), shaped.get_ref().len());
    assert!(plain
        .get_ref()
        .iter()
        .zip(shaped.get_ref().iter())
        .any(|(p, q)| (p.x, p.y) != (q.x, q.y)));
}

#[test]
fn per_point_tension_override_wins() {
    let straight = pts2(&[(0, 0), (100, 0), (100, 100)]);
    let overridden = Points::from(vec![
        Point::new(0, 0),
        Point::with_tension(100, 0, 0),
        Point::new(100, 100),
    ]);
    let opts = SplineOpts::new().tension(900).num_of_segments(8);
    let a = calc_spline(&straight, &opts).unwrap();
    let b = calc_spline(&overridden, &opts).unwrap();
    // The second interval starts at the overriding point, so its
    // samples collapse to the chord there while the plain run bends.
    assert!(a
        .get_ref()
        .iter()
        .zip(b.get_ref().iter())
        .skip(9)
        .take(7)
        .any(|(p, q)| (p.x, p.y) != (q.x, q.y)));
    // With the override the second interval lies exactly on its chord.
    for k in 0..8usize {
        let q = &b.get_ref()[8 + k];
        assert!(q.x == 100 && 0 <= q.y && q.y <= 100);
    }
}

#[test]
fn zero_segments_yield_only_the_closing_point() {
    let points = pts2(&[(10, 20), (30, 40), (50, 60)]);
    let opts = SplineOpts::new().tension(500).num_of_segments(0);
    let curve = calc_spline(&points, &opts).unwrap();
    assert_eq!(curve.get_ref().len(), 1);
    assert_eq!((curve.get_ref()[0].x, curve.get_ref()[0].y), (50, 60));
    let closed_opts = SplineOpts::new().tension(500).num_of_segments(0).closed(true);
    let closed_curve = calc_spline(&points, &closed_opts).unwrap();
    assert_eq!(closed_curve.get_ref().len(), 1);
    assert_eq!((closed_curve.get_ref()[0].x, closed_curve.get_ref()[0].y), (10, 20));
}

#[test]
fn too_few_points_is_rejected() {
    let one = pts2(&[(5, 5)]);
    let none = pts2(&[]);
    for opts in [
        SplineOpts::new(),
        SplineOpts::new().closed(true),
        SplineOpts::new().num_of_segments(0).tension(-100),
        SplineOpts::new().hidden_point_at_start(Point::new(1, 1)),
    ] {
        assert_eq!(calc_spline(&one, &opts).unwrap_err(), Error::TooFewPoints);
        assert_eq!(calc_spline(&none, &opts).unwrap_err(), Error::TooFewPoints);
    }
    let one3 = pts3(&[(5, 5, 5)]);
    assert_eq!(
        calc_spline_3d(&one3, &SplineOpts3D::new()).unwrap_err(),
        Error::TooFewPoints
    );
}

#[test]
fn flat_facade_round_trip() {
    let flat: Vec<i64> = vec![10, 200, 256, 390, 512, 10, 778, 200];
    let opts = SplineOpts::default();
    let out = Spline::from_flatten_points(&flat, &opts);
    assert_eq!(out.len(), 2 * ((4 - 1) * DEFAULT_SEGMENTS as usize + 1));
    assert_eq!((out[0], out[1]), (10, 200));
    assert_eq!((out[out.len() - 2], out[out.len() - 1]), (778, 200));
}

#[test]
fn flat_facade_rejects_malformed_input() {
    let opts = SplineOpts::default();
    assert!(Spline::from_flatten_points(&vec![1, 2, 3], &opts).is_empty());
    assert!(Spline::from_flatten_points(&vec![1, 2], &opts).is_empty());
    assert!(Spline::from_flatten_points(&vec![], &opts).is_empty());
}

#[test]
fn tuple_facade_interpolates() {
    let tuples: Vec<(i64, i64)> = vec![(10, 200), (256, 390), (512, 10), (778, 200)];
    let opts = SplineOpts::default();
    let out = Spline::from_tuples(&tuples, &opts);
    assert_eq!(out.len(), (4 - 1) * DEFAULT_SEGMENTS as usize + 1);
    let (last_x, last_y) = *out.last().unwrap();
    assert_eq!((last_x, last_y), (778, 200));
    assert!(Spline::from_tuples(&vec![(1, 2)], &opts).is_empty());
}

#[test]
fn builders_and_getters() {
    let o = SplineOpts::new()
        .tension(700)
        .num_of_segments(16)
        .hidden_point_at_start(Point::new(1, 2))
        .hidden_point_at_end(Point::new(3, 4))
        .closed(true);
    assert_eq!(o.get_tension(), 700);
    assert_eq!(o.get_num_of_segments(), 16);
    assert_eq!(o.get_hidden_point_at_start().map(|p| (p.x, p.y)), Some((1, 2)));
    assert_eq!(o.get_hidden_point_at_end().map(|p| (p.x, p.y)), Some((3, 4)));
    assert!(o.get_closed());

    let d = SplineOpts::default();
    assert_eq!(d.get_tension(), DEFAULT_TENSION);
    assert_eq!(d.get_num_of_segments(), DEFAULT_SEGMENTS);
    assert!(d.get_hidden_point_at_start().is_none());
    assert!(d.get_hidden_point_at_end().is_none());
    assert!(!d.get_closed());

    let o3 = SplineOpts3D::new()
        .tension(700)
        .num_of_segments(16)
        .hidden_point_at_start(Point3D::new(1, 2, 3))
        .closed(false);
    assert_eq!(o3.get_tension(), 700);
    assert_eq!(o3.get_num_of_segments(), 16);
    assert_eq!(
        o3.get_hidden_point_at_start().map(|p| (p.x, p.y, p.z)),
        Some((1, 2, 3))
    );
    assert!(o3.get_hidden_point_at_end().is_none());
    assert!(!o3.get_closed());
    assert_eq!(SplineOpts3D::default().get_num_of_segments(), DEFAULT_SEGMENTS);
}

#[test]
fn method_form_matches_free_function() {
    let points = pts2(&[(10, 10), (33, 27), (51, 9)]);
    let opts = SplineOpts::new().tension(500).num_of_segments(16);
    let a = calc_spline(&points, &opts).unwrap();
    let b = points.calc_spline(&opts).unwrap();
    assert_eq!(a.get_ref().len(), b.get_ref().len());
    for (p, q) in a.get_ref().iter().zip(b.get_ref().iter()) {
        assert_eq!((p.x, p.y), (q.x, q.y));
    }
    let points3 = pts3(&[(10, 10, 0), (33, 27, 5), (51, 9, 9)]);
    let opts3 = SplineOpts3D::new().tension(500).num_of_segments(16);
    let c = points3.calc_spline(&opts3).unwrap();
    assert_eq!(c.get_ref().len(), 33);
}
