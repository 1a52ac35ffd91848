use t_spline::mesh::ParamPoint;
use t_spline::scalar::Scalar;
use t_spline::segment::Segment;

fn sc(x: f64) -> Scalar {
    Scalar::from_raw((x * 4294967296.0).round() as i64)
}

fn p(s: f64, t: f64) -> ParamPoint {
    ParamPoint { s: sc(s), t: sc(t) }
}

fn seg(s1: f64, t1: f64, s2: f64, t2: f64) -> Segment {
    Segment { start: p(s1, t1), end: p(s2, t2) }
}

#[test]
fn segment_it_detects_intersections() {
    let cases = vec![
        // identical segments (collinear overlap)
        (seg(0., 0., 1., 0.), seg(0., 0., 1., 0.)),
        // crossing (X shape)
        (seg(0., 0., 2., 2.), seg(0., 2., 2., 0.)),
        // one ends on the other (T shape)
        (seg(0., 0., 2., 0.), seg(1., 0., 1., 2.)),
        // shared endpoint (V shape)
        (seg(0., 0., 1., 1.), seg(1., 1., 2., 0.)),
        // partial collinear overlap
        (seg(0., 0., 2., 0.), seg(1., 0., 3., 0.)),
    ];
    for (a, b) in cases {
        assert!(a.intersects(&b), "{a:?} failed to intersect {b:?}");
    }
}

#[test]
fn segment_it_detects_non_intersections() {
    let cases = vec![
        // parallel, distinct
        (seg(0., 0., 1., 0.), seg(0., 1., 1., 1.)),
        // collinear but disjoint
        (seg(0., 0., 1., 0.), seg(2., 0., 3., 0.)),
        // separated
        (seg(0., 0., 1., 1.), seg(2., 2., 3., 2.)),
    ];
    for (a, b) in cases {
        assert!(!a.intersects(&b), "{a:?} detected intersection with {b:?}");
    }
}

#[test]
fn intersection_is_symmetric_on_samples() {
    let segs = vec![
        seg(0., 0., 1., 0.),
        seg(0., 0., 2., 2.),
        seg(0., 2., 2., 0.),
        seg(1., 0., 1., 2.),
        seg(2., 2., 3., 2.),
        seg(0.5, -1., 0.5, 0.),
    ];
    for a in &segs {
        for b in &segs {
            assert_eq!(a.intersects(b), b.intersects(a));
        }
    }
}

#[test]
fn cross_and_orient() {
    assert_eq!(Segment::cross(p(1., 0.), p(0., 1.)), sc(1.));
    assert_eq!(Segment::cross(p(0., 1.), p(1., 0.)), sc(-1.));
    assert_eq!(Segment::orient(p(0., 0.), p(2., 0.), p(1., 3.)), sc(6.));
    assert_eq!(Segment::orient(p(0., 0.), p(2., 0.), p(1., 0.)), sc(0.));
}
