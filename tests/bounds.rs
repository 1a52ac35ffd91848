use t_spline::bounds::Bounds;
use t_spline::scalar::Scalar;
use t_spline::tspline::TSpline;

fn sc(x: f64) -> Scalar {
    Scalar::from_raw((x * 4294967296.0).round() as i64)
}

#[test]
fn it_finds_the_center() {
    let b = Bounds { s: (sc(0.0), sc(1.0)), t: (sc(0.0), sc(1.0)) };

    assert_eq!(b.center(), (sc(0.5), sc(0.5)));
}

#[test]
fn it_interpolates_types() {
    let b = Bounds { s: (Scalar::zero(), Scalar::one()), t: (Scalar::zero(), Scalar::one()) };

    assert_eq!(b.interpolate(0, 10), (Scalar::zero(), Scalar::zero()));
    assert_eq!(b.interpolate(99, 10), (Scalar::one(), Scalar::one()));
}

#[test]
fn interpolation_runs_row_major() {
    let b = Bounds { s: (sc(0.), sc(2.)), t: (sc(1.), sc(3.)) };
    assert_eq!(b.interpolate(1, 3), (sc(1.), sc(1.)));
    assert_eq!(b.interpolate(3, 3), (sc(0.), sc(2.)));
    assert_eq!(b.interpolate(8, 3), (sc(2.), sc(3.)));
    assert_eq!(b.interpolate(5, 1), (sc(0.), sc(1.)));
}

#[test]
fn mesh_bounds_and_area() {
    let mesh = TSpline::new_t_junction().into_mesh();
    let b = mesh.bounds();
    assert_eq!(b.s, (sc(0.), sc(2.)));
    assert_eq!(b.t, (sc(0.), sc(2.)));
    assert_eq!(b.area(), sc(4.));
}

#[test]
fn empty_bounds_are_inverted() {
    let b = Bounds::default();
    assert_eq!(b.s, (Scalar::from_raw(i64::MAX), Scalar::from_raw(i64::MIN)));
}
