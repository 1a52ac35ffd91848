use t_spline::bounds::Bounds;
use t_spline::eval::Tessellate;
use t_spline::mesh::{FaceID, Point3, TMesh, VertID};
use t_spline::scalar::Scalar;
use t_spline::tspline::{Command, CommandMut, SetGeometry, TSpline};

const ONE: f64 = 4294967296.0;

fn sc(x: f64) -> Scalar {
    Scalar::from_raw((x * ONE).round() as i64)
}

fn fl(x: Scalar) -> f64 {
    x.raw as f64 / ONE
}

fn pt(x: f64, y: f64, z: f64) -> Point3 {
    Point3 { x: sc(x), y: sc(y), z: sc(z) }
}

fn at(mesh: &TMesh, s: f64, t: f64) -> Option<Point3> {
    let knots = mesh.knot_vectors();
    mesh.subs((sc(s), sc(t)), &knots)
}

#[test]
fn tessellate_it_can_evaluate_points_on_square() {
    let square = TSpline::new_unit_square();
    assert_eq!(Some(pt(0., 0., 0.)), at(square.mesh(), 0.0, 0.0));
    assert_eq!(Some(pt(1., 0., 0.)), at(square.mesh(), 1.0, 0.0));
    assert_eq!(Some(pt(0., 1., 0.)), at(square.mesh(), 0.0, 1.0));
    assert_eq!(Some(pt(1., 1., 0.)), at(square.mesh(), 1.0, 1.0));
}

#[test]
fn tessellate_it_can_tessellate_a_square() {
    let square = TSpline::new_unit_square();
    let points = square.apply(&mut Tessellate { resolution: 2 });

    assert_eq!(4, points.len());

    assert_eq!(pt(0., 0., 0.), points[0]);
    assert_eq!(pt(1., 0., 0.), points[1]);
    assert_eq!(pt(0., 1., 0.), points[2]);
    assert_eq!(pt(1., 1., 0.), points[3]);
}

#[test]
fn tessellate_it_can_evaluate_center() {
    let square = TSpline::new_unit_square();
    let center = at(square.mesh(), 0.5, 0.5).unwrap();

    let expected = (0.5, 0.5, 0.0);
    let diff = (fl(center.x) - expected.0, fl(center.y) - expected.1, fl(center.z) - expected.2);
    assert!(
        diff.0.abs() < 1e-9 && diff.1.abs() < 1e-9 && diff.2.abs() < 1e-9,
        "Center mismatch: expected {:?}, got {:?}",
        expected,
        center
    );
}

#[test]
fn tessellate_it_can_tessellate_square() {
    let square = TSpline::new_unit_square();
    let resolution = 10;
    let points = square.apply(&mut Tessellate { resolution });

    assert_eq!(points.len(), resolution * resolution);

    for p in points {
        assert!(fl(p.x) >= -1e-9 && fl(p.x) <= 1.0 + 1e-9);
        assert!(fl(p.y) >= -1e-9 && fl(p.y) <= 1.0 + 1e-9);
        assert!((fl(p.z) - 0.0).abs() < 1e-9);
    }
}

#[test]
fn tessellate_it_can_create_and_evaluate_t_junction_mesh() {
    let mut t_mesh = TSpline::new_t_junction();

    // lift the T-junction; the spline should stay symmetrical
    let j = t_mesh.mesh().vertices.iter().position(|v| v.is_t_junction).unwrap();
    let mut geometry = t_mesh.mesh().vertices[j].geometry;
    geometry.z = sc(0.5);
    assert!(t_mesh.apply_mut(&mut SetGeometry { vertex: VertID(j), geometry }));

    let corner = at(t_mesh.mesh(), 0.0, 0.0).unwrap();
    assert!((fl(corner.z) - 0.0).abs() < 1e-9);

    let mut f1_bounds = Bounds::default();
    f1_bounds.add_face(t_mesh.mesh(), FaceID(1));
    assert_eq!(sc(1.), f1_bounds.area());
    let f1_center = f1_bounds.center();
    let f1 = at(t_mesh.mesh(), fl(f1_center.0), fl(f1_center.1)).unwrap();

    let mut f2_bounds = Bounds::default();
    f2_bounds.add_face(t_mesh.mesh(), FaceID(2));
    assert_eq!(sc(1.), f2_bounds.area());
    let f2_center = f2_bounds.center();
    let f2 = at(t_mesh.mesh(), fl(f2_center.0), fl(f2_center.1)).unwrap();

    assert_eq!(f1.z, f2.z, "t-spline is not symmetrical");
}

#[test]
fn tesselation_it_can_evaluate_points_on_square() {
    let square = TSpline::new_unit_square();

    assert_eq!(Some(pt(0., 0., 0.)), at(square.mesh(), 0.0, 0.0));
    assert_eq!(Some(pt(1., 0., 0.)), at(square.mesh(), 1.0, 0.0));
}

#[test]
fn corner_raised_moves_only_its_corner() {
    let mut spline = TSpline::new_unit_square();
    let mut geometry = spline.mesh().vertices[0].geometry;
    geometry.z = sc(1.0);
    assert!(spline.apply_mut(&mut SetGeometry { vertex: VertID(0), geometry }));
    let points = spline.apply(&mut Tessellate { resolution: 10 });
    assert_eq!(points.len(), 100);
    assert!(fl(points[0].z) > 0.5);
    assert_eq!(points[0], pt(0., 0., 1.));
    assert!(fl(points[99].z).abs() < 1e-9);
}

#[test]
fn resolution_one_gives_the_min_corner() {
    let square = TSpline::new_unit_square();
    let points = square.apply(&mut Tessellate { resolution: 1 });
    assert_eq!(points, vec![pt(0., 0., 0.)]);
}

#[test]
fn resolution_zero_gives_nothing() {
    let square = TSpline::new_unit_square();
    let points = square.apply(&mut Tessellate { resolution: 0 });
    assert!(points.is_empty());
}

#[test]
fn weight_sum_is_positive_inside_the_square() {
    let square = TSpline::new_unit_square();
    let mesh = square.mesh();
    let knots = mesh.knot_vectors();
    for &(s, t) in &[(0.1, 0.2), (0.5, 0.5), (0.25, 0.75), (0.9, 0.9), (0.33, 0.66)] {
        let mut sum = 0.0;
        for (i, v) in mesh.vertices.iter().enumerate() {
            let bs = t_spline::basis::cubic_basis_function(sc(s), &knots[i].0);
            let bt = t_spline::basis::cubic_basis_function(sc(t), &knots[i].1);
            sum += fl(bs) * fl(bt) * fl(v.geometry.w);
        }
        assert!(sum > 0.0, "weight sum at ({s}, {t}) is {sum}");
        assert!(at(mesh, s, t).is_some());
    }
}

#[test]
fn outside_the_support_the_basis_is_zero() {
    let knots = [sc(0.), sc(0.), sc(0.), sc(0.), sc(1.)];
    assert_eq!(t_spline::basis::cubic_basis_function(sc(-0.5), &knots), sc(0.));
    assert_eq!(t_spline::basis::cubic_basis_function(sc(1.5), &knots), sc(0.));
    assert_eq!(t_spline::basis::cubic_basis_function(sc(0.), &knots), sc(1.));
    assert_eq!(t_spline::basis::cubic_basis_function(sc(0.5), &knots), sc(0.125));
}

#[test]
fn uniform_basis_peaks_at_two_thirds() {
    let knots = [sc(0.), sc(1.), sc(2.), sc(3.), sc(4.)];
    let b = t_spline::basis::cubic_basis_function(sc(2.), &knots);
    assert!((fl(b) - 2.0 / 3.0).abs() < 1e-8);
}

#[test]
fn simple_patch_evaluates_inside() {
    let simple = TSpline::new_simple();
    assert!(simple.mesh().is_well_formed());
    let p = at(simple.mesh(), 0.0, 0.0).unwrap();
    assert_eq!(p, pt(0., 0., 0.));
    let points = simple.apply(&mut Tessellate { resolution: 3 });
    assert_eq!(points.len(), 9);
}

#[test]
fn setting_geometry_of_a_missing_vertex_changes_nothing() {
    let mut spline = TSpline::new_unit_square();
    let geometry = spline.mesh().vertices[0].geometry;
    assert!(!spline.apply_mut(&mut SetGeometry { vertex: VertID(9), geometry }));
    assert_eq!(spline.mesh().vertices.len(), 4);
}

#[test]
fn closures_are_read_only_commands() {
    let square = TSpline::new_unit_square();
    let count = square.apply(&mut |m: &TMesh| m.vertices.len());
    assert_eq!(count, 4);
    let bounds = square.apply(&mut |m: &TMesh| m.bounds());
    assert_eq!(bounds.s, (sc(0.), sc(1.)));
}

#[test]
fn wrapper_tessellates_like_the_command() {
    let square = TSpline::new_t_junction();
    let a = square.tessellate(4);
    let b = square.apply(&mut Tessellate { resolution: 4 });
    assert_eq!(a, b);
    assert_eq!(square.subs((sc(0.), sc(0.))), Some(pt(0., 0., 0.)));
}

#[test]
fn commands_apply_through_their_own_methods() {
    let mut spline = TSpline::new_unit_square();
    let points = Tessellate { resolution: 2 }.apply(&spline);
    assert_eq!(points.len(), 4);
    let mut geometry = spline.mesh().vertices[2].geometry;
    geometry.z = sc(2.0);
    assert!(SetGeometry { vertex: VertID(2), geometry }.apply(&mut spline));
    assert_eq!(spline.mesh().vertices[2].geometry.z, sc(2.0));
}
