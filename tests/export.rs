use t_spline::export::{ObjWriter, PlyWriter};
use t_spline::mesh::Point3;
use t_spline::scalar::Scalar;
use t_spline::text::push_scalar;
use t_spline::tspline::TSpline;

fn sc(x: f64) -> Scalar {
    Scalar::from_raw((x * 4294967296.0).round() as i64)
}

fn pt(x: f64, y: f64, z: f64) -> Point3 {
    Point3 { x: sc(x), y: sc(y), z: sc(z) }
}

fn text(x: Scalar) -> String {
    let mut s = String::new();
    push_scalar(&mut s, x);
    s
}

#[test]
fn scalars_print_as_short_decimals() {
    assert_eq!(text(sc(0.)), "0");
    assert_eq!(text(sc(1.)), "1");
    assert_eq!(text(sc(-1.)), "-1");
    assert_eq!(text(sc(0.5)), "0.5");
    assert_eq!(text(sc(-2.25)), "-2.25");
    assert_eq!(text(sc(123.0625)), "123.0625");
    assert_eq!(text(sc(0.001)), "0.000999999");
    assert_eq!(text(Scalar::from_raw(-1)), "0");
}

#[test]
fn obj_points() {
    let mut out = String::new();
    ObjWriter::new()
        .with_points("grid", &[pt(0., 0., 0.), pt(1., 0.5, -2.)])
        .write(&mut out);
    assert_eq!(out, "o grid\nv 0 0 0\nv 1 0.5 -2\n");
}

#[test]
fn obj_triangles_number_from_one_across_objects() {
    let mut out = String::new();
    ObjWriter::new()
        .with_points("a", &[pt(0., 0., 0.)])
        .with_triangles("b", &[pt(1., 0., 0.), pt(0., 1., 0.), pt(1., 1., 0.)], &[[0, 1, 2]])
        .write(&mut out);
    assert_eq!(out, "o a\nv 0 0 0\no b\nv 1 0 0\nv 0 1 0\nv 1 1 0\nf 2 3 4\n");
}

#[test]
fn obj_control_surface() {
    let mesh = TSpline::new_unit_square().into_mesh();
    let mut out = String::new();
    ObjWriter::new().with_control_surface("cage", &mesh).write(&mut out);
    assert_eq!(
        out,
        "o cage\nv 0 0 0\nv 1 0 0\nv 1 1 0\nv 0 1 0\n\
         l 1 2\nl 2 3\nl 3 4\nl 4 1\nl 2 1\nl 3 2\nl 4 3\nl 1 4\n"
    );
}

#[test]
fn ply_points() {
    let mut out = String::new();
    PlyWriter::new().with_point(&[pt(0., 0., 0.), pt(0.5, 1., 2.)]).write(&mut out);
    assert_eq!(
        out,
        "ply\nformat ascii 1.0\nelement vertex 2\nproperty float x\nproperty float y\n\
         property float z\nend_header\n0 0 0\n0.5 1 2\n"
    );
}

#[test]
fn ply_geometry() {
    let mesh = TSpline::new_unit_square().into_mesh();
    let mut out = String::new();
    PlyWriter::new().with_geometry(&mesh).write(&mut out);
    assert!(out.starts_with(
        "ply\nformat ascii 1.0\nelement vertex 4\nproperty float x\nproperty float y\n\
         property float z\nelement edge 8\nproperty int vertex1\nproperty int vertex2\nend_header\n"
    ));
    assert!(out.ends_with("0 1\n1 2\n2 3\n3 0\n1 0\n2 1\n3 2\n0 3\n"));
}
