use t_spline::mesh::{EdgeID, FaceID, TMesh, VertID};
use t_spline::scalar::Scalar;
use t_spline::tspline::TSpline;

fn sc(x: f64) -> Scalar {
    Scalar::from_raw((x * 4294967296.0).round() as i64)
}

fn unit_square_tmesh() -> TMesh {
    TSpline::new_unit_square().into_mesh()
}

#[test]
fn it_finds_face_edges() {
    let mesh = unit_square_tmesh();

    let edges = mesh.face_edges(FaceID(0));
    assert_eq!(4, edges.len());
}

#[test]
fn it_can_infer_local_knots() {
    let mesh = unit_square_tmesh();

    let (s_knots, t_knots) = mesh.infer_local_knots(VertID(0));
    assert_eq!([sc(0.), sc(0.), sc(0.), sc(0.), sc(1.)], s_knots);
    assert_eq!([sc(0.), sc(0.), sc(0.), sc(0.), sc(1.)], t_knots);
}

#[test]
fn opposite_corner_knots_end_with_multiplicity_four() {
    let mesh = unit_square_tmesh();
    let (s_knots, t_knots) = mesh.infer_local_knots(VertID(2));
    assert_eq!([sc(0.), sc(1.), sc(1.), sc(1.), sc(1.)], s_knots);
    assert_eq!([sc(0.), sc(1.), sc(1.), sc(1.), sc(1.)], t_knots);
}

#[test]
fn t_junction_knots_use_the_face_fallback() {
    let mesh = TSpline::new_t_junction().into_mesh();
    let (s_knots, t_knots) = mesh.infer_local_knots(VertID(3));
    // the ray towards -S finds no edge and crosses the pentagon's left side
    assert_eq!([sc(0.), sc(0.), sc(1.), sc(2.), sc(2.)], s_knots);
    assert_eq!([sc(0.), sc(0.), sc(1.), sc(2.), sc(2.)], t_knots);
}

#[test]
fn boundary_vertices_have_a_fourfold_end_knot() {
    for mesh in [
        TSpline::new_unit_square().into_mesh(),
        TSpline::new_t_junction().into_mesh(),
        TSpline::new_simple().into_mesh(),
    ] {
        let b = mesh.bounds();
        for (i, v) in mesh.vertices.iter().enumerate() {
            let (s_knots, t_knots) = mesh.infer_local_knots(VertID(i));
            let four = |k: [Scalar; 5]| {
                (k[0] == k[1] && k[1] == k[2] && k[2] == k[3])
                    || (k[1] == k[2] && k[2] == k[3] && k[3] == k[4])
            };
            if v.uv.s == b.s.0 || v.uv.s == b.s.1 {
                assert!(four(s_knots), "vertex {i}: {s_knots:?}");
            }
            if v.uv.t == b.t.0 || v.uv.t == b.t.1 {
                assert!(four(t_knots), "vertex {i}: {t_knots:?}");
            }
        }
    }
}

#[test]
fn it_finds_edges_between_neighbours() {
    let mesh = unit_square_tmesh();
    assert_eq!(mesh.find_edge(VertID(0), VertID(1)), Some(EdgeID(0)));
    assert_eq!(mesh.find_edge(VertID(1), VertID(0)), Some(EdgeID(4)));
    assert_eq!(mesh.find_edge(VertID(0), VertID(2)), None);
}

#[test]
fn half_edge_links_are_consistent() {
    for mesh in [
        TSpline::new_unit_square().into_mesh(),
        TSpline::new_t_junction().into_mesh(),
        TSpline::new_simple().into_mesh(),
        TSpline::new_rounded_cube().into_mesh(),
    ] {
        assert!(mesh.is_well_formed());
        for (i, e) in mesh.edges.iter().enumerate() {
            assert_eq!(mesh.edge(mesh.edge(EdgeID(i)).prev).next, EdgeID(i));
            assert_eq!(mesh.edge(e.next).prev, EdgeID(i));
            if let Some(t) = e.twin {
                assert_eq!(mesh.edge(t).twin, Some(EdgeID(i)));
                assert_eq!(mesh.edge(t).origin, mesh.edge(e.next).origin);
            }
        }
    }
}

#[test]
fn face_walks_close_without_repeats() {
    let mesh = TSpline::new_t_junction().into_mesh();
    let sizes: Vec<usize> = (0..3).map(|f| mesh.face_edges(FaceID(f)).len()).collect();
    assert_eq!(sizes, vec![5, 4, 4]);
    for f in 0..3 {
        let edges = mesh.face_edges(FaceID(f));
        let last = *edges.last().unwrap();
        assert_eq!(mesh.edge(last).next, mesh.face(FaceID(f)).edge);
        let mut sorted = edges.clone();
        sorted.sort_by_key(|e| e.0);
        sorted.dedup();
        assert_eq!(sorted.len(), edges.len());
    }
}

#[test]
fn spokes_return_to_the_start() {
    let mesh = TSpline::new_t_junction().into_mesh();
    for v in &mesh.vertices {
        let start = v.outgoing_edge.unwrap();
        let mut e = start;
        let mut steps = 0;
        loop {
            e = mesh.edge(mesh.edge(e).prev).twin.unwrap();
            steps += 1;
            if e == start {
                break;
            }
            assert!(steps <= mesh.edges.len());
        }
    }
}

#[test]
fn broken_links_are_not_well_formed() {
    let mut mesh = unit_square_tmesh();
    mesh.edges[0].next = EdgeID(2);
    assert!(!mesh.is_well_formed());
}

#[test]
fn t_junction_mesh_is_analysis_suitable() {
    let mesh = TSpline::new_t_junction().into_mesh();
    assert!(mesh.validate_asts());
}

#[test]
fn conversions_and_defaults() {
    let mesh: TMesh = TSpline::new_unit_square().into();
    assert_eq!(mesh.edges.len(), 8);
    let spline: TSpline = mesh.into();
    assert_eq!(spline.mesh().vertices.len(), 4);
    let empty = TSpline::default();
    assert!(empty.mesh().vertices.is_empty() && empty.mesh().edges.is_empty());
    assert!(TMesh::default().faces.is_empty());
}

#[test]
fn seed_tables_match_their_layout() {
    let m = TSpline::new_unit_square().into_mesh();
    for (i, e) in m.edges.iter().enumerate() {
        assert!(e.twin.is_some(), "edge {i}");
    }
    assert_eq!(m.find_edge(VertID(0), VertID(3)), Some(EdgeID(7)));
    let s = TSpline::new_simple().into_mesh();
    let flagged: Vec<usize> =
        (0..s.vertices.len()).filter(|&v| s.vertices[v].is_t_junction).collect();
    assert_eq!(flagged, vec![4]);
}
