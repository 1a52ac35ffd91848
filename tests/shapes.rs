use t_spline::tspline::TSpline;

#[test]
fn test_rounded_cube_topology() {
    let spline = TSpline::new_rounded_cube();
    let mesh = spline.into_mesh();

    assert_eq!(mesh.vertices.len(), 14, "Should have 14 vertices");
    assert_eq!(mesh.edges.len(), 24, "Should have 24 half-edges");
    assert_eq!(mesh.faces.len(), 6, "Should have 6 faces");

    assert!(mesh.validate_asts(), "Mesh should be Analysis-Suitable (no T-junctions)");
}
