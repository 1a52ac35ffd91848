//! Seed meshes: the unit square, a T-junction, a simple weighted patch and
//! an unfolded cube.
use vstd::prelude::*;
use crate::mesh::{
    ControlPoint, Direction, EdgeID, Face, FaceID, HalfEdge, ParamPoint, TMesh, VertID, Vector4,
};
use crate::scalar::{Scalar, ONE_RAW};
use crate::tspline::TSpline;

verus! {

/// The raw value of `1/2`.
pub const HALF_RAW: i64 = 2147483648;

/// A control point at parametric `(s, t)` with geometry `(x, y, z, w)`
/// (raw values), outgoing half-edge `out` and T-junction flag `tj`.
pub open spec fn cp(s: int, t: int, x: int, y: int, z: int, w: int, out: int, tj: bool) -> ControlPoint {
    ControlPoint {
        geometry: Vector4 {
            x: Scalar { raw: x as i64 },
            y: Scalar { raw: y as i64 },
            z: Scalar { raw: z as i64 },
            w: Scalar { raw: w as i64 },
        },
        uv: ParamPoint { s: Scalar { raw: s as i64 }, t: Scalar { raw: t as i64 } },
        outgoing_edge: Some(EdgeID(out as usize)),
        is_t_junction: tj,
    }
}

/// A half-edge with the given links; a negative `twin` or `face` is absent.
pub open spec fn he(
    origin: int,
    next: int,
    prev: int,
    twin: int,
    face: int,
    direction: Direction,
    interval: int,
) -> HalfEdge {
    HalfEdge {
        origin: VertID(origin as usize),
        twin: if twin < 0 {
            None
        } else {
            Some(EdgeID(twin as usize))
        },
        face: if face < 0 {
            None
        } else {
            Some(FaceID(face as usize))
        },
        next: EdgeID(next as usize),
        prev: EdgeID(prev as usize),
        knot_interval: Scalar { raw: interval as i64 },
        direction,
    }
}

fn point(s: i64, t: i64, x: i64, y: i64, z: i64, w: i64, out: usize, tj: bool) -> (r: ControlPoint)
    requires
        out < usize::MAX,
    ensures
        r == cp(s as int, t as int, x as int, y as int, z as int, w as int, out as int, tj),
        r.uv == (ParamPoint { s: Scalar { raw: s }, t: Scalar { raw: t } }),
        r.geometry == (Vector4 {
            x: Scalar { raw: x },
            y: Scalar { raw: y },
            z: Scalar { raw: z },
            w: Scalar { raw: w },
        }),
        r.outgoing_edge == Some(EdgeID(out)),
        r.is_t_junction == tj,
{
    ControlPoint {
        geometry: Vector4 {
            x: Scalar { raw: x },
            y: Scalar { raw: y },
            z: Scalar { raw: z },
            w: Scalar { raw: w },
        },
        uv: ParamPoint { s: Scalar { raw: s }, t: Scalar { raw: t } },
        outgoing_edge: Some(EdgeID(out)),
        is_t_junction: tj,
    }
}

/// A half-edge; `usize::MAX` stands for a missing twin or face.
fn half_edge(
    origin: usize,
    next: usize,
    prev: usize,
    twin: usize,
    face: usize,
    direction: Direction,
    interval: i64,
) -> (r: HalfEdge)
    ensures
        r.origin == VertID(origin),
        r.next == EdgeID(next),
        r.prev == EdgeID(prev),
        r.twin == if twin == usize::MAX {
            None
        } else {
            Some(EdgeID(twin))
        },
        r.face == if face == usize::MAX {
            None
        } else {
            Some(FaceID(face))
        },
        r.direction == direction,
        r.knot_interval == (Scalar { raw: interval }),
        r == he(
            origin as int,
            next as int,
            prev as int,
            if twin == usize::MAX { -1 } else { twin as int },
            if face == usize::MAX { -1 } else { face as int },
            direction,
            interval as int,
        ),
{
    HalfEdge {
        origin: VertID(origin),
        twin: if twin == usize::MAX {
            None
        } else {
            Some(EdgeID(twin))
        },
        face: if face == usize::MAX {
            None
        } else {
            Some(FaceID(face))
        },
        next: EdgeID(next),
        prev: EdgeID(prev),
        knot_interval: Scalar { raw: interval },
        direction,
    }
}

/// Marks a missing twin or face.
const NONE: usize = usize::MAX;

/// Vertex `v` of `m` sits at the raw parametric location `(s, t)`.
pub open spec fn placed_at(m: TMesh, v: int, s: int, t: int) -> bool {
    m.vertices@[v].uv.s.val() == s && m.vertices@[v].uv.t.val() == t
}

/// Every control point of `m` has weight one and stands at `(s, t, z)`
/// over its parametric location, with `z` as given.
pub open spec fn flat_geometry(m: TMesh, zs: Seq<int>) -> bool {
    forall|v: int|
        0 <= v < m.nv() ==> {
            let c = #[trigger] m.vertices@[v];
            &&& c.geometry.x == c.uv.s
            &&& c.geometry.y == c.uv.t
            &&& c.geometry.z.val() == zs[v]
            &&& c.geometry.w.val() == ONE_RAW
        }
}

/// Every half-edge of `m` has knot interval `k`.
pub open spec fn uniform_intervals(m: TMesh, k: int) -> bool {
    forall|e: int| 0 <= e < m.ne() ==> (#[trigger] m.edges@[e]).knot_interval.val() == k
}

/// The control points of the unit square seed.
pub open spec fn unit_square_vertices() -> Seq<ControlPoint> {
    seq![
        cp(0, 0, 0, 0, 0, ONE_RAW as int, 0, false),
        cp(ONE_RAW as int, 0, ONE_RAW as int, 0, 0, ONE_RAW as int, 1, false),
        cp(ONE_RAW as int, ONE_RAW as int, ONE_RAW as int, ONE_RAW as int, 0, ONE_RAW as int, 2, false),
        cp(0, ONE_RAW as int, 0, ONE_RAW as int, 0, ONE_RAW as int, 3, false),
    ]
}

/// The half-edges of the unit square seed.
pub open spec fn unit_square_edges() -> Seq<HalfEdge> {
    seq![
        he(0, 1, 3, 4, 0, Direction::S, ONE_RAW as int),
        he(1, 2, 0, 5, 0, Direction::T, ONE_RAW as int),
        he(2, 3, 1, 6, 0, Direction::S, ONE_RAW as int),
        he(3, 0, 2, 7, 0, Direction::T, ONE_RAW as int),
        he(1, 7, 5, 0, -1, Direction::S, ONE_RAW as int),
        he(2, 4, 6, 1, -1, Direction::T, ONE_RAW as int),
        he(3, 5, 7, 2, -1, Direction::S, ONE_RAW as int),
        he(0, 6, 4, 3, -1, Direction::T, ONE_RAW as int),
    ]
}

/// The faces of the unit square seed.
pub open spec fn unit_square_faces() -> Seq<Face> {
    seq![
        Face { edge: EdgeID(0) },
    ]
}

/// The control points of the t junction seed.
pub open spec fn t_junction_vertices() -> Seq<ControlPoint> {
    seq![
        cp(0, 0, 0, 0, 0, ONE_RAW as int, 0, false),
        cp(ONE_RAW as int, 0, ONE_RAW as int, 0, 0, ONE_RAW as int, 1, false),
        cp(2 * ONE_RAW, 0, 2 * ONE_RAW, 0, 0, ONE_RAW as int, 6, false),
        cp(ONE_RAW as int, ONE_RAW as int, ONE_RAW as int, ONE_RAW as int, 0, ONE_RAW as int, 2, true),
        cp(2 * ONE_RAW, ONE_RAW as int, 2 * ONE_RAW, ONE_RAW as int, 0, ONE_RAW as int, 7, false),
        cp(0, 2 * ONE_RAW, 0, 2 * ONE_RAW, 0, ONE_RAW as int, 4, false),
        cp(ONE_RAW as int, 2 * ONE_RAW, ONE_RAW as int, 2 * ONE_RAW, 0, ONE_RAW as int, 3, false),
        cp(2 * ONE_RAW, 2 * ONE_RAW, 2 * ONE_RAW, 2 * ONE_RAW, 0, ONE_RAW as int, 11, false),
    ]
}

/// The half-edges of the t junction seed.
pub open spec fn t_junction_edges() -> Seq<HalfEdge> {
    seq![
        he(0, 1, 4, 13, 0, Direction::S, ONE_RAW as int),
        he(1, 2, 0, 8, 0, Direction::T, ONE_RAW as int),
        he(3, 3, 1, 12, 0, Direction::T, ONE_RAW as int),
        he(6, 4, 2, 18, 0, Direction::S, ONE_RAW as int),
        he(5, 0, 3, 19, 0, Direction::T, ONE_RAW as int),
        he(1, 6, 8, 14, 1, Direction::S, ONE_RAW as int),
        he(2, 7, 5, 15, 1, Direction::T, ONE_RAW as int),
        he(4, 8, 6, 9, 1, Direction::S, ONE_RAW as int),
        he(3, 5, 7, 1, 1, Direction::T, ONE_RAW as int),
        he(3, 10, 12, 7, 2, Direction::S, ONE_RAW as int),
        he(4, 11, 9, 16, 2, Direction::T, ONE_RAW as int),
        he(7, 12, 10, 17, 2, Direction::S, ONE_RAW as int),
        he(6, 9, 11, 2, 2, Direction::T, ONE_RAW as int),
        he(1, 19, 14, 0, -1, Direction::S, ONE_RAW as int),
        he(2, 13, 15, 5, -1, Direction::S, ONE_RAW as int),
        he(4, 14, 16, 6, -1, Direction::T, ONE_RAW as int),
        he(7, 15, 17, 10, -1, Direction::T, ONE_RAW as int),
        he(6, 16, 18, 11, -1, Direction::S, ONE_RAW as int),
        he(5, 17, 19, 3, -1, Direction::S, ONE_RAW as int),
        he(0, 18, 13, 4, -1, Direction::T, ONE_RAW as int),
    ]
}

/// The faces of the t junction seed.
pub open spec fn t_junction_faces() -> Seq<Face> {
    seq![
        Face { edge: EdgeID(0) },
        Face { edge: EdgeID(5) },
        Face { edge: EdgeID(9) },
    ]
}

/// The control points of the simple seed.
pub open spec fn simple_vertices() -> Seq<ControlPoint> {
    seq![
        cp(0, 0, 0, 0, 0, ONE_RAW as int, 0, false),
        cp(HALF_RAW as int, 0, 2 * ONE_RAW, 0, HALF_RAW as int, ONE_RAW as int, 1, false),
        cp(ONE_RAW as int, 0, 4 * ONE_RAW, 0, 0, ONE_RAW as int, 5, false),
        cp(0, HALF_RAW as int, 0, 2 * ONE_RAW, HALF_RAW as int, ONE_RAW as int, 3, false),
        cp(HALF_RAW as int, HALF_RAW as int, 2 * ONE_RAW, 2 * ONE_RAW, -(ONE_RAW as int), ONE_RAW as int, 2, true),
        cp(ONE_RAW as int, HALF_RAW as int, 4 * ONE_RAW, 2 * ONE_RAW, HALF_RAW as int, ONE_RAW as int, 6, false),
        cp(0, ONE_RAW as int, 0, 4 * ONE_RAW, 0, ONE_RAW as int, 12, false),
        cp(ONE_RAW as int, ONE_RAW as int, 4 * ONE_RAW, 4 * ONE_RAW, 0, ONE_RAW as int, 11, false),
    ]
}

/// The half-edges of the simple seed.
pub open spec fn simple_edges() -> Seq<HalfEdge> {
    seq![
        he(0, 1, 3, 13, 0, Direction::S, HALF_RAW as int),
        he(1, 2, 0, 7, 0, Direction::T, HALF_RAW as int),
        he(4, 3, 1, 8, 0, Direction::S, HALF_RAW as int),
        he(3, 0, 2, 14, 0, Direction::T, HALF_RAW as int),
        he(1, 5, 7, 19, 1, Direction::S, HALF_RAW as int),
        he(2, 6, 4, 18, 1, Direction::T, HALF_RAW as int),
        he(5, 7, 5, 9, 1, Direction::S, HALF_RAW as int),
        he(4, 4, 6, 1, 1, Direction::T, HALF_RAW as int),
        he(3, 9, 12, 2, 2, Direction::S, HALF_RAW as int),
        he(4, 10, 8, 6, 2, Direction::S, HALF_RAW as int),
        he(5, 11, 9, 17, 2, Direction::T, HALF_RAW as int),
        he(7, 12, 10, 16, 2, Direction::S, ONE_RAW as int),
        he(6, 8, 11, 15, 2, Direction::T, HALF_RAW as int),
        he(1, 14, 19, 0, -1, Direction::S, HALF_RAW as int),
        he(0, 15, 13, 3, -1, Direction::T, HALF_RAW as int),
        he(3, 16, 14, 12, -1, Direction::T, HALF_RAW as int),
        he(6, 17, 15, 11, -1, Direction::S, ONE_RAW as int),
        he(7, 18, 16, 10, -1, Direction::T, HALF_RAW as int),
        he(5, 19, 17, 5, -1, Direction::T, HALF_RAW as int),
        he(2, 13, 18, 4, -1, Direction::S, HALF_RAW as int),
    ]
}

/// The faces of the simple seed.
pub open spec fn simple_faces() -> Seq<Face> {
    seq![
        Face { edge: EdgeID(0) },
        Face { edge: EdgeID(4) },
        Face { edge: EdgeID(8) },
    ]
}

/// The control points of the rounded cube seed.
pub open spec fn rounded_cube_vertices() -> Seq<ControlPoint> {
    seq![
        cp(0, ONE_RAW as int, -(ONE_RAW as int), -(ONE_RAW as int), -(ONE_RAW as int), ONE_RAW as int, 0, false),
        cp(ONE_RAW as int, ONE_RAW as int, -(ONE_RAW as int), -(ONE_RAW as int), ONE_RAW as int, ONE_RAW as int, 1, false),
        cp(2 * ONE_RAW, ONE_RAW as int, ONE_RAW as int, -(ONE_RAW as int), ONE_RAW as int, ONE_RAW as int, 5, false),
        cp(3 * ONE_RAW, ONE_RAW as int, ONE_RAW as int, -(ONE_RAW as int), -(ONE_RAW as int), ONE_RAW as int, 9, false),
        cp(4 * ONE_RAW, ONE_RAW as int, -(ONE_RAW as int), -(ONE_RAW as int), -(ONE_RAW as int), ONE_RAW as int, 13, false),
        cp(0, 2 * ONE_RAW, -(ONE_RAW as int), ONE_RAW as int, -(ONE_RAW as int), ONE_RAW as int, 3, false),
        cp(ONE_RAW as int, 2 * ONE_RAW, -(ONE_RAW as int), ONE_RAW as int, ONE_RAW as int, ONE_RAW as int, 2, false),
        cp(2 * ONE_RAW, 2 * ONE_RAW, ONE_RAW as int, ONE_RAW as int, ONE_RAW as int, ONE_RAW as int, 6, false),
        cp(3 * ONE_RAW, 2 * ONE_RAW, ONE_RAW as int, ONE_RAW as int, -(ONE_RAW as int), ONE_RAW as int, 10, false),
        cp(4 * ONE_RAW, 2 * ONE_RAW, -(ONE_RAW as int), ONE_RAW as int, -(ONE_RAW as int), ONE_RAW as int, 14, false),
        cp(ONE_RAW as int, 0, -(ONE_RAW as int), -(ONE_RAW as int), -(ONE_RAW as int), ONE_RAW as int, 16, false),
        cp(2 * ONE_RAW, 0, ONE_RAW as int, -(ONE_RAW as int), -(ONE_RAW as int), ONE_RAW as int, 17, false),
        cp(ONE_RAW as int, 3 * ONE_RAW, -(ONE_RAW as int), ONE_RAW as int, -(ONE_RAW as int), ONE_RAW as int, 23, false),
        cp(2 * ONE_RAW, 3 * ONE_RAW, ONE_RAW as int, ONE_RAW as int, -(ONE_RAW as int), ONE_RAW as int, 22, false),
    ]
}

/// The half-edges of the rounded cube seed.
pub open spec fn rounded_cube_edges() -> Seq<HalfEdge> {
    seq![
        he(0, 1, 3, -1, 0, Direction::S, ONE_RAW as int),
        he(1, 2, 0, 7, 0, Direction::T, ONE_RAW as int),
        he(6, 3, 1, -1, 0, Direction::S, ONE_RAW as int),
        he(5, 0, 2, -1, 0, Direction::T, ONE_RAW as int),
        he(1, 5, 7, 18, 1, Direction::S, ONE_RAW as int),
        he(2, 6, 4, 11, 1, Direction::T, ONE_RAW as int),
        he(7, 7, 5, 20, 1, Direction::S, ONE_RAW as int),
        he(6, 4, 6, 1, 1, Direction::T, ONE_RAW as int),
        he(2, 9, 11, -1, 2, Direction::S, ONE_RAW as int),
        he(3, 10, 8, 15, 2, Direction::T, ONE_RAW as int),
        he(8, 11, 9, -1, 2, Direction::S, ONE_RAW as int),
        he(7, 8, 10, 5, 2, Direction::T, ONE_RAW as int),
        he(3, 13, 15, -1, 3, Direction::S, ONE_RAW as int),
        he(4, 14, 12, -1, 3, Direction::T, ONE_RAW as int),
        he(9, 15, 13, -1, 3, Direction::S, ONE_RAW as int),
        he(8, 12, 14, 9, 3, Direction::T, ONE_RAW as int),
        he(10, 17, 19, -1, 4, Direction::S, ONE_RAW as int),
        he(11, 18, 16, -1, 4, Direction::T, ONE_RAW as int),
        he(2, 19, 17, 4, 4, Direction::S, ONE_RAW as int),
        he(1, 16, 18, -1, 4, Direction::T, ONE_RAW as int),
        he(6, 21, 23, 6, 5, Direction::S, ONE_RAW as int),
        he(7, 22, 20, -1, 5, Direction::T, ONE_RAW as int),
        he(13, 23, 21, -1, 5, Direction::S, ONE_RAW as int),
        he(12, 20, 22, -1, 5, Direction::T, ONE_RAW as int),
    ]
}

/// The faces of the rounded cube seed.
pub open spec fn rounded_cube_faces() -> Seq<Face> {
    seq![
        Face { edge: EdgeID(0) },
        Face { edge: EdgeID(4) },
        Face { edge: EdgeID(8) },
        Face { edge: EdgeID(12) },
        Face { edge: EdgeID(16) },
        Face { edge: EdgeID(20) },
    ]
}

impl TSpline {
    /// The unit square: four corners, one face, an outer boundary loop.
    pub fn new_unit_square() -> (r: TSpline)
        ensures
            r.spec_mesh().vertices@ == unit_square_vertices(),
            r.spec_mesh().edges@ == unit_square_edges(),
            r.spec_mesh().faces@ == unit_square_faces(),
            forall|e: int| 0 <= e < 8 ==> (#[trigger] r.spec_mesh().edges@[e]).twin is Some,
            r.spec_mesh().wf(),
            r.spec_mesh().nv() == 4,
            r.spec_mesh().ne() == 8,
            r.spec_mesh().nf() == 1,
            placed_at(r.spec_mesh(), 0, 0, 0),
            placed_at(r.spec_mesh(), 1, ONE_RAW as int, 0),
            placed_at(r.spec_mesh(), 2, ONE_RAW as int, ONE_RAW as int),
            placed_at(r.spec_mesh(), 3, 0, ONE_RAW as int),
            flat_geometry(r.spec_mesh(), seq![0, 0, 0, 0]),
            uniform_intervals(r.spec_mesh(), ONE_RAW as int),
            forall|e: int| 0 <= e < 4 ==> (#[trigger] r.spec_mesh().edges@[e]).face == Some(FaceID(0)),
            forall|e: int| 4 <= e < 8 ==> (#[trigger] r.spec_mesh().edges@[e]).face is None,
    {
        let o = ONE_RAW;
        let mut vs: Vec<ControlPoint> = Vec::new();
        vs.push(point(0, 0, 0, 0, 0, o, 0, false));
        vs.push(point(o, 0, o, 0, 0, o, 1, false));
        vs.push(point(o, o, o, o, 0, o, 2, false));
        vs.push(point(0, o, 0, o, 0, o, 3, false));
        let mut es: Vec<HalfEdge> = Vec::new();
        es.push(half_edge(0, 1, 3, 4, 0, Direction::S, o));
        es.push(half_edge(1, 2, 0, 5, 0, Direction::T, o));
        es.push(half_edge(2, 3, 1, 6, 0, Direction::S, o));
        es.push(half_edge(3, 0, 2, 7, 0, Direction::T, o));
        es.push(half_edge(1, 7, 5, 0, NONE, Direction::S, o));
        es.push(half_edge(2, 4, 6, 1, NONE, Direction::T, o));
        es.push(half_edge(3, 5, 7, 2, NONE, Direction::S, o));
        es.push(half_edge(0, 6, 4, 3, NONE, Direction::T, o));
        let mut fs: Vec<Face> = Vec::new();
        fs.push(Face { edge: EdgeID(0) });
        assert(vs@ =~= unit_square_vertices());
        assert(es@ =~= unit_square_edges());
        assert(fs@ =~= unit_square_faces());
        assert forall|e: int| 0 <= e < 8 implies (#[trigger] es@[e]).twin is Some by {
            assert(e == 0 || e == 1 || e == 2 || e == 3 || e == 4 || e == 5 || e == 6 || e == 7);
        }
        let mesh = TMesh { vertices: vs, edges: es, faces: fs };
        proof {
            assert forall|e: int| 0 <= e < mesh.ne() implies #[trigger] mesh.edge_wf(e) by {
                assert(e == 0 || e == 1 || e == 2 || e == 3 || e == 4 || e == 5 || e == 6 || e
                    == 7);
            }
            assert forall|v: int| 0 <= v < mesh.nv() implies #[trigger] mesh.vertex_wf(v) by {
                assert(v == 0 || v == 1 || v == 2 || v == 3);
            }
            assert(mesh.face_wf(0));
        }
        TSpline::new(mesh)
    }

    /// Three faces around a T-junction at `(1, 1)` (vertex 3): a pentagon on
    /// the left and two unit squares on the right.
    pub fn new_t_junction() -> (r: TSpline)
        ensures
            r.spec_mesh().vertices@ == t_junction_vertices(),
            r.spec_mesh().edges@ == t_junction_edges(),
            r.spec_mesh().faces@ == t_junction_faces(),
            forall|e: int| 0 <= e < 20 ==> (#[trigger] r.spec_mesh().edges@[e]).twin is Some,
            r.spec_mesh().wf(),
            r.spec_mesh().nv() == 8,
            r.spec_mesh().ne() == 20,
            r.spec_mesh().nf() == 3,
            r.spec_mesh().vertices@[3].is_t_junction,
            placed_at(r.spec_mesh(), 0, 0, 0),
            placed_at(r.spec_mesh(), 1, ONE_RAW as int, 0),
            placed_at(r.spec_mesh(), 2, 2 * ONE_RAW, 0),
            placed_at(r.spec_mesh(), 3, ONE_RAW as int, ONE_RAW as int),
            placed_at(r.spec_mesh(), 4, 2 * ONE_RAW, ONE_RAW as int),
            placed_at(r.spec_mesh(), 5, 0, 2 * ONE_RAW),
            placed_at(r.spec_mesh(), 6, ONE_RAW as int, 2 * ONE_RAW),
            placed_at(r.spec_mesh(), 7, 2 * ONE_RAW, 2 * ONE_RAW),
            flat_geometry(r.spec_mesh(), seq![0, 0, 0, 0, 0, 0, 0, 0]),
            uniform_intervals(r.spec_mesh(), ONE_RAW as int),
    {
        let o = ONE_RAW;
        let mut vs: Vec<ControlPoint> = Vec::new();
        vs.push(point(0, 0, 0, 0, 0, o, 0, false));
        vs.push(point(o, 0, o, 0, 0, o, 1, false));
        vs.push(point(2 * o, 0, 2 * o, 0, 0, o, 6, false));
        vs.push(point(o, o, o, o, 0, o, 2, true));
        vs.push(point(2 * o, o, 2 * o, o, 0, o, 7, false));
        vs.push(point(0, 2 * o, 0, 2 * o, 0, o, 4, false));
        vs.push(point(o, 2 * o, o, 2 * o, 0, o, 3, false));
        vs.push(point(2 * o, 2 * o, 2 * o, 2 * o, 0, o, 11, false));
        let mut es: Vec<HalfEdge> = Vec::new();
        es.push(half_edge(0, 1, 4, 13, 0, Direction::S, o));
        es.push(half_edge(1, 2, 0, 8, 0, Direction::T, o));
        es.push(half_edge(3, 3, 1, 12, 0, Direction::T, o));
        es.push(half_edge(6, 4, 2, 18, 0, Direction::S, o));
        es.push(half_edge(5, 0, 3, 19, 0, Direction::T, o));
        es.push(half_edge(1, 6, 8, 14, 1, Direction::S, o));
        es.push(half_edge(2, 7, 5, 15, 1, Direction::T, o));
        es.push(half_edge(4, 8, 6, 9, 1, Direction::S, o));
        es.push(half_edge(3, 5, 7, 1, 1, Direction::T, o));
        es.push(half_edge(3, 10, 12, 7, 2, Direction::S, o));
        es.push(half_edge(4, 11, 9, 16, 2, Direction::T, o));
        es.push(half_edge(7, 12, 10, 17, 2, Direction::S, o));
        es.push(half_edge(6, 9, 11, 2, 2, Direction::T, o));
        es.push(half_edge(1, 19, 14, 0, NONE, Direction::S, o));
        es.push(half_edge(2, 13, 15, 5, NONE, Direction::S, o));
        es.push(half_edge(4, 14, 16, 6, NONE, Direction::T, o));
        es.push(half_edge(7, 15, 17, 10, NONE, Direction::T, o));
        es.push(half_edge(6, 16, 18, 11, NONE, Direction::S, o));
        es.push(half_edge(5, 17, 19, 3, NONE, Direction::S, o));
        es.push(half_edge(0, 18, 13, 4, NONE, Direction::T, o));
        let mut fs: Vec<Face> = Vec::new();
        fs.push(Face { edge: EdgeID(0) });
        fs.push(Face { edge: EdgeID(5) });
        fs.push(Face { edge: EdgeID(9) });
        assert(vs@ =~= t_junction_vertices());
        assert(es@ =~= t_junction_edges());
        assert(fs@ =~= t_junction_faces());
        assert forall|e: int| 0 <= e < 20 implies (#[trigger] es@[e]).twin is Some by {
            assert(e == 0 || e == 1 || e == 2 || e == 3 || e == 4 || e == 5 || e == 6 || e == 7 || e == 8 || e == 9 || e == 10 || e == 11 || e == 12 || e == 13 || e == 14 || e == 15 || e == 16 || e == 17 || e == 18 || e == 19);
        }
        let mesh = TMesh { vertices: vs, edges: es, faces: fs };
        proof {
            assert forall|e: int| 0 <= e < mesh.ne() implies #[trigger] mesh.edge_wf(e) by {
                assert(e == 0 || e == 1 || e == 2 || e == 3 || e == 4 || e == 5 || e == 6 || e == 7 || e == 8 || e == 9 || e == 10 || e == 11 || e == 12 || e == 13 || e == 14 || e == 15 || e == 16 || e == 17 || e == 18 || e == 19);
            }
            assert forall|v: int| 0 <= v < mesh.nv() implies #[trigger] mesh.vertex_wf(v) by {
                assert(v == 0 || v == 1 || v == 2 || v == 3 || v == 4 || v == 5 || v == 6 || v == 7);
            }
            assert forall|f: int| 0 <= f < mesh.nf() implies #[trigger] mesh.face_wf(f) by {
                assert(f == 0 || f == 1 || f == 2);
            }
        }
        TSpline::new(mesh)
    }

    /// A weighted patch on `[0, 1]²` with a T-junction at `(0.5, 0.5)`
    /// (vertex 4, lowered to `z = -1`) and knot intervals of `0.5` and `1`.
    pub fn new_simple() -> (r: TSpline)
        ensures
            r.spec_mesh().vertices@ == simple_vertices(),
            r.spec_mesh().edges@ == simple_edges(),
            r.spec_mesh().faces@ == simple_faces(),
            forall|e: int| 0 <= e < 20 ==> (#[trigger] r.spec_mesh().edges@[e]).twin is Some,
            forall|v: int| 0 <= v < 8 && v != 4 ==> !(#[trigger] r.spec_mesh().vertices@[v]).is_t_junction,
            r.spec_mesh().wf(),
            r.spec_mesh().nv() == 8,
            r.spec_mesh().ne() == 20,
            r.spec_mesh().nf() == 3,
            r.spec_mesh().vertices@[4].is_t_junction,
            r.spec_mesh().vertices@[4].geometry.z.val() == -ONE_RAW,
            placed_at(r.spec_mesh(), 0, 0, 0),
            placed_at(r.spec_mesh(), 1, ONE_RAW / 2, 0),
            placed_at(r.spec_mesh(), 2, ONE_RAW as int, 0),
            placed_at(r.spec_mesh(), 3, 0, ONE_RAW / 2),
            placed_at(r.spec_mesh(), 4, ONE_RAW / 2, ONE_RAW / 2),
            placed_at(r.spec_mesh(), 5, ONE_RAW as int, ONE_RAW / 2),
            placed_at(r.spec_mesh(), 6, 0, ONE_RAW as int),
            placed_at(r.spec_mesh(), 7, ONE_RAW as int, ONE_RAW as int),
    {
        let o = ONE_RAW;
        let h = HALF_RAW;
        let mut vs: Vec<ControlPoint> = Vec::new();
        vs.push(point(0, 0, 0, 0, 0, o, 0, false));
        vs.push(point(h, 0, 2 * o, 0, h, o, 1, false));
        vs.push(point(o, 0, 4 * o, 0, 0, o, 5, false));
        vs.push(point(0, h, 0, 2 * o, h, o, 3, false));
        vs.push(point(h, h, 2 * o, 2 * o, -o, o, 2, true));
        vs.push(point(o, h, 4 * o, 2 * o, h, o, 6, false));
        vs.push(point(0, o, 0, 4 * o, 0, o, 12, false));
        vs.push(point(o, o, 4 * o, 4 * o, 0, o, 11, false));
        let mut es: Vec<HalfEdge> = Vec::new();
        es.push(half_edge(0, 1, 3, 13, 0, Direction::S, h));
        es.push(half_edge(1, 2, 0, 7, 0, Direction::T, h));
        es.push(half_edge(4, 3, 1, 8, 0, Direction::S, h));
        es.push(half_edge(3, 0, 2, 14, 0, Direction::T, h));
        es.push(half_edge(1, 5, 7, 19, 1, Direction::S, h));
        es.push(half_edge(2, 6, 4, 18, 1, Direction::T, h));
        es.push(half_edge(5, 7, 5, 9, 1, Direction::S, h));
        es.push(half_edge(4, 4, 6, 1, 1, Direction::T, h));
        es.push(half_edge(3, 9, 12, 2, 2, Direction::S, h));
        es.push(half_edge(4, 10, 8, 6, 2, Direction::S, h));
        es.push(half_edge(5, 11, 9, 17, 2, Direction::T, h));
        es.push(half_edge(7, 12, 10, 16, 2, Direction::S, o));
        es.push(half_edge(6, 8, 11, 15, 2, Direction::T, h));
        es.push(half_edge(1, 14, 19, 0, NONE, Direction::S, h));
        es.push(half_edge(0, 15, 13, 3, NONE, Direction::T, h));
        es.push(half_edge(3, 16, 14, 12, NONE, Direction::T, h));
        es.push(half_edge(6, 17, 15, 11, NONE, Direction::S, o));
        es.push(half_edge(7, 18, 16, 10, NONE, Direction::T, h));
        es.push(half_edge(5, 19, 17, 5, NONE, Direction::T, h));
        es.push(half_edge(2, 13, 18, 4, NONE, Direction::S, h));
        let mut fs: Vec<Face> = Vec::new();
        fs.push(Face { edge: EdgeID(0) });
        fs.push(Face { edge: EdgeID(4) });
        fs.push(Face { edge: EdgeID(8) });
        assert(vs@ =~= simple_vertices());
        assert(es@ =~= simple_edges());
        assert(fs@ =~= simple_faces());
        assert forall|e: int| 0 <= e < 20 implies (#[trigger] es@[e]).twin is Some by {
            assert(e == 0 || e == 1 || e == 2 || e == 3 || e == 4 || e == 5 || e == 6 || e == 7 || e == 8 || e == 9 || e == 10 || e == 11 || e == 12 || e == 13 || e == 14 || e == 15 || e == 16 || e == 17 || e == 18 || e == 19);
        }
        let mesh = TMesh { vertices: vs, edges: es, faces: fs };
        proof {
            assert forall|e: int| 0 <= e < mesh.ne() implies #[trigger] mesh.edge_wf(e) by {
                assert(e == 0 || e == 1 || e == 2 || e == 3 || e == 4 || e == 5 || e == 6 || e == 7 || e == 8 || e == 9 || e == 10 || e == 11 || e == 12 || e == 13 || e == 14 || e == 15 || e == 16 || e == 17 || e == 18 || e == 19);
            }
            assert forall|v: int| 0 <= v < mesh.nv() implies #[trigger] mesh.vertex_wf(v) by {
                assert(v == 0 || v == 1 || v == 2 || v == 3 || v == 4 || v == 5 || v == 6 || v == 7);
            }
            assert forall|f: int| 0 <= f < mesh.nf() implies #[trigger] mesh.face_wf(f) by {
                assert(f == 0 || f == 1 || f == 2);
            }
        }
        TSpline::new(mesh)
    }

    /// A cube unfolded into a cross of six unit faces in parameter space,
    /// with control points at the cube's corners.
    pub fn new_rounded_cube() -> (r: TSpline)
        ensures
            r.spec_mesh().vertices@ == rounded_cube_vertices(),
            r.spec_mesh().edges@ == rounded_cube_edges(),
            r.spec_mesh().faces@ == rounded_cube_faces(),
            r.spec_mesh().wf(),
            r.spec_mesh().nv() == 14,
            r.spec_mesh().ne() == 24,
            r.spec_mesh().nf() == 6,
            forall|v: int| 0 <= v < 14 ==> !(#[trigger] r.spec_mesh().vertices@[v]).is_t_junction,
    {
        let o = ONE_RAW;
        let mut vs: Vec<ControlPoint> = Vec::new();
        vs.push(point(0, o, -o, -o, -o, o, 0, false));
        vs.push(point(o, o, -o, -o, o, o, 1, false));
        vs.push(point(2 * o, o, o, -o, o, o, 5, false));
        vs.push(point(3 * o, o, o, -o, -o, o, 9, false));
        vs.push(point(4 * o, o, -o, -o, -o, o, 13, false));
        vs.push(point(0, 2 * o, -o, o, -o, o, 3, false));
        vs.push(point(o, 2 * o, -o, o, o, o, 2, false));
        vs.push(point(2 * o, 2 * o, o, o, o, o, 6, false));
        vs.push(point(3 * o, 2 * o, o, o, -o, o, 10, false));
        vs.push(point(4 * o, 2 * o, -o, o, -o, o, 14, false));
        vs.push(point(o, 0, -o, -o, -o, o, 16, false));
        vs.push(point(2 * o, 0, o, -o, -o, o, 17, false));
        vs.push(point(o, 3 * o, -o, o, -o, o, 23, false));
        vs.push(point(2 * o, 3 * o, o, o, -o, o, 22, false));
        let mut es: Vec<HalfEdge> = Vec::new();
        es.push(half_edge(0, 1, 3, NONE, 0, Direction::S, o));
        es.push(half_edge(1, 2, 0, 7, 0, Direction::T, o));
        es.push(half_edge(6, 3, 1, NONE, 0, Direction::S, o));
        es.push(half_edge(5, 0, 2, NONE, 0, Direction::T, o));
        es.push(half_edge(1, 5, 7, 18, 1, Direction::S, o));
        es.push(half_edge(2, 6, 4, 11, 1, Direction::T, o));
        es.push(half_edge(7, 7, 5, 20, 1, Direction::S, o));
        es.push(half_edge(6, 4, 6, 1, 1, Direction::T, o));
        es.push(half_edge(2, 9, 11, NONE, 2, Direction::S, o));
        es.push(half_edge(3, 10, 8, 15, 2, Direction::T, o));
        es.push(half_edge(8, 11, 9, NONE, 2, Direction::S, o));
        es.push(half_edge(7, 8, 10, 5, 2, Direction::T, o));
        es.push(half_edge(3, 13, 15, NONE, 3, Direction::S, o));
        es.push(half_edge(4, 14, 12, NONE, 3, Direction::T, o));
        es.push(half_edge(9, 15, 13, NONE, 3, Direction::S, o));
        es.push(half_edge(8, 12, 14, 9, 3, Direction::T, o));
        es.push(half_edge(10, 17, 19, NONE, 4, Direction::S, o));
        es.push(half_edge(11, 18, 16, NONE, 4, Direction::T, o));
        es.push(half_edge(2, 19, 17, 4, 4, Direction::S, o));
        es.push(half_edge(1, 16, 18, NONE, 4, Direction::T, o));
        es.push(half_edge(6, 21, 23, 6, 5, Direction::S, o));
        es.push(half_edge(7, 22, 20, NONE, 5, Direction::T, o));
        es.push(half_edge(13, 23, 21, NONE, 5, Direction::S, o));
        es.push(half_edge(12, 20, 22, NONE, 5, Direction::T, o));
        let mut fs: Vec<Face> = Vec::new();
        fs.push(Face { edge: EdgeID(0) });
        fs.push(Face { edge: EdgeID(4) });
        fs.push(Face { edge: EdgeID(8) });
        fs.push(Face { edge: EdgeID(12) });
        fs.push(Face { edge: EdgeID(16) });
        fs.push(Face { edge: EdgeID(20) });
        assert(vs@ =~= rounded_cube_vertices());
        assert(es@ =~= rounded_cube_edges());
        assert(fs@ =~= rounded_cube_faces());
        let mesh = TMesh { vertices: vs, edges: es, faces: fs };
        proof {
            assert forall|e: int| 0 <= e < mesh.ne() implies #[trigger] mesh.edge_wf(e) by {
                assert(e == 0 || e == 1 || e == 2 || e == 3 || e == 4 || e == 5 || e == 6 || e == 7 || e == 8 || e == 9 || e == 10 || e == 11 || e == 12 || e == 13 || e == 14 || e == 15 || e == 16 || e == 17 || e == 18 || e == 19 || e == 20 || e == 21 || e == 22 || e == 23);
            }
            assert forall|v: int| 0 <= v < mesh.nv() implies #[trigger] mesh.vertex_wf(v) by {
                assert(v == 0 || v == 1 || v == 2 || v == 3 || v == 4 || v == 5 || v == 6 || v == 7 || v == 8 || v == 9 || v == 10 || v == 11 || v == 12 || v == 13);
            }
            assert forall|f: int| 0 <= f < mesh.nf() implies #[trigger] mesh.face_wf(f) by {
                assert(f == 0 || f == 1 || f == 2 || f == 3 || f == 4 || f == 5);
            }
        }
        TSpline::new(mesh)
    }
}

} // verus!
