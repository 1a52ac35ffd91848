//! Text builders for OBJ and ASCII PLY files.
use vstd::prelude::*;
use vstd::string::*;
use crate::mesh::{ControlPoint, HalfEdge, Point3, TMesh};
use crate::scalar::Scalar;
use crate::text::{decimal, push_scalar, push_usize, scalar_text};

verus! {

/// The lines produced for each item of `xs`, in order.
pub open spec fn join_lines<A>(xs: Seq<A>, f: spec_fn(A) -> Seq<char>) -> Seq<char>
    decreases xs.len(),
{
    if xs.len() == 0 {
        seq![]
    } else {
        join_lines(xs.drop_last(), f) + f(xs.last())
    }
}

proof fn lemma_join_step<A>(xs: Seq<A>, f: spec_fn(A) -> Seq<char>, i: int)
    requires
        0 <= i < xs.len(),
    ensures
        join_lines(xs.subrange(0, i + 1), f) == join_lines(xs.subrange(0, i), f) + f(xs[i]),
{
    assert(xs.subrange(0, i + 1).drop_last() =~= xs.subrange(0, i));
}

pub open spec fn xyz_text(x: Scalar, y: Scalar, z: Scalar) -> Seq<char> {
    scalar_text(x) + " "@ + scalar_text(y) + " "@ + scalar_text(z)
}

pub open spec fn object_line(name: Seq<char>) -> Seq<char> {
    "o "@ + name + "\n"@
}

pub open spec fn obj_point_line(p: Point3) -> Seq<char> {
    "v "@ + xyz_text(p.x, p.y, p.z) + "\n"@
}

pub open spec fn obj_vertex_line(c: ControlPoint) -> Seq<char> {
    "v "@ + xyz_text(c.geometry.x, c.geometry.y, c.geometry.z) + "\n"@
}

pub open spec fn obj_face_line(t: [usize; 3], offset: int) -> Seq<char> {
    "f "@ + decimal((t@[0] + offset) as nat) + " "@ + decimal((t@[1] + offset) as nat) + " "@
        + decimal((t@[2] + offset) as nat) + "\n"@
}

/// The edge from the origin of `h` to the origin of its successor.
pub open spec fn edge_line(mesh: TMesh, h: HalfEdge, tag: Seq<char>, offset: int) -> Seq<char> {
    tag + decimal((h.origin.0 + offset) as nat) + " "@ + decimal(
        (mesh.origin_of(h.next.0 as int) + offset) as nat,
    ) + "\n"@
}

pub open spec fn ply_point_line(p: Point3) -> Seq<char> {
    xyz_text(p.x, p.y, p.z) + "\n"@
}

pub open spec fn ply_vertex_line(c: ControlPoint) -> Seq<char> {
    xyz_text(c.geometry.x, c.geometry.y, c.geometry.z) + "\n"@
}

pub open spec fn ply_vertex_header(n: nat) -> Seq<char> {
    "element vertex "@ + decimal(n) + "\nproperty float x\nproperty float y\nproperty float z\n"@
}

pub open spec fn ply_edge_header(m: nat) -> Seq<char> {
    "element edge "@ + decimal(m) + "\nproperty int vertex1\nproperty int vertex2\n"@
}

fn push_xyz(out: &mut String, x: Scalar, y: Scalar, z: Scalar)
    ensures
        final(out)@ == old(out)@ + xyz_text(x, y, z),
{
    let ghost start = out@;
    push_scalar(out, x);
    out.append(" ");
    push_scalar(out, y);
    out.append(" ");
    push_scalar(out, z);
    assert(out@ =~= start + xyz_text(x, y, z));
}

fn push_pair(out: &mut String, tag: &str, a: usize, b: usize)
    ensures
        final(out)@ == old(out)@ + tag@ + decimal(a as nat) + " "@ + decimal(b as nat) + "\n"@,
{
    let ghost start = out@;
    out.append(tag);
    push_usize(out, a);
    out.append(" ");
    push_usize(out, b);
    out.append("\n");
    assert(out@ =~= start + tag@ + decimal(a as nat) + " "@ + decimal(b as nat) + "\n"@);
}

/// Appends one `v x y z` line per point.
fn push_obj_points(out: &mut String, points: &[Point3])
    ensures
        final(out)@ == old(out)@ + join_lines(points@, |p: Point3| obj_point_line(p)),
{
    let ghost start = out@;
    let ghost f = |p: Point3| obj_point_line(p);
    let mut i: usize = 0;
    while i < points.len()
        invariant
            i <= points@.len(),
            f == (|p: Point3| obj_point_line(p)),
            out@ == start + join_lines(points@.subrange(0, i as int), f),
        decreases points@.len() - i,
    {
        let p = points[i];
        let ghost before = out@;
        out.append("v ");
        push_xyz(out, p.x, p.y, p.z);
        out.append("\n");
        proof {
            lemma_join_step(points@, f, i as int);
            assert(out@ =~= before + obj_point_line(p));
        }
        i = i + 1;
    }
    assert(points@.subrange(0, points@.len() as int) =~= points@);
}

/// Accumulates the text of an OBJ file, one named object at a time; vertex
/// numbers run on across objects.
#[derive(Clone, Debug)]
pub struct ObjWriter {
    obj: String,
    vertex_count: usize,
}

impl ObjWriter {
    pub closed spec fn text(&self) -> Seq<char> {
        self.obj@
    }

    /// The number of vertices written so far.
    pub closed spec fn count(&self) -> nat {
        self.vertex_count as nat
    }

    pub fn new() -> (r: ObjWriter)
        ensures
            r.text() == Seq::<char>::empty(),
            r.count() == 0,
    {
        ObjWriter { obj: String::new(), vertex_count: 0 }
    }

    /// Adds an object `name` holding `points` as vertices.
    pub fn with_points(self, name: &str, points: &[Point3]) -> (r: ObjWriter)
        requires
            self.count() + points@.len() <= usize::MAX,
        ensures
            r.text() == self.text() + object_line(name@) + join_lines(
                points@,
                |p: Point3| obj_point_line(p),
            ),
            r.count() == self.count() + points@.len(),
    {
        let mut obj = self.obj;
        let ghost start = obj@;
        obj.append("o ");
        obj.append(name);
        obj.append("\n");
        assert(obj@ =~= start + object_line(name@));
        push_obj_points(&mut obj, points);
        ObjWriter { obj, vertex_count: self.vertex_count + points.len() }
    }

    /// Adds an object `name` holding `points` and the triangles over them;
    /// triangle corners index `points` from zero.
    pub fn with_triangles(self, name: &str, points: &[Point3], triangles: &[[usize; 3]]) -> (r:
        ObjWriter)
        requires
            self.count() + points@.len() <= usize::MAX,
            self.count() < usize::MAX,
            forall|i: int, k: int|
                0 <= i < triangles@.len() && 0 <= k < 3 ==> triangles@[i]@[k] + self.count() + 1
                    <= usize::MAX,
        ensures
            r.text() == self.text() + object_line(name@) + join_lines(
                points@,
                |p: Point3| obj_point_line(p),
            ) + join_lines(
                triangles@,
                |t: [usize; 3]| obj_face_line(t, self.count() + 1int),
            ),
            r.count() == self.count() + points@.len(),
    {
        broadcast use vstd::array::group_array_axioms;

        let offset = self.vertex_count + 1;
        let mut obj = self.obj;
        let ghost start = obj@;
        obj.append("o ");
        obj.append(name);
        obj.append("\n");
        assert(obj@ =~= start + object_line(name@));
        push_obj_points(&mut obj, points);
        let ghost mid = obj@;
        let ghost f = |t: [usize; 3]| obj_face_line(t, offset as int);
        let mut i: usize = 0;
        while i < triangles.len()
            invariant
                i <= triangles@.len(),
                offset == self.count() + 1,
                forall|i: int, k: int|
                    0 <= i < triangles@.len() && 0 <= k < 3 ==> triangles@[i]@[k] + offset
                        <= usize::MAX,
                f == (|t: [usize; 3]| obj_face_line(t, offset as int)),
                obj@ == mid + join_lines(triangles@.subrange(0, i as int), f),
            decreases triangles@.len() - i,
        {
            let t = triangles[i];
            assert(t@ == triangles@[i as int]@);
            let ghost before = obj@;
            let a = t[0] + offset;
            let b = t[1] + offset;
            let c = t[2] + offset;
            obj.append("f ");
            push_usize(&mut obj, a);
            obj.append(" ");
            push_usize(&mut obj, b);
            obj.append(" ");
            push_usize(&mut obj, c);
            obj.append("\n");
            proof {
                lemma_join_step(triangles@, f, i as int);
                assert(obj@ =~= before + obj_face_line(t, offset as int));
            }
            i = i + 1;
        }
        assert(triangles@.subrange(0, triangles@.len() as int) =~= triangles@);
        ObjWriter { obj, vertex_count: self.vertex_count + points.len() }
    }

    /// Adds an object `name` holding the control points of `mesh` and one
    /// `l` line per half-edge.
    pub fn with_control_surface(self, name: &str, mesh: &TMesh) -> (r: ObjWriter)
        requires
            mesh.wf(),
            self.count() + mesh.nv() + 1 <= usize::MAX,
        ensures
            r.text() == self.text() + object_line(name@) + join_lines(
                mesh.vertices@,
                |c: ControlPoint| obj_vertex_line(c),
            ) + join_lines(
                mesh.edges@,
                |h: HalfEdge| edge_line(*mesh, h, "l "@, self.count() + 1int),
            ),
            r.count() == self.count() + mesh.nv(),
    {
        let offset = self.vertex_count + 1;
        let mut obj = self.obj;
        let ghost start = obj@;
        obj.append("o ");
        obj.append(name);
        obj.append("\n");
        assert(obj@ =~= start + object_line(name@));
        let ghost s1 = obj@;
        let ghost fv = |c: ControlPoint| obj_vertex_line(c);
        let mut i: usize = 0;
        while i < mesh.vertices.len()
            invariant
                i <= mesh.nv(),
                fv == (|c: ControlPoint| obj_vertex_line(c)),
                obj@ == s1 + join_lines(mesh.vertices@.subrange(0, i as int), fv),
            decreases mesh.nv() - i,
        {
            let g = mesh.vertices[i].geometry;
            let ghost before = obj@;
            obj.append("v ");
            push_xyz(&mut obj, g.x, g.y, g.z);
            obj.append("\n");
            proof {
                lemma_join_step(mesh.vertices@, fv, i as int);
                assert(obj@ =~= before + obj_vertex_line(mesh.vertices@[i as int]));
            }
            i = i + 1;
        }
        assert(mesh.vertices@.subrange(0, mesh.nv()) =~= mesh.vertices@);
        let ghost s2 = obj@;
        let ghost fe = |h: HalfEdge| edge_line(*mesh, h, "l "@, offset as int);
        let mut j: usize = 0;
        while j < mesh.edges.len()
            invariant
                mesh.wf(),
                j <= mesh.ne(),
                offset == self.count() + 1,
                offset + mesh.nv() <= usize::MAX,
                fe == (|h: HalfEdge| edge_line(*mesh, h, "l "@, offset as int)),
                obj@ == s2 + join_lines(mesh.edges@.subrange(0, j as int), fe),
            decreases mesh.ne() - j,
        {
            let h = mesh.edges[j];
            assert(mesh.edge_wf(j as int));
            assert(mesh.edge_wf(h.next.0 as int));
            let a = h.origin.0 + offset;
            let b = mesh.edges[h.next.0].origin.0 + offset;
            push_pair(&mut obj, "l ", a, b);
            proof {
                lemma_join_step(mesh.edges@, fe, j as int);
            }
            j = j + 1;
        }
        assert(mesh.edges@.subrange(0, mesh.ne()) =~= mesh.edges@);
        ObjWriter { obj, vertex_count: self.vertex_count + mesh.vertices.len() }
    }

    /// Appends the accumulated OBJ text to `w`.
    pub fn write(self, w: &mut String)
        ensures
            final(w)@ == old(w)@ + self.text(),
    {
        w.append(self.obj.as_str());
    }
}

impl Default for ObjWriter {
    fn default() -> (r: ObjWriter)
        ensures
            r.text() == Seq::<char>::empty(),
            r.count() == 0,
    {
        ObjWriter::new()
    }
}

/// Accumulates the header and the records of an ASCII PLY file.
#[derive(Clone, Debug)]
pub struct PlyWriter {
    header: String,
    body: String,
}

impl PlyWriter {
    pub closed spec fn header_text(&self) -> Seq<char> {
        self.header@
    }

    pub closed spec fn body_text(&self) -> Seq<char> {
        self.body@
    }

    pub fn new() -> (r: PlyWriter)
        ensures
            r.header_text() == Seq::<char>::empty(),
            r.body_text() == Seq::<char>::empty(),
    {
        PlyWriter { header: String::new(), body: String::new() }
    }

    /// Declares and writes `points` as vertices.
    pub fn with_point(self, points: &[Point3]) -> (r: PlyWriter)
        ensures
            r.header_text() == self.header_text() + ply_vertex_header(points@.len()),
            r.body_text() == self.body_text() + join_lines(points@, |p: Point3| ply_point_line(p)),
    {
        let mut header = self.header;
        let mut body = self.body;
        let ghost h0 = header@;
        header.append("element vertex ");
        push_usize(&mut header, points.len());
        header.append("\nproperty float x\nproperty float y\nproperty float z\n");
        assert(header@ =~= h0 + ply_vertex_header(points@.len()));
        let ghost b0 = body@;
        let ghost f = |p: Point3| ply_point_line(p);
        let mut i: usize = 0;
        while i < points.len()
            invariant
                i <= points@.len(),
                f == (|p: Point3| ply_point_line(p)),
                body@ == b0 + join_lines(points@.subrange(0, i as int), f),
            decreases points@.len() - i,
        {
            let p = points[i];
            let ghost before = body@;
            push_xyz(&mut body, p.x, p.y, p.z);
            body.append("\n");
            proof {
                lemma_join_step(points@, f, i as int);
                assert(body@ =~= before + ply_point_line(p));
            }
            i = i + 1;
        }
        assert(points@.subrange(0, points@.len() as int) =~= points@);
        PlyWriter { header, body }
    }

    /// Declares and writes the control points of `mesh` as vertices and
    /// its half-edges as edges between vertex numbers.
    pub fn with_geometry(self, mesh: &TMesh) -> (r: PlyWriter)
        requires
            mesh.wf(),
        ensures
            r.header_text() == self.header_text() + ply_vertex_header(mesh.nv() as nat)
                + ply_edge_header(mesh.ne() as nat),
            r.body_text() == self.body_text() + join_lines(
                mesh.vertices@,
                |c: ControlPoint| ply_vertex_line(c),
            ) + join_lines(mesh.edges@, |h: HalfEdge| edge_line(*mesh, h, ""@, 0)),
    {
        let mut header = self.header;
        let mut body = self.body;
        let ghost h0 = header@;
        header.append("element vertex ");
        push_usize(&mut header, mesh.vertices.len());
        header.append("\nproperty float x\nproperty float y\nproperty float z\n");
        header.append("element edge ");
        push_usize(&mut header, mesh.edges.len());
        header.append("\nproperty int vertex1\nproperty int vertex2\n");
        assert(header@ =~= h0 + ply_vertex_header(mesh.nv() as nat) + ply_edge_header(
            mesh.ne() as nat,
        ));
        let ghost b0 = body@;
        let ghost fv = |c: ControlPoint| ply_vertex_line(c);
        let mut i: usize = 0;
        while i < mesh.vertices.len()
            invariant
                i <= mesh.nv(),
                fv == (|c: ControlPoint| ply_vertex_line(c)),
                body@ == b0 + join_lines(mesh.vertices@.subrange(0, i as int), fv),
            decreases mesh.nv() - i,
        {
            let g = mesh.vertices[i].geometry;
            let ghost before = body@;
            push_xyz(&mut body, g.x, g.y, g.z);
            body.append("\n");
            proof {
                lemma_join_step(mesh.vertices@, fv, i as int);
                assert(body@ =~= before + ply_vertex_line(mesh.vertices@[i as int]));
            }
            i = i + 1;
        }
        assert(mesh.vertices@.subrange(0, mesh.nv()) =~= mesh.vertices@);
        let ghost b1 = body@;
        let ghost fe = |h: HalfEdge| edge_line(*mesh, h, ""@, 0);
        let mut j: usize = 0;
        while j < mesh.edges.len()
            invariant
                mesh.wf(),
                j <= mesh.ne(),
                fe == (|h: HalfEdge| edge_line(*mesh, h, ""@, 0)),
                body@ == b1 + join_lines(mesh.edges@.subrange(0, j as int), fe),
            decreases mesh.ne() - j,
        {
            let h = mesh.edges[j];
            assert(mesh.edge_wf(j as int));
            let a = h.origin.0;
            let b = mesh.edges[h.next.0].origin.0;
            push_pair(&mut body, "", a, b);
            proof {
                lemma_join_step(mesh.edges@, fe, j as int);
            }
            j = j + 1;
        }
        assert(mesh.edges@.subrange(0, mesh.ne()) =~= mesh.edges@);
        PlyWriter { header, body }
    }

    /// Appends the complete PLY text to `w`: the magic line and format,
    /// the header, `end_header`, then the records.
    pub fn write(&self, w: &mut String)
        ensures
            final(w)@ == old(w)@ + "ply\nformat ascii 1.0\n"@ + self.header_text() + "end_header\n"@
                + self.body_text(),
    {
        let ghost start = w@;
        w.append("ply\nformat ascii 1.0\n");
        w.append(self.header.as_str());
        w.append("end_header\n");
        w.append(self.body.as_str());
        assert(w@ =~= start + "ply\nformat ascii 1.0\n"@ + self.header_text() + "end_header\n"@
            + self.body_text());
    }
}

impl Default for PlyWriter {
    fn default() -> (r: PlyWriter)
        ensures
            r.header_text() == Seq::<char>::empty(),
            r.body_text() == Seq::<char>::empty(),
    {
        PlyWriter::new()
    }
}

} // verus!
