//! Parametric bounding boxes of vertices, faces and whole meshes.
use vstd::prelude::*;
use crate::mesh::{ControlPoint, EdgeID, FaceID, ParamPoint, TMesh};
use crate::scalar::{Numeric, Scalar};

verus! {

/// `(min, max)` ranges in `s` and in `t`.
#[derive(Clone, Copy, Debug)]
pub struct Bounds {
    pub s: (Scalar, Scalar),
    pub t: (Scalar, Scalar),
}

/// The empty box: every range runs from the largest value to the smallest.
pub open spec fn empty_bounds() -> Bounds {
    Bounds {
        s: (Scalar { raw: i64::MAX }, Scalar { raw: i64::MIN }),
        t: (Scalar { raw: i64::MAX }, Scalar { raw: i64::MIN }),
    }
}

impl Bounds {
    /// The box grown to contain `p`.
    pub open spec fn with_point(self, p: ParamPoint) -> Bounds {
        Bounds {
            s: (self.s.0.spec_min(p.s), self.s.1.spec_max(p.s)),
            t: (self.t.0.spec_min(p.t), self.t.1.spec_max(p.t)),
        }
    }

    /// The box grown to contain every point of `vs`.
    pub open spec fn with_vertices(self, vs: Seq<ControlPoint>) -> Bounds
        decreases vs.len(),
    {
        if vs.len() == 0 {
            self
        } else {
            self.with_vertices(vs.drop_last()).with_point(vs.last().uv)
        }
    }

    /// The box grown to contain the origins of the half-edges `es`.
    pub open spec fn with_edges(self, mesh: TMesh, es: Seq<EdgeID>) -> Bounds
        decreases es.len(),
    {
        if es.len() == 0 {
            self
        } else {
            self.with_edges(mesh, es.drop_last()).with_point(
                mesh.uv_of(mesh.origin_of(es.last().0 as int)),
            )
        }
    }

    pub open spec fn spec_area(self) -> Scalar {
        self.s.1.spec_sub(self.s.0).spec_mul(self.t.1.spec_sub(self.t.0))
    }

    pub open spec fn spec_center(self) -> (Scalar, Scalar) {
        let two = Scalar::of(2 * crate::scalar::ONE_RAW);
        (self.s.0.spec_add(self.s.1).spec_div(two), self.t.0.spec_add(self.t.1).spec_div(two))
    }

    /// Grid point `i` of a `resolution × resolution` grid over the box, row by row.
    pub open spec fn spec_interpolate(self, i: int, resolution: int) -> (Scalar, Scalar) {
        if resolution <= 1 {
            (self.s.0, self.t.0)
        } else {
            let denom = Scalar::of(crate::scalar::clamp((resolution - 1) * crate::scalar::ONE_RAW));
            let u = Scalar::of(crate::scalar::clamp((i % resolution) * crate::scalar::ONE_RAW));
            let v = Scalar::of(crate::scalar::clamp((i / resolution) * crate::scalar::ONE_RAW));
            (
                self.s.0.spec_add(u.spec_mul(self.s.1.spec_sub(self.s.0)).spec_div(denom)),
                self.t.0.spec_add(v.spec_mul(self.t.1.spec_sub(self.t.0)).spec_div(denom)),
            )
        }
    }

    /// Area of the box.
    pub fn area(&self) -> (r: Scalar)
        ensures
            r == self.spec_area(),
    {
        self.s.1.sub(self.s.0).mul(self.t.1.sub(self.t.0))
    }

    /// Center of the box.
    pub fn center(&self) -> (r: (Scalar, Scalar))
        ensures
            r == self.spec_center(),
    {
        let two = Scalar::from_usize(2);
        (self.s.0.add(self.s.1).div(two), self.t.0.add(self.t.1).div(two))
    }

    /// Point `i` of a `resolution × resolution` grid spanning the box, in
    /// row-major order; a resolution of one or less gives the min corner.
    pub fn interpolate(&self, i: usize, resolution: usize) -> (r: (Scalar, Scalar))
        ensures
            r == self.spec_interpolate(i as int, resolution as int),
    {
        if resolution <= 1 {
            return (self.s.0, self.t.0);
        }
        let denom = Scalar::from_usize(resolution - 1);
        let u_i = Scalar::from_usize(i % resolution);
        let v_i = Scalar::from_usize(i / resolution);
        let s = self.s.0.add(u_i.mul(self.s.1.sub(self.s.0)).div(denom));
        let t = self.t.0.add(v_i.mul(self.t.1.sub(self.t.0)).div(denom));
        (s, t)
    }

    /// Grows the box to contain the parametric location of `point`.
    pub fn add_vertex(&mut self, point: &ControlPoint)
        ensures
            *final(self) == old(self).with_point(point.uv),
    {
        self.s.0 = self.s.0.min(point.uv.s);
        self.s.1 = self.s.1.max(point.uv.s);
        self.t.0 = self.t.0.min(point.uv.t);
        self.t.1 = self.t.1.max(point.uv.t);
    }

    /// Grows the box to contain the origin of half-edge `edge`.
    pub fn add_edge(&mut self, mesh: &TMesh, edge: EdgeID)
        requires
            mesh.wf(),
            edge.0 < mesh.ne(),
        ensures
            *final(self) == old(self).with_point(mesh.uv_of(mesh.origin_of(edge.0 as int))),
    {
        assert(mesh.edge_wf(edge.0 as int));
        let v = mesh.vertex(mesh.edge(edge).origin);
        self.add_vertex(v)
    }

    /// Grows the box to contain the corners of face `face`.
    pub fn add_face(&mut self, mesh: &TMesh, face: FaceID)
        requires
            mesh.wf(),
            face.0 < mesh.nf(),
        ensures
            *final(self) == old(self).with_edges(*mesh, mesh.face_loop(face.0 as int)),
    {
        let es = mesh.face_edges(face);
        let ghost b0 = *self;
        let mut i: usize = 0;
        while i < es.len()
            invariant
                mesh.wf(),
                i <= es@.len(),
                forall|q: int| 0 <= q < es@.len() ==> (#[trigger] es@[q]).0 < mesh.ne(),
                *self == b0.with_edges(*mesh, es@.subrange(0, i as int)),
            decreases es@.len() - i,
        {
            self.add_edge(mesh, es[i]);
            proof {
                let pre = es@.subrange(0, i as int + 1);
                assert(pre.drop_last() =~= es@.subrange(0, i as int));
            }
            i = i + 1;
        }
        assert(es@.subrange(0, es@.len() as int) =~= es@);
    }

    /// Grows the box to contain every control point of `mesh`.
    pub fn add_mesh(&mut self, mesh: &TMesh)
        ensures
            *final(self) == old(self).with_vertices(mesh.vertices@),
    {
        let ghost b0 = *self;
        let mut i: usize = 0;
        while i < mesh.vertices.len()
            invariant
                i <= mesh.vertices@.len(),
                *self == b0.with_vertices(mesh.vertices@.subrange(0, i as int)),
            decreases mesh.vertices@.len() - i,
        {
            self.add_vertex(&mesh.vertices[i]);
            proof {
                let pre = mesh.vertices@.subrange(0, i as int + 1);
                assert(pre.drop_last() =~= mesh.vertices@.subrange(0, i as int));
            }
            i = i + 1;
        }
        assert(mesh.vertices@.subrange(0, mesh.vertices@.len() as int) =~= mesh.vertices@);
    }
}

impl Default for Bounds {
    fn default() -> (r: Bounds)
        ensures
            r == empty_bounds(),
    {
        Bounds {
            s: (Scalar { raw: i64::MAX }, Scalar { raw: i64::MIN }),
            t: (Scalar { raw: i64::MAX }, Scalar { raw: i64::MIN }),
        }
    }
}

impl TMesh {
    /// The parametric bounding box of all vertices.
    pub fn bounds(&self) -> (r: Bounds)
        ensures
            r == empty_bounds().with_vertices(self.vertices@),
    {
        let mut b = Bounds::default();
        b.add_mesh(self);
        b
    }
}

} // verus!
