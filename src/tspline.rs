//! The spline wrapper that owns a mesh, and the command capabilities that
//! read or edit it.
use vstd::prelude::*;
use crate::bounds::{empty_bounds, Bounds};
use crate::eval::{surface_point, Tessellate};
use crate::scalar::Scalar;
use crate::knots::LocalKnots;
use crate::mesh::{ControlPoint, Point3, TMesh, Vector4, VertID};

verus! {

/// A read-only operation on a mesh.
pub trait Command {
    type Result;

    /// The meshes on which the operation may run.
    spec fn accepts(&self, mesh: TMesh) -> bool;

    /// What the operation returns on `mesh`.
    spec fn produces(&self, mesh: TMesh, r: Self::Result) -> bool;

    fn execute(&mut self, mesh: &TMesh) -> (r: Self::Result)
        requires
            old(self).accepts(*mesh),
        ensures
            old(self).produces(*mesh, r),
    ;

    /// Runs the command on the mesh of `spline`.
    fn apply(&mut self, spline: &TSpline) -> (r: Self::Result) where Self: Sized
        requires
            old(self).accepts(spline.spec_mesh()),
        ensures
            old(self).produces(spline.spec_mesh(), r),
    {
        self.execute(spline.mesh())
    }
}

/// An editing operation on a mesh.
///
/// Closures are not made editing commands: for a closure over `&mut TMesh`
/// the mesh it leaves behind can only be named through a prophetic value,
/// which Verus refuses in a spec function such as `produces`, so such an
/// impl could promise nothing about the edited mesh. Editing operations
/// implement this trait as types of their own, such as [`SetGeometry`].
pub trait CommandMut {
    type Result;

    /// The meshes on which the operation may run.
    spec fn accepts(&self, mesh: TMesh) -> bool;

    /// How the operation changes `before` into `after`, and what it returns.
    spec fn produces(&self, before: TMesh, after: TMesh, r: Self::Result) -> bool;

    fn execute(&mut self, mesh: &mut TMesh) -> (r: Self::Result)
        requires
            old(self).accepts(*old(mesh)),
        ensures
            old(self).produces(*old(mesh), *final(mesh), r),
    ;

    /// Runs the command on the mesh of `spline`.
    fn apply(&mut self, spline: &mut TSpline) -> (r: Self::Result) where Self: Sized
        requires
            old(self).accepts(old(spline).spec_mesh()),
        ensures
            old(self).produces(old(spline).spec_mesh(), final(spline).spec_mesh(), r),
    {
        self.execute(&mut spline.mesh)
    }
}

impl Command for Tessellate {
    type Result = Vec<Point3>;

    open spec fn accepts(&self, mesh: TMesh) -> bool {
        mesh.wf() && self.resolution * self.resolution <= usize::MAX
    }

    open spec fn produces(&self, mesh: TMesh, r: Vec<Point3>) -> bool {
        r@ == mesh.tessellation(self.resolution as int)
    }

    fn execute(&mut self, mesh: &TMesh) -> (r: Vec<Point3>) {
        self.run(mesh)
    }
}

/// Any function of a mesh is a read-only command.
impl<F: Fn(&TMesh) -> O, O> Command for F {
    type Result = O;

    open spec fn accepts(&self, mesh: TMesh) -> bool {
        self.requires((&mesh,))
    }

    open spec fn produces(&self, mesh: TMesh, r: O) -> bool {
        self.ensures((&mesh,), r)
    }

    fn execute(&mut self, mesh: &TMesh) -> (r: O) {
        (self)(mesh)
    }
}

/// Replaces the geometry of one control point; answers whether the vertex
/// exists (when it does not, the mesh is left as it was).
pub struct SetGeometry {
    pub vertex: VertID,
    pub geometry: Vector4,
}

impl CommandMut for SetGeometry {
    type Result = bool;

    open spec fn accepts(&self, mesh: TMesh) -> bool {
        true
    }

    open spec fn produces(&self, before: TMesh, after: TMesh, r: bool) -> bool {
        let v = self.vertex.0 as int;
        &&& r == (v < before.nv())
        &&& after.edges@ == before.edges@
        &&& after.faces@ == before.faces@
        &&& after.vertices@ == if r {
            before.vertices@.update(
                v,
                ControlPoint { geometry: self.geometry, ..before.vertices@[v] },
            )
        } else {
            before.vertices@
        }
    }

    fn execute(&mut self, mesh: &mut TMesh) -> (r: bool) {
        let v = self.vertex.0;
        if v < mesh.vertices.len() {
            let mut c = mesh.vertices[v];
            c.geometry = self.geometry;
            mesh.vertices.set(v, c);
            true
        } else {
            false
        }
    }
}

pub struct TSpline {
    mesh: TMesh,
}

impl TSpline {
    pub closed spec fn spec_mesh(&self) -> TMesh {
        self.mesh
    }

    /// Wraps `mesh`; knot vectors are inferred from it whenever they are read.
    pub fn new(mesh: TMesh) -> (r: TSpline)
        ensures
            r.spec_mesh() == mesh,
    {
        TSpline { mesh }
    }

    /// Runs a read-only command on the mesh.
    pub fn apply<C: Command>(&self, op: &mut C) -> (r: C::Result)
        requires
            old(op).accepts(self.spec_mesh()),
        ensures
            old(op).produces(self.spec_mesh(), r),
    {
        op.execute(&self.mesh)
    }

    /// Runs an editing command on the mesh.
    pub fn apply_mut<C: CommandMut>(&mut self, op: &mut C) -> (r: C::Result)
        requires
            old(op).accepts(old(self).spec_mesh()),
        ensures
            old(op).produces(old(self).spec_mesh(), final(self).spec_mesh(), r),
    {
        op.execute(&mut self.mesh)
    }

    /// The mesh, for reading.
    pub fn mesh(&self) -> (r: &TMesh)
        ensures
            *r == self.spec_mesh(),
    {
        &self.mesh
    }

    /// Gives the mesh back.
    pub fn into_mesh(self) -> (r: TMesh)
        ensures
            r == self.spec_mesh(),
    {
        self.mesh
    }

    /// The local knot vectors of every control point of the current mesh.
    pub fn knot_vectors(&self) -> (r: Vec<LocalKnots>)
        requires
            self.spec_mesh().wf(),
        ensures
            r@.len() == self.spec_mesh().nv(),
            forall|i: int|
                0 <= i < self.spec_mesh().nv() ==> (#[trigger] r@[i]).0@
                    == self.spec_mesh().local_knots(i).0 && r@[i].1@ == self.spec_mesh().local_knots(
                    i,
                ).1,
    {
        self.mesh.knot_vectors()
    }

    /// The parametric bounding box of the control points.
    pub fn bounds(&self) -> (r: Bounds)
        ensures
            r == empty_bounds().with_vertices(self.spec_mesh().vertices@),
    {
        self.mesh.bounds()
    }

    /// The surface point at `st`, with knot vectors inferred from the
    /// current mesh; none where the weight sum is near zero.
    pub fn subs(&self, st: (Scalar, Scalar)) -> (r: Option<Point3>)
        requires
            self.spec_mesh().wf(),
        ensures
            r == surface_point(
                self.spec_mesh().vertices@,
                self.spec_mesh().knot_cache_spec(),
                st.0,
                st.1,
            ),
    {
        let knots = self.mesh.knot_vectors();
        assert(crate::eval::cache_view(knots@) =~= self.spec_mesh().knot_cache_spec());
        self.mesh.subs(st, knots.as_slice())
    }

    /// The surface sampled on a `resolution × resolution` grid.
    pub fn tessellate(&self, resolution: usize) -> (r: Vec<Point3>)
        requires
            self.spec_mesh().wf(),
            resolution * resolution <= usize::MAX,
        ensures
            r@ == self.spec_mesh().tessellation(resolution as int),
    {
        let t = Tessellate { resolution };
        t.run(&self.mesh)
    }
}

impl Default for TSpline {
    fn default() -> (r: TSpline)
        ensures
            r.spec_mesh().is_empty(),
    {
        TSpline::new(TMesh::default())
    }
}

impl From<TMesh> for TSpline {
    fn from(value: TMesh) -> (r: TSpline) {
        TSpline::new(value)
    }
}

impl vstd::std_specs::convert::FromSpecImpl<TMesh> for TSpline {
    open spec fn obeys_from_spec() -> bool {
        true
    }

    closed spec fn from_spec(v: TMesh) -> TSpline {
        TSpline { mesh: v }
    }
}

impl From<TSpline> for TMesh {
    fn from(value: TSpline) -> (r: TMesh) {
        value.into_mesh()
    }
}

impl vstd::std_specs::convert::FromSpecImpl<TSpline> for TMesh {
    open spec fn obeys_from_spec() -> bool {
        true
    }

    open spec fn from_spec(v: TSpline) -> TMesh {
        v.spec_mesh()
    }
}

} // verus!
