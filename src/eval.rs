//! The rational tensor-product evaluator and the grid tessellator.
use vstd::prelude::*;
use crate::basis::{basis, cubic_basis_function, zero};
use crate::bounds::{empty_bounds, Bounds};
use crate::knots::{LocalKnots, ALIGN_TOL, SMALL_TOL};
use crate::mesh::{ControlPoint, Point3, TMesh};
use crate::scalar::Scalar;

verus! {

/// Running sums: the numerator's `x`, `y`, `z` and the weight sum.
pub type Sums = (Scalar, Scalar, Scalar, Scalar);

/// The knot vectors of a cache, as sequences.
pub open spec fn cache_view(kc: Seq<LocalKnots>) -> Seq<(Seq<Scalar>, Seq<Scalar>)> {
    Seq::new(kc.len(), |i: int| (kc[i].0@, kc[i].1@))
}

/// `(s, t)` lies in the support box of knot vectors `k`.
pub open spec fn in_support(k: (Seq<Scalar>, Seq<Scalar>), s: Scalar, t: Scalar) -> bool {
    k.0[0].val() <= s.val() <= k.0[4].val() && k.1[0].val() <= t.val() <= k.1[4].val()
}

/// The weighted basis value `B_s(s) · B_t(t) · w` of one control point.
pub open spec fn weighted_basis(
    cp: ControlPoint,
    k: (Seq<Scalar>, Seq<Scalar>),
    s: Scalar,
    t: Scalar,
) -> Scalar {
    basis(s, k.0).spec_mul(basis(t, k.1)).spec_mul(cp.geometry.w)
}

/// Adds one control point's contribution to the sums.
pub open spec fn add_contribution(
    acc: Sums,
    cp: ControlPoint,
    k: (Seq<Scalar>, Seq<Scalar>),
    s: Scalar,
    t: Scalar,
) -> Sums {
    if !in_support(k, s, t) {
        acc
    } else {
        let b = weighted_basis(cp, k, s, t);
        let g = cp.geometry;
        if b.spec_abs().val() >= ALIGN_TOL {
            (
                acc.0.spec_add(g.x.spec_mul(b)),
                acc.1.spec_add(g.y.spec_mul(b)),
                acc.2.spec_add(g.z.spec_mul(b)),
                acc.3.spec_add(b),
            )
        } else {
            (acc.0, acc.1, acc.2, acc.3.spec_add(b))
        }
    }
}

/// The sums over the first `i` control points.
pub open spec fn sums_upto(
    vs: Seq<ControlPoint>,
    kc: Seq<(Seq<Scalar>, Seq<Scalar>)>,
    s: Scalar,
    t: Scalar,
    i: nat,
) -> Sums
    decreases i,
{
    if i == 0 {
        (zero(), zero(), zero(), zero())
    } else {
        let j = (i - 1) as nat;
        add_contribution(sums_upto(vs, kc, s, t, j), vs[j as int], kc[j as int], s, t)
    }
}

/// The surface point at `(s, t)`: the weighted sum divided by the weight
/// sum, or none where the weight sum is near zero.
pub open spec fn surface_point(
    vs: Seq<ControlPoint>,
    kc: Seq<(Seq<Scalar>, Seq<Scalar>)>,
    s: Scalar,
    t: Scalar,
) -> Option<Point3> {
    let a = sums_upto(vs, kc, s, t, vs.len());
    if a.3.spec_abs().val() < SMALL_TOL {
        None
    } else {
        Some(Point3 { x: a.0.spec_div(a.3), y: a.1.spec_div(a.3), z: a.2.spec_div(a.3) })
    }
}

/// The points of grid samples `0..i`, skipping those where the surface is undefined.
pub open spec fn grid_points(
    vs: Seq<ControlPoint>,
    kc: Seq<(Seq<Scalar>, Seq<Scalar>)>,
    b: Bounds,
    n: int,
    i: nat,
) -> Seq<Point3>
    decreases i,
{
    if i == 0 {
        seq![]
    } else {
        let j = (i - 1) as nat;
        let prev = grid_points(vs, kc, b, n, j);
        let st = b.spec_interpolate(j as int, n);
        match surface_point(vs, kc, st.0, st.1) {
            Some(p) => prev.push(p),
            None => prev,
        }
    }
}

impl TMesh {
    /// The knot vectors of every vertex, as sequences.
    pub open spec fn knot_cache_spec(&self) -> Seq<(Seq<Scalar>, Seq<Scalar>)> {
        Seq::new(self.vertices@.len(), |i: int| self.local_knots(i))
    }

    /// The `resolution × resolution` tessellation of the surface.
    pub open spec fn tessellation(&self, resolution: int) -> Seq<Point3> {
        grid_points(
            self.vertices@,
            self.knot_cache_spec(),
            empty_bounds().with_vertices(self.vertices@),
            resolution,
            (resolution * resolution) as nat,
        )
    }

    /// Evaluates the surface at `st` with the per-vertex knot vectors
    /// `knot_cache`; none where the weight sum is near zero.
    pub fn subs(&self, st: (Scalar, Scalar), knot_cache: &[LocalKnots]) -> (r: Option<Point3>)
        requires
            knot_cache@.len() >= self.nv(),
        ensures
            r == surface_point(self.vertices@, cache_view(knot_cache@), st.0, st.1),
    {
        let (s, t) = st;
        let ghost kc = cache_view(knot_cache@);
        let mut nx = Scalar::zero();
        let mut ny = Scalar::zero();
        let mut nz = Scalar::zero();
        let mut den = Scalar::zero();
        let mut i: usize = 0;
        while i < self.vertices.len()
            invariant
                kc == cache_view(knot_cache@),
                knot_cache@.len() >= self.nv(),
                i <= self.nv(),
                (nx, ny, nz, den) == sums_upto(self.vertices@, kc, s, t, i as nat),
            decreases self.nv() - i,
        {
            let vert = &self.vertices[i];
            let knots = &knot_cache[i];
            let sk = &knots.0;
            let tk = &knots.1;
            assert(kc[i as int] == (sk@, tk@));
            if !(s.raw < sk[0].raw || s.raw > sk[4].raw || t.raw < tk[0].raw || t.raw > tk[4].raw) {
                let basis_s = cubic_basis_function(s, sk);
                let basis_t = cubic_basis_function(t, tk);
                let b = basis_s.mul(basis_t).mul(vert.geometry.w);
                if b.abs().raw >= ALIGN_TOL {
                    nx = nx.add(vert.geometry.x.mul(b));
                    ny = ny.add(vert.geometry.y.mul(b));
                    nz = nz.add(vert.geometry.z.mul(b));
                }
                den = den.add(b);
            }
            i = i + 1;
        }
        if den.abs().raw < SMALL_TOL {
            return None;
        }
        Some(Point3 { x: nx.div(den), y: ny.div(den), z: nz.div(den) })
    }
}

/// Samples the surface on a uniform `resolution × resolution` grid over the
/// mesh's parametric bounds.
pub struct Tessellate {
    pub resolution: usize,
}

impl Tessellate {
    /// The surface points of the grid in row-major order, leaving out the
    /// samples where the surface is undefined.
    pub fn run(&self, mesh: &TMesh) -> (r: Vec<Point3>)
        requires
            mesh.wf(),
            self.resolution * self.resolution <= usize::MAX,
        ensures
            r@ == mesh.tessellation(self.resolution as int),
    {
        let n = self.resolution;
        let bounds = mesh.bounds();
        let knot_cache = mesh.knot_vectors();
        assert(cache_view(knot_cache@) =~= mesh.knot_cache_spec());
        let total = n * n;
        let mut out: Vec<Point3> = Vec::new();
        let mut i: usize = 0;
        while i < total
            invariant
                mesh.wf(),
                knot_cache@.len() == mesh.nv(),
                cache_view(knot_cache@) == mesh.knot_cache_spec(),
                bounds == empty_bounds().with_vertices(mesh.vertices@),
                total == n * n,
                i <= total,
                out@ == grid_points(
                    mesh.vertices@,
                    mesh.knot_cache_spec(),
                    bounds,
                    n as int,
                    i as nat,
                ),
            decreases total - i,
        {
            let st = bounds.interpolate(i, n);
            match mesh.subs(st, knot_cache.as_slice()) {
                Some(p) => out.push(p),
                None => {},
            }
            i = i + 1;
        }
        out
    }
}

} // verus!
