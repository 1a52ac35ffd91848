//! The half-edge T-mesh: three append-only tables linked by integer handles.
use vstd::prelude::*;
use crate::orbit::{iterate, partial_injection, orbit_len, lemma_orbit};
use crate::scalar::Scalar;

verus! {

#[derive(Clone, Copy, Debug, PartialEq, Eq, Structural)]
pub struct VertID(pub usize);

#[derive(Clone, Copy, Debug, PartialEq, Eq, Structural)]
pub struct EdgeID(pub usize);

#[derive(Clone, Copy, Debug, PartialEq, Eq, Structural)]
pub struct FaceID(pub usize);

/// The parametric axis along which an edge varies.
#[derive(Clone, Copy, Debug, PartialEq, Eq, Structural)]
pub enum Direction {
    S,
    T,
}

/// A point of the parametric domain.
#[derive(Clone, Copy, Debug, PartialEq, Eq, Structural)]
pub struct ParamPoint {
    pub s: Scalar,
    pub t: Scalar,
}

/// Homogeneous control-point geometry; `w` is the rational weight and
/// `(x, y, z)` are not multiplied by it.
#[derive(Clone, Copy, Debug, PartialEq, Eq, Structural)]
pub struct Vector4 {
    pub x: Scalar,
    pub y: Scalar,
    pub z: Scalar,
    pub w: Scalar,
}

/// A point on the surface.
#[derive(Clone, Copy, Debug, PartialEq, Eq, Structural)]
pub struct Point3 {
    pub x: Scalar,
    pub y: Scalar,
    pub z: Scalar,
}

#[derive(Clone, Copy, Debug)]
pub struct ControlPoint {
    pub geometry: Vector4,
    /// Parametric location (knot values) of the point.
    pub uv: ParamPoint,
    /// One half-edge that starts at this vertex.
    pub outgoing_edge: Option<EdgeID>,
    pub is_t_junction: bool,
}

#[derive(Clone, Copy, Debug)]
pub struct HalfEdge {
    pub origin: VertID,
    pub twin: Option<EdgeID>,
    /// The face on the left; none on a boundary loop.
    pub face: Option<FaceID>,
    pub next: EdgeID,
    pub prev: EdgeID,
    /// Parametric length of the edge.
    pub knot_interval: Scalar,
    pub direction: Direction,
}

#[derive(Clone, Copy, Debug)]
pub struct Face {
    /// One half-edge of the face's boundary loop.
    pub edge: EdgeID,
}

#[derive(Clone, Debug)]
pub struct TMesh {
    pub vertices: Vec<ControlPoint>,
    pub edges: Vec<HalfEdge>,
    pub faces: Vec<Face>,
}

impl TMesh {
    pub open spec fn nv(&self) -> int {
        self.vertices@.len() as int
    }

    pub open spec fn ne(&self) -> int {
        self.edges@.len() as int
    }

    pub open spec fn nf(&self) -> int {
        self.faces@.len() as int
    }

    pub open spec fn next_of(&self, e: int) -> int {
        self.edges@[e].next.0 as int
    }

    pub open spec fn prev_of(&self, e: int) -> int {
        self.edges@[e].prev.0 as int
    }

    pub open spec fn origin_of(&self, e: int) -> int {
        self.edges@[e].origin.0 as int
    }

    /// The links of half-edge `e` are in range and consistent.
    pub open spec fn edge_wf(&self, e: int) -> bool {
        let h = self.edges@[e];
        &&& h.origin.0 < self.nv()
        &&& h.next.0 < self.ne()
        &&& h.prev.0 < self.ne()
        &&& self.prev_of(h.next.0 as int) == e
        &&& self.next_of(h.prev.0 as int) == e
        &&& self.edges@[h.next.0 as int].face == h.face
        &&& (h.face matches Some(f) ==> f.0 < self.nf())
        &&& (h.twin matches Some(t) ==> {
            &&& t.0 < self.ne()
            &&& self.edges@[t.0 as int].twin == Some(EdgeID(e as usize))
            &&& self.origin_of(t.0 as int) == self.origin_of(h.next.0 as int)
        })
        &&& self.axis_matches(e)
    }

    /// The edge varies only along the axis that its direction names.
    pub open spec fn axis_matches(&self, e: int) -> bool {
        let h = self.edges@[e];
        let a = self.vertices@[h.origin.0 as int].uv;
        let b = self.vertices@[self.origin_of(h.next.0 as int)].uv;
        match h.direction {
            Direction::S => a.t == b.t,
            Direction::T => a.s == b.s,
        }
    }

    pub open spec fn vertex_wf(&self, v: int) -> bool {
        self.vertices@[v].outgoing_edge matches Some(o) ==> o.0 < self.ne() && self.origin_of(
            o.0 as int,
        ) == v
    }

    pub open spec fn face_wf(&self, f: int) -> bool {
        let e = self.faces@[f].edge.0 as int;
        e < self.ne() && self.edges@[e].face == Some(FaceID(f as usize))
    }

    /// Well-formedness of the half-edge store.
    pub open spec fn wf(&self) -> bool {
        &&& forall|e: int| 0 <= e < self.ne() ==> #[trigger] self.edge_wf(e)
        &&& forall|v: int| 0 <= v < self.nv() ==> #[trigger] self.vertex_wf(v)
        &&& forall|f: int| 0 <= f < self.nf() ==> #[trigger] self.face_wf(f)
    }

    /// `next`, as a map on handles.
    pub open spec fn next_map(&self) -> spec_fn(int) -> int {
        |e: int|
            if 0 <= e < self.ne() {
                self.next_of(e)
            } else {
                -1
            }
    }

    /// The spoke rotation `twin ∘ prev` about a vertex; `-1` where a twin is missing.
    pub open spec fn spoke_map(&self) -> spec_fn(int) -> int {
        |e: int|
            if 0 <= e < self.ne() {
                match self.edges@[self.prev_of(e)].twin {
                    Some(t) => t.0 as int,
                    None => -1,
                }
            } else {
                -1
            }
    }

    /// The opposite spoke rotation `next ∘ twin`; `-1` where a twin is missing.
    pub open spec fn rotate_map(&self) -> spec_fn(int) -> int {
        |e: int|
            if 0 <= e < self.ne() {
                match self.edges@[e].twin {
                    Some(t) => self.next_of(t.0 as int),
                    None => -1,
                }
            } else {
                -1
            }
    }

    /// The boundary loop of face `f`, from its recorded half-edge.
    pub open spec fn face_loop(&self, f: int) -> Seq<EdgeID> {
        let start = self.faces@[f].edge.0 as int;
        Seq::new(
            orbit_len(self.next_map(), start, self.ne() as nat),
            |i: int| EdgeID(iterate(self.next_map(), start, i as nat) as usize),
        )
    }

    /// The first spoke, along `next ∘ twin` from `first`, whose destination is `v_end`.
    pub open spec fn find_edge_from(&self, first: int, v_end: int, i: nat, len: nat) -> Option<
        EdgeID,
    >
        decreases len - i,
    {
        if i >= len {
            None
        } else {
            let e = iterate(self.rotate_map(), first, i);
            match self.edges@[e].twin {
                None => None,
                Some(t) => if self.origin_of(t.0 as int) == v_end {
                    Some(EdgeID(e as usize))
                } else {
                    self.find_edge_from(first, v_end, i + 1, len)
                },
            }
        }
    }

    pub open spec fn find_edge_spec(&self, u: int, v: int) -> Option<EdgeID> {
        match self.vertices@[u].outgoing_edge {
            None => None,
            Some(first) => self.find_edge_from(
                first.0 as int,
                v,
                0,
                orbit_len(self.rotate_map(), first.0 as int, self.ne() as nat),
            ),
        }
    }

    pub proof fn lemma_next_injective(&self)
        requires
            self.wf(),
        ensures
            partial_injection(self.next_map(), self.ne()),
    {
        let f = self.next_map();
        assert forall|x: int| 0 <= x < self.ne() implies -1 <= #[trigger] f(x) < self.ne() by {
            assert(self.edge_wf(x));
        }
        assert forall|x: int, y: int|
            0 <= x < self.ne() && 0 <= y < self.ne() && #[trigger] f(x) == #[trigger] f(y) && f(x)
                >= 0 implies x == y by {
            assert(self.edge_wf(x));
            assert(self.edge_wf(y));
        }
    }

    pub proof fn lemma_spoke_injective(&self)
        requires
            self.wf(),
        ensures
            partial_injection(self.spoke_map(), self.ne()),
    {
        let f = self.spoke_map();
        assert forall|x: int| 0 <= x < self.ne() implies -1 <= #[trigger] f(x) < self.ne() by {
            assert(self.edge_wf(x));
            assert(self.edge_wf(self.prev_of(x)));
        }
        assert forall|x: int, y: int|
            0 <= x < self.ne() && 0 <= y < self.ne() && #[trigger] f(x) == #[trigger] f(y) && f(x)
                >= 0 implies x == y by {
            assert(self.edge_wf(x));
            assert(self.edge_wf(y));
            assert(self.edge_wf(self.prev_of(x)));
            assert(self.edge_wf(self.prev_of(y)));
        }
    }

    pub proof fn lemma_rotate_injective(&self)
        requires
            self.wf(),
        ensures
            partial_injection(self.rotate_map(), self.ne()),
    {
        let f = self.rotate_map();
        assert forall|x: int| 0 <= x < self.ne() implies -1 <= #[trigger] f(x) < self.ne() by {
            assert(self.edge_wf(x));
            if let Some(t) = self.edges@[x].twin {
                assert(self.edge_wf(t.0 as int));
            }
        }
        assert forall|x: int, y: int|
            0 <= x < self.ne() && 0 <= y < self.ne() && #[trigger] f(x) == #[trigger] f(y) && f(x)
                >= 0 implies x == y by {
            assert(self.edge_wf(x));
            assert(self.edge_wf(y));
            let tx = self.edges@[x].twin.unwrap().0 as int;
            let ty = self.edges@[y].twin.unwrap().0 as int;
            assert(self.edge_wf(tx));
            assert(self.edge_wf(ty));
        }
    }

    fn check_edge(&self, e: usize) -> (r: bool)
        requires
            e < self.ne(),
            forall|k: int| 0 <= k < self.ne() ==> (#[trigger] self.edges@[k]).origin.0 < self.nv(),
        ensures
            r == self.edge_wf(e as int),
    {
        let h = &self.edges[e];
        let ne = self.edges.len();
        if h.origin.0 >= self.vertices.len() || h.next.0 >= ne || h.prev.0 >= ne {
            return false;
        }
        let n = &self.edges[h.next.0];
        if n.prev.0 != e || self.edges[h.prev.0].next.0 != e {
            return false;
        }
        let same_face = match (n.face, h.face) {
            (Some(a), Some(b)) => a.0 == b.0,
            (None, None) => true,
            _ => false,
        };
        if !same_face {
            return false;
        }
        if let Some(f) = h.face {
            if f.0 >= self.faces.len() {
                return false;
            }
        }
        let linked = match h.twin {
            None => true,
            Some(t) => {
                if t.0 >= ne {
                    return false;
                }
                let tw = &self.edges[t.0];
                let back = match tw.twin {
                    Some(b) => b.0 == e,
                    None => false,
                };
                if !back || tw.origin.0 != n.origin.0 {
                    return false;
                }
                true
            },
        };
        if !linked {
            return false;
        }
        let a = self.vertices[h.origin.0].uv;
        let b = self.vertices[n.origin.0].uv;
        match h.direction {
            Direction::S => a.t == b.t,
            Direction::T => a.s == b.s,
        }
    }

    /// Whether the half-edge store is well formed.
    pub fn is_well_formed(&self) -> (r: bool)
        ensures
            r == self.wf(),
    {
        let mut o: usize = 0;
        while o < self.edges.len()
            invariant
                o <= self.ne(),
                forall|k: int| 0 <= k < o ==> (#[trigger] self.edges@[k]).origin.0 < self.nv(),
            decreases self.ne() - o,
        {
            if self.edges[o].origin.0 >= self.vertices.len() {
                assert(!self.edge_wf(o as int));
                return false;
            }
            o = o + 1;
        }
        let mut e: usize = 0;
        while e < self.edges.len()
            invariant
                e <= self.ne(),
                forall|k: int| 0 <= k < self.ne() ==> (#[trigger] self.edges@[k]).origin.0 < self.nv(),
                forall|k: int| 0 <= k < e ==> #[trigger] self.edge_wf(k),
            decreases self.ne() - e,
        {
            if !self.check_edge(e) {
                return false;
            }
            e = e + 1;
        }
        let mut v: usize = 0;
        while v < self.vertices.len()
            invariant
                v <= self.nv(),
                forall|k: int| 0 <= k < self.ne() ==> #[trigger] self.edge_wf(k),
                forall|k: int| 0 <= k < v ==> #[trigger] self.vertex_wf(k),
            decreases self.nv() - v,
        {
            if let Some(o) = self.vertices[v].outgoing_edge {
                if o.0 >= self.edges.len() || self.edges[o.0].origin.0 != v {
                    assert(!self.vertex_wf(v as int));
                    return false;
                }
            }
            v = v + 1;
        }
        let mut f: usize = 0;
        while f < self.faces.len()
            invariant
                f <= self.nf(),
                forall|k: int| 0 <= k < self.ne() ==> #[trigger] self.edge_wf(k),
                forall|k: int| 0 <= k < self.nv() ==> #[trigger] self.vertex_wf(k),
                forall|k: int| 0 <= k < f ==> #[trigger] self.face_wf(k),
            decreases self.nf() - f,
        {
            let e0 = self.faces[f].edge.0;
            if e0 >= self.edges.len() {
                assert(!self.face_wf(f as int));
                return false;
            }
            match self.edges[e0].face {
                Some(g) => {
                    if g.0 != f {
                        assert(!self.face_wf(f as int));
                        return false;
                    }
                },
                None => {
                    assert(!self.face_wf(f as int));
                    return false;
                },
            }
            f = f + 1;
        }
        true
    }

    /// The control point with handle `id`.
    pub fn vertex(&self, id: VertID) -> (r: &ControlPoint)
        requires
            id.0 < self.nv(),
        ensures
            *r == self.vertices@[id.0 as int],
    {
        &self.vertices[id.0]
    }

    /// The half-edge with handle `id`.
    pub fn edge(&self, id: EdgeID) -> (r: &HalfEdge)
        requires
            id.0 < self.ne(),
        ensures
            *r == self.edges@[id.0 as int],
    {
        &self.edges[id.0]
    }

    /// The face with handle `id`.
    pub fn face(&self, id: FaceID) -> (r: &Face)
        requires
            id.0 < self.nf(),
        ensures
            *r == self.faces@[id.0 as int],
    {
        &self.faces[id.0]
    }

    /// The half-edges bounding `face_id`, walking `next` from its recorded
    /// half-edge until that half-edge recurs.
    pub fn face_edges(&self, face_id: FaceID) -> (r: Vec<EdgeID>)
        requires
            self.wf(),
            face_id.0 < self.nf(),
        ensures
            r@ == self.face_loop(face_id.0 as int),
            forall|j: int| 0 <= j < r@.len() ==> (#[trigger] r@[j]).0 < self.ne(),
    {
        let ghost f = self.next_map();
        let ghost n = self.ne() as nat;
        assert(self.face_wf(face_id.0 as int));
        let start = self.faces[face_id.0].edge;
        let ghost len = orbit_len(f, start.0 as int, n);
        proof {
            self.lemma_next_injective();
            lemma_orbit(f, start.0 as int, n);
        }
        let mut edges: Vec<EdgeID> = Vec::new();
        edges.push(start);
        let mut curr = self.edges[start.0].next;
        assert(self.edge_wf(start.0 as int));
        assert(iterate(f, start.0 as int, 0) == start.0);
        assert(iterate(f, start.0 as int, 1) == curr.0);
        while curr != start
            invariant
                self.wf(),
                f == self.next_map(),
                n == self.ne(),
                start.0 < n,
                len == orbit_len(f, start.0 as int, n),
                1 <= len <= n,
                forall|k: nat| 1 <= k < len ==> !crate::orbit::stops_at(f, start.0 as int, k),
                forall|k: nat| k < len ==> 0 <= #[trigger] iterate(f, start.0 as int, k) < n,
                crate::orbit::stops_at(f, start.0 as int, len),
                1 <= edges@.len() <= len,
                curr.0 as int == iterate(f, start.0 as int, edges@.len() as nat),
                forall|i: int|
                    0 <= i < edges@.len() ==> edges@[i].0 as int == iterate(
                        f,
                        start.0 as int,
                        i as nat,
                    ),
            decreases len - edges@.len(),
        {
            let ghost k = edges@.len();
            assert(k < len) by {
                if k == len {
                    assert(curr.0 >= 0);
                }
            }
            assert(0 <= curr.0 < n);
            assert(self.edge_wf(curr.0 as int));
            edges.push(curr);
            curr = self.edges[curr.0].next;
            assert(iterate(f, start.0 as int, (k + 1) as nat) == curr.0);
        }
        proof {
            let k = edges@.len();
            if k < len {
                assert(!crate::orbit::stops_at(f, start.0 as int, k as nat));
            }
            assert(edges@ =~= self.face_loop(face_id.0 as int));
        }
        edges
    }

    /// The half-edge from `v_start` to `v_end`, found by circulating the
    /// spokes of `v_start` with `next ∘ twin`.
    pub fn find_edge(&self, v_start: VertID, v_end: VertID) -> (r: Option<EdgeID>)
        requires
            self.wf(),
            v_start.0 < self.nv(),
        ensures
            r == self.find_edge_spec(v_start.0 as int, v_end.0 as int),
    {
        let ghost g = self.rotate_map();
        let ghost n = self.ne() as nat;
        assert(self.vertex_wf(v_start.0 as int));
        let first = match self.vertices[v_start.0].outgoing_edge {
            Some(e) => e,
            None => {
                return None;
            },
        };
        let ghost len = orbit_len(g, first.0 as int, n);
        proof {
            self.lemma_rotate_injective();
            lemma_orbit(g, first.0 as int, n);
        }
        let mut curr = first;
        let ghost mut i: nat = 0;
        assert(iterate(g, first.0 as int, 0) == first.0);
        loop
            invariant
                self.wf(),
                g == self.rotate_map(),
                n == self.ne(),
                first.0 < n,
                len == orbit_len(g, first.0 as int, n),
                1 <= len <= n,
                forall|k: nat| 1 <= k < len ==> !crate::orbit::stops_at(g, first.0 as int, k),
                forall|k: nat| k < len ==> 0 <= #[trigger] iterate(g, first.0 as int, k) < n,
                crate::orbit::stops_at(g, first.0 as int, len),
                i < len,
                curr.0 as int == iterate(g, first.0 as int, i),
                self.find_edge_spec(v_start.0 as int, v_end.0 as int) == self.find_edge_from(
                    first.0 as int,
                    v_end.0 as int,
                    i,
                    len,
                ),
            decreases len - i,
        {
            assert(self.edge_wf(curr.0 as int));
            let edge = &self.edges[curr.0];
            match edge.twin {
                Some(t) => {
                    if self.edges[t.0].origin == v_end {
                        assert(self.find_edge_from(first.0 as int, v_end.0 as int, i, len) == Some(
                            curr,
                        ));
                        return Some(curr);
                    }
                    assert(self.find_edge_from(first.0 as int, v_end.0 as int, i, len)
                        == self.find_edge_from(first.0 as int, v_end.0 as int, i + 1, len));
                    let nxt = self.edges[t.0].next;
                    assert(iterate(g, first.0 as int, i + 1) == nxt.0);
                    if nxt == first {
                        proof {
                            if i + 1 < len {
                                assert(!crate::orbit::stops_at(g, first.0 as int, i + 1));
                            }
                        }
                        return None;
                    }
                    curr = nxt;
                    proof {
                        if i + 1 == len {
                            assert(crate::orbit::stops_at(g, first.0 as int, len));
                        }
                        i = i + 1;
                    }
                },
                None => {
                    return None;
                },
            }
        }
    }
}

impl TMesh {
    /// The mesh has no vertices, half-edges or faces.
    pub open spec fn is_empty(&self) -> bool {
        self.nv() == 0 && self.ne() == 0 && self.nf() == 0
    }
}

impl Default for TMesh {
    fn default() -> (r: TMesh)
        ensures
            r.is_empty(),
    {
        TMesh { vertices: Vec::new(), edges: Vec::new(), faces: Vec::new() }
    }
}

} // verus!
