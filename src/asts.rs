//! Analysis-suitability: the extensions of T-junctions in the two axes must
//! not cross.
use vstd::prelude::*;
use crate::mesh::{Direction, ParamPoint, TMesh, VertID};
use crate::segment::Segment;

verus! {

impl TMesh {
    /// The first ray direction, in the order `+S`, `-S`, `+T`, `-T`, in
    /// which vertex `v` has no edge: where a T-junction points.
    pub open spec fn missing_ray(&self, v: int) -> Option<(Direction, bool)> {
        if self.next_vertex_in_direction(v, Direction::S, true) is None {
            Some((Direction::S, true))
        } else if self.next_vertex_in_direction(v, Direction::S, false) is None {
            Some((Direction::S, false))
        } else if self.next_vertex_in_direction(v, Direction::T, true) is None {
            Some((Direction::T, true))
        } else if self.next_vertex_in_direction(v, Direction::T, false) is None {
            Some((Direction::T, false))
        } else {
            None
        }
    }

    /// The extension of T-junction `v`: from `v` along its missing
    /// direction to the second knot of that ray.
    pub open spec fn extension(&self, v: int) -> Option<(Direction, Segment)> {
        if !self.vertices@[v].is_t_junction {
            None
        } else {
            match self.missing_ray(v) {
                None => None,
                Some(ray) => {
                    let k = self.trace_spec(v, ray.0, ray.1)[1];
                    let uv = self.uv_of(v);
                    let end = match ray.0 {
                        Direction::S => ParamPoint { s: k, t: uv.t },
                        Direction::T => ParamPoint { s: uv.s, t: k },
                    };
                    Some((ray.0, Segment { start: uv, end }))
                },
            }
        }
    }

    /// The extensions along `axis` of the first `i` vertices, in vertex order.
    pub open spec fn extensions_upto(&self, axis: Direction, i: nat) -> Seq<Segment>
        decreases i,
    {
        if i == 0 {
            seq![]
        } else {
            let j = (i - 1) as nat;
            let prev = self.extensions_upto(axis, j);
            match self.extension(j as int) {
                Some(x) => if x.0 == axis {
                    prev.push(x.1)
                } else {
                    prev
                },
                None => prev,
            }
        }
    }

    pub open spec fn extensions(&self, axis: Direction) -> Seq<Segment> {
        self.extensions_upto(axis, self.nv() as nat)
    }

    /// No `S` extension meets a `T` extension.
    pub open spec fn asts_spec(&self) -> bool {
        let h = self.extensions(Direction::S);
        let w = self.extensions(Direction::T);
        forall|i: int, j: int| 0 <= i < h.len() && 0 <= j < w.len() ==> !h[i].spec_intersects(w[j])
    }

    fn find_missing_ray(&self, v: VertID) -> (r: Option<(Direction, bool)>)
        requires
            self.wf(),
            v.0 < self.nv(),
        ensures
            r == self.missing_ray(v.0 as int),
    {
        if self.find_next_vertex_in_direction(v, Direction::S, true).is_none() {
            Some((Direction::S, true))
        } else if self.find_next_vertex_in_direction(v, Direction::S, false).is_none() {
            Some((Direction::S, false))
        } else if self.find_next_vertex_in_direction(v, Direction::T, true).is_none() {
            Some((Direction::T, true))
        } else if self.find_next_vertex_in_direction(v, Direction::T, false).is_none() {
            Some((Direction::T, false))
        } else {
            None
        }
    }

    fn collect_extensions(&self, dir: Direction) -> (r: Vec<Segment>)
        requires
            self.wf(),
        ensures
            r@ == self.extensions(dir),
    {
        let mut out: Vec<Segment> = Vec::new();
        let mut i: usize = 0;
        while i < self.vertices.len()
            invariant
                self.wf(),
                i <= self.nv(),
                out@ == self.extensions_upto(dir, i as nat),
            decreases self.nv() - i,
        {
            let vert = &self.vertices[i];
            if vert.is_t_junction {
                match self.find_missing_ray(VertID(i)) {
                    Some(ray) => {
                        if ray.0 == dir {
                            let k = self.trace_knots(VertID(i), ray.0, ray.1);
                            assert(seq![k.0, k.1][1] == k.1);
                            let uv = vert.uv;
                            let end = match ray.0 {
                                Direction::S => ParamPoint { s: k.1, t: uv.t },
                                Direction::T => ParamPoint { s: uv.s, t: k.1 },
                            };
                            out.push(Segment { start: uv, end });
                        }
                    },
                    None => {},
                }
            }
            i = i + 1;
        }
        out
    }

    /// Whether the mesh is analysis-suitable: no extension of a T-junction
    /// along `S` intersects one along `T`.
    pub fn validate_asts(&self) -> (r: bool)
        requires
            self.wf(),
        ensures
            r == self.asts_spec(),
    {
        let h_exts = self.collect_extensions(Direction::S);
        let v_exts = self.collect_extensions(Direction::T);
        let mut i: usize = 0;
        while i < h_exts.len()
            invariant
                h_exts@ == self.extensions(Direction::S),
                v_exts@ == self.extensions(Direction::T),
                i <= h_exts@.len(),
                forall|a: int, b: int|
                    0 <= a < i && 0 <= b < v_exts@.len() ==> !h_exts@[a].spec_intersects(
                        v_exts@[b],
                    ),
            decreases h_exts@.len() - i,
        {
            let mut j: usize = 0;
            while j < v_exts.len()
                invariant
                    h_exts@ == self.extensions(Direction::S),
                    v_exts@ == self.extensions(Direction::T),
                    i < h_exts@.len(),
                    j <= v_exts@.len(),
                    forall|a: int, b: int|
                        0 <= a < i && 0 <= b < v_exts@.len() ==> !h_exts@[a].spec_intersects(
                            v_exts@[b],
                        ),
                    forall|b: int| 0 <= b < j ==> !h_exts@[i as int].spec_intersects(v_exts@[b]),
                decreases v_exts@.len() - j,
            {
                if h_exts[i].intersects(&v_exts[j]) {
                    return false;
                }
                j = j + 1;
            }
            i = i + 1;
        }
        true
    }
}

} // verus!
