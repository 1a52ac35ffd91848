//! Local knot inference: each control point casts four rays along `±S`,
//! `±T` and reads two knots from each.
use vstd::prelude::*;
use crate::mesh::{Direction, EdgeID, ParamPoint, TMesh, VertID};
use crate::orbit::{iterate, lemma_orbit, orbit_len, stops_at};
use crate::scalar::Scalar;

verus! {

/// Offsets below this many units count as zero (one unit of resolution).
pub const ALIGN_TOL: i64 = 1;

/// A small tolerance, in units (about 1e-9): the slack with which a face edge spans a ray, and the least weight sum the evaluator divides by.
pub const SMALL_TOL: i64 = 4;

/// How far, in units, a face-edge hit must lie ahead of the ray's start (about 1e-6).
pub const AHEAD_TOL: i64 = 4295;

/// The `S` and `T` knot vectors of one control point.
pub type LocalKnots = ([Scalar; 5], [Scalar; 5]);

/// The coordinate that varies along `axis`.
pub open spec fn along(p: ParamPoint, axis: Direction) -> Scalar {
    match axis {
        Direction::S => p.s,
        Direction::T => p.t,
    }
}

/// The coordinate that stays fixed along `axis`.
pub open spec fn across(p: ParamPoint, axis: Direction) -> Scalar {
    match axis {
        Direction::S => p.t,
        Direction::T => p.s,
    }
}

fn along_of(p: &ParamPoint, axis: Direction) -> (r: Scalar)
    ensures
        r == along(*p, axis),
{
    match axis {
        Direction::S => p.s,
        Direction::T => p.t,
    }
}

fn across_of(p: &ParamPoint, axis: Direction) -> (r: Scalar)
    ensures
        r == across(*p, axis),
{
    match axis {
        Direction::S => p.t,
        Direction::T => p.s,
    }
}

/// Pads a ray's knots to two by repeating `c`.
pub open spec fn fill(acc: Seq<Scalar>, c: Scalar) -> Seq<Scalar> {
    if acc.len() >= 2 {
        acc
    } else if acc.len() == 1 {
        acc.push(c)
    } else {
        seq![c, c]
    }
}

/// Assembles one knot vector from the point's own knot and its two rays,
/// collapsing to multiplicity four on a boundary.
pub open spec fn assemble(own: Scalar, neg: Seq<Scalar>, pos: Seq<Scalar>) -> Seq<Scalar> {
    if neg[0] == own && neg[1] == own {
        seq![own, own, own, own, pos[0]]
    } else if pos[0] == own && pos[1] == own {
        seq![neg[0], own, own, own, own]
    } else {
        seq![neg[1], neg[0], own, pos[0], pos[1]]
    }
}

/// The best face-edge hit so far: its distance and its coordinate.
pub type Hit = (Scalar, Option<Scalar>);

pub open spec fn no_hit() -> Hit {
    (Scalar { raw: i64::MAX }, None)
}

impl TMesh {
    pub open spec fn uv_of(&self, v: int) -> ParamPoint {
        self.vertices@[v].uv
    }

    /// `dest` lies on the ray from `v` along `axis`, strictly on the requested side.
    pub open spec fn aligned(&self, v: int, dest: int, axis: Direction, positive: bool) -> bool {
        let a = self.uv_of(v);
        let b = self.uv_of(dest);
        let delta = along(b, axis).spec_sub(along(a, axis)).val();
        let ortho = across(b, axis).spec_sub(across(a, axis)).spec_abs().val();
        &&& ortho < ALIGN_TOL
        &&& (positive && delta >= ALIGN_TOL) || (!positive && delta <= -ALIGN_TOL)
    }

    /// The first spoke at `v`, from step `i` of the `twin ∘ prev` walk, whose
    /// destination is aligned with the ray.
    pub open spec fn step_from(
        &self,
        v: int,
        start: int,
        axis: Direction,
        positive: bool,
        i: nat,
        len: nat,
    ) -> Option<VertID>
        decreases len - i,
    {
        if i >= len {
            None
        } else {
            let e = iterate(self.spoke_map(), start, i);
            match self.edges@[e].twin {
                None => None,
                Some(t) => {
                    let dest = self.origin_of(t.0 as int);
                    if self.aligned(v, dest, axis, positive) {
                        Some(VertID(dest as usize))
                    } else {
                        self.step_from(v, start, axis, positive, i + 1, len)
                    }
                },
            }
        }
    }

    /// The neighbour of `v` along an edge in the requested direction.
    pub open spec fn next_vertex_in_direction(&self, v: int, axis: Direction, positive: bool) -> Option<
        VertID,
    > {
        match self.vertices@[v].outgoing_edge {
            None => None,
            Some(o) => self.step_from(
                v,
                o.0 as int,
                axis,
                positive,
                0,
                orbit_len(self.spoke_map(), o.0 as int, self.ne() as nat),
            ),
        }
    }

    /// The far end of half-edge `e`.
    pub open spec fn far_end(&self, e: int) -> ParamPoint {
        match self.edges@[e].twin {
            Some(t) => self.uv_of(self.origin_of(t.0 as int)),
            None => self.uv_of(self.origin_of(self.next_of(e))),
        }
    }

    /// Where the ray from `v` crosses half-edge `e`, strictly ahead of `v`:
    /// the distance and the coordinate along the ray.
    pub open spec fn ray_hit(&self, v: int, axis: Direction, positive: bool, e: int) -> Option<
        (Scalar, Scalar),
    > {
        let o = self.uv_of(v);
        let e_from = self.uv_of(self.origin_of(e));
        let e_to = self.far_end(e);
        let rc = across(o, axis);
        let rs = along(o, axis);
        let c1 = across(e_from, axis);
        let v1 = along(e_from, axis);
        let c2 = across(e_to, axis);
        let v2 = along(e_to, axis);
        let slack = Scalar { raw: SMALL_TOL };
        if rc.val() >= c1.spec_min(c2).spec_sub(slack).val() && rc.val() <= c1.spec_max(
            c2,
        ).spec_add(slack).val() {
            let dc = c2.spec_sub(c1);
            if dc.spec_abs().val() < ALIGN_TOL {
                None
            } else {
                let frac = rc.spec_sub(c1).spec_div(dc);
                let iv = v1.spec_add(frac.spec_mul(v2.spec_sub(v1)));
                let dist = iv.spec_sub(rs);
                if (positive && dist.val() > AHEAD_TOL) || (!positive && dist.val() < -AHEAD_TOL) {
                    Some((dist.spec_abs(), iv))
                } else {
                    None
                }
            }
        } else {
            None
        }
    }

    pub open spec fn take_hit(&self, v: int, axis: Direction, positive: bool, e: int, best: Hit) -> Hit {
        match self.ray_hit(v, axis, positive, e) {
            Some(h) => if h.0.val() < best.0.val() {
                (h.0, Some(h.1))
            } else {
                best
            },
            None => best,
        }
    }

    /// Folds the hits of the half-edges `lp[j..]` into `best`.
    pub open spec fn scan_loop(
        &self,
        v: int,
        axis: Direction,
        positive: bool,
        lp: Seq<EdgeID>,
        j: nat,
        best: Hit,
    ) -> Hit
        decreases lp.len() - j,
    {
        if j >= lp.len() {
            best
        } else {
            self.scan_loop(v, axis, positive, lp, j + 1, self.take_hit(v, axis, positive, lp[j as int].0 as int, best))
        }
    }

    /// Folds the hits of the faces of the spokes `i..len` (walk `next ∘ twin`) into `best`.
    pub open spec fn scan_spokes(
        &self,
        v: int,
        axis: Direction,
        positive: bool,
        first: int,
        i: nat,
        len: nat,
        best: Hit,
    ) -> Hit
        decreases len - i,
    {
        if i >= len {
            best
        } else {
            let e = iterate(self.rotate_map(), first, i);
            let b2 = match self.edges@[e].face {
                Some(f) => self.scan_loop(v, axis, positive, self.face_loop(f.0 as int), 0, best),
                None => best,
            };
            self.scan_spokes(v, axis, positive, first, i + 1, len, b2)
        }
    }

    /// The nearest crossing, strictly ahead, of the ray from `v` with an edge
    /// of a face incident to `v`.
    pub open spec fn face_intersection(&self, v: int, axis: Direction, positive: bool) -> Option<Scalar> {
        match self.vertices@[v].outgoing_edge {
            None => None,
            Some(o) => self.scan_spokes(
                v,
                axis,
                positive,
                o.0 as int,
                0,
                orbit_len(self.rotate_map(), o.0 as int, self.ne() as nat),
                no_hit(),
            ).1,
        }
    }

    /// The knots a ray from `cur` still has to collect, after `acc`.
    pub open spec fn trace_from(&self, cur: int, axis: Direction, positive: bool, acc: Seq<Scalar>) -> Seq<
        Scalar,
    >
        decreases 2 - acc.len(),
    {
        if acc.len() >= 2 {
            acc
        } else {
            match self.next_vertex_in_direction(cur, axis, positive) {
                Some(nv) => self.trace_from(
                    nv.0 as int,
                    axis,
                    positive,
                    acc.push(along(self.uv_of(nv.0 as int), axis)),
                ),
                None => match self.face_intersection(cur, axis, positive) {
                    Some(c) => fill(acc, c),
                    None => fill(
                        acc,
                        if acc.len() > 0 {
                            acc.last()
                        } else {
                            along(self.uv_of(cur), axis)
                        },
                    ),
                },
            }
        }
    }

    /// The two knots that the ray from `v` yields.
    pub open spec fn trace_spec(&self, v: int, axis: Direction, positive: bool) -> Seq<Scalar> {
        self.trace_from(v, axis, positive, seq![])
    }

    /// The local knot vectors of vertex `v`.
    pub open spec fn local_knots(&self, v: int) -> (Seq<Scalar>, Seq<Scalar>) {
        let uv = self.uv_of(v);
        (
            assemble(
                uv.s,
                self.trace_spec(v, Direction::S, false),
                self.trace_spec(v, Direction::S, true),
            ),
            assemble(
                uv.t,
                self.trace_spec(v, Direction::T, false),
                self.trace_spec(v, Direction::T, true),
            ),
        )
    }

    /// The neighbour of `v_id` reached along an edge in the requested
    /// direction: the first spoke, circulating with `twin ∘ prev`, whose
    /// destination is aligned with the axis.
    pub fn find_next_vertex_in_direction(&self, v_id: VertID, axis: Direction, positive: bool) -> (r:
        Option<VertID>)
        requires
            self.wf(),
            v_id.0 < self.nv(),
        ensures
            r == self.next_vertex_in_direction(v_id.0 as int, axis, positive),
            r matches Some(d) ==> d.0 < self.nv(),
    {
        let ghost g = self.spoke_map();
        let ghost n = self.ne() as nat;
        let ghost v = v_id.0 as int;
        assert(self.vertex_wf(v));
        let vuv = self.vertices[v_id.0].uv;
        let start = match self.vertices[v_id.0].outgoing_edge {
            Some(e) => e,
            None => {
                return None;
            },
        };
        let ghost len = orbit_len(g, start.0 as int, n);
        proof {
            self.lemma_spoke_injective();
            lemma_orbit(g, start.0 as int, n);
        }
        let mut curr = start;
        let ghost mut i: nat = 0;
        assert(iterate(g, start.0 as int, 0) == start.0);
        loop
            invariant
                self.wf(),
                g == self.spoke_map(),
                n == self.ne(),
                v == v_id.0,
                v < self.nv(),
                vuv == self.uv_of(v),
                start.0 < n,
                len == orbit_len(g, start.0 as int, n),
                1 <= len <= n,
                forall|k: nat| 1 <= k < len ==> !stops_at(g, start.0 as int, k),
                forall|k: nat| k < len ==> 0 <= #[trigger] iterate(g, start.0 as int, k) < n,
                stops_at(g, start.0 as int, len),
                i < len,
                curr.0 as int == iterate(g, start.0 as int, i),
                self.next_vertex_in_direction(v, axis, positive) == self.step_from(
                    v,
                    start.0 as int,
                    axis,
                    positive,
                    i,
                    len,
                ),
            decreases len - i,
        {
            assert(self.edge_wf(curr.0 as int));
            let edge = &self.edges[curr.0];
            let t = match edge.twin {
                Some(t) => t,
                None => {
                    assert(self.step_from(v, start.0 as int, axis, positive, i, len) == None::<
                        VertID,
                    >);
                    return None;
                },
            };
            assert(self.edge_wf(t.0 as int));
            let dest_id = self.edges[t.0].origin;
            let duv = self.vertices[dest_id.0].uv;
            let delta = along_of(&duv, axis).sub(along_of(&vuv, axis));
            let ortho = across_of(&duv, axis).sub(across_of(&vuv, axis)).abs();
            let hit = ortho.raw < ALIGN_TOL && ((positive && delta.raw >= ALIGN_TOL) || (!positive
                && delta.raw <= -ALIGN_TOL));
            assert(hit == self.aligned(v, dest_id.0 as int, axis, positive));
            if hit {
                assert(self.step_from(v, start.0 as int, axis, positive, i, len) == Some(dest_id));
                return Some(dest_id);
            }
            assert(self.step_from(v, start.0 as int, axis, positive, i, len) == self.step_from(
                v,
                start.0 as int,
                axis,
                positive,
                i + 1,
                len,
            ));
            assert(self.edge_wf(edge.prev.0 as int));
            let nxt = match self.edges[edge.prev.0].twin {
                Some(x) => x,
                None => {
                    proof {
                        assert(g(curr.0 as int) == -1);
                        assert(iterate(g, start.0 as int, i + 1) == -1);
                        if i + 1 < len {
                            assert(!stops_at(g, start.0 as int, i + 1));
                        }
                    }
                    return None;
                },
            };
            assert(iterate(g, start.0 as int, i + 1) == nxt.0);
            if nxt == start {
                proof {
                    if i + 1 < len {
                        assert(!stops_at(g, start.0 as int, i + 1));
                    }
                }
                return None;
            }
            curr = nxt;
            proof {
                if i + 1 == len {
                    assert(stops_at(g, start.0 as int, len));
                }
                i = i + 1;
            }
        }
    }
}

impl TMesh {
    /// Where the ray from `v_id` crosses half-edge `e`, if strictly ahead.
    fn edge_ray_hit(&self, v_id: VertID, axis: Direction, positive: bool, e: EdgeID) -> (r: Option<
        (Scalar, Scalar),
    >)
        requires
            self.wf(),
            v_id.0 < self.nv(),
            e.0 < self.ne(),
        ensures
            r == self.ray_hit(v_id.0 as int, axis, positive, e.0 as int),
    {
        assert(self.edge_wf(e.0 as int));
        let o = self.vertices[v_id.0].uv;
        let edge = &self.edges[e.0];
        let e_from = self.vertices[edge.origin.0].uv;
        let e_to = match edge.twin {
            Some(t) => {
                assert(self.edge_wf(t.0 as int));
                self.vertices[self.edges[t.0].origin.0].uv
            },
            None => {
                assert(self.edge_wf(edge.next.0 as int));
                self.vertices[self.edges[edge.next.0].origin.0].uv
            },
        };
        let rc = across_of(&o, axis);
        let rs = along_of(&o, axis);
        let c1 = across_of(&e_from, axis);
        let v1 = along_of(&e_from, axis);
        let c2 = across_of(&e_to, axis);
        let v2 = along_of(&e_to, axis);
        let slack = Scalar { raw: SMALL_TOL };
        let lo = if c1.raw < c2.raw {
            c1
        } else {
            c2
        };
        let hi = if c1.raw > c2.raw {
            c1
        } else {
            c2
        };
        if rc.raw >= lo.sub(slack).raw && rc.raw <= hi.add(slack).raw {
            let dc = c2.sub(c1);
            if dc.abs().raw < ALIGN_TOL {
                None
            } else {
                let frac = rc.sub(c1).div(dc);
                let iv = v1.add(frac.mul(v2.sub(v1)));
                let dist = iv.sub(rs);
                if (positive && dist.raw > AHEAD_TOL) || (!positive && dist.raw < -AHEAD_TOL) {
                    Some((dist.abs(), iv))
                } else {
                    None
                }
            }
        } else {
            None
        }
    }

    /// The nearest crossing, strictly ahead, of the ray from `start_v` with
    /// an edge of a face incident to `start_v`; faces are visited by
    /// circulating the spokes with `next ∘ twin`.
    fn find_face_intersection(&self, start_v: VertID, axis: Direction, positive: bool) -> (r: Option<
        Scalar,
    >)
        requires
            self.wf(),
            start_v.0 < self.nv(),
        ensures
            r == self.face_intersection(start_v.0 as int, axis, positive),
    {
        let ghost g = self.rotate_map();
        let ghost n = self.ne() as nat;
        let ghost v = start_v.0 as int;
        assert(self.vertex_wf(v));
        let start = match self.vertices[start_v.0].outgoing_edge {
            Some(e) => e,
            None => {
                return None;
            },
        };
        let ghost len = orbit_len(g, start.0 as int, n);
        proof {
            self.lemma_rotate_injective();
            lemma_orbit(g, start.0 as int, n);
        }
        let mut curr = start;
        let ghost mut i: nat = 0;
        let mut best_d = Scalar { raw: i64::MAX };
        let mut best: Option<Scalar> = None;
        assert(iterate(g, start.0 as int, 0) == start.0);
        loop
            invariant
                self.wf(),
                g == self.rotate_map(),
                n == self.ne(),
                v == start_v.0,
                v < self.nv(),
                start.0 < n,
                len == orbit_len(g, start.0 as int, n),
                1 <= len <= n,
                forall|k: nat| 1 <= k < len ==> !stops_at(g, start.0 as int, k),
                forall|k: nat| k < len ==> 0 <= #[trigger] iterate(g, start.0 as int, k) < n,
                stops_at(g, start.0 as int, len),
                i < len,
                curr.0 as int == iterate(g, start.0 as int, i),
                self.face_intersection(v, axis, positive) == self.scan_spokes(
                    v,
                    axis,
                    positive,
                    start.0 as int,
                    i,
                    len,
                    (best_d, best),
                ).1,
            decreases len - i,
        {
            assert(self.edge_wf(curr.0 as int));
            let spoke = &self.edges[curr.0];
            let ghost b0: Hit = (best_d, best);
            if let Some(f) = spoke.face {
                let lp = self.face_edges(f);
                let mut j: usize = 0;
                while j < lp.len()
                    invariant
                        self.wf(),
                        v == start_v.0,
                        v < self.nv(),
                        j <= lp@.len(),
                        forall|q: int| 0 <= q < lp@.len() ==> (#[trigger] lp@[q]).0 < self.ne(),
                        self.scan_loop(v, axis, positive, lp@, 0, b0) == self.scan_loop(
                            v,
                            axis,
                            positive,
                            lp@,
                            j as nat,
                            (best_d, best),
                        ),
                    decreases lp@.len() - j,
                {
                    let e = lp[j];
                    let h = self.edge_ray_hit(start_v, axis, positive, e);
                    assert(lp@[j as int] == e);
                    match h {
                        Some(hit) => {
                            if hit.0.raw < best_d.raw {
                                best_d = hit.0;
                                best = Some(hit.1);
                            }
                        },
                        None => {},
                    }
                    j = j + 1;
                }
            }
            assert(self.scan_spokes(v, axis, positive, start.0 as int, i, len, b0)
                == self.scan_spokes(v, axis, positive, start.0 as int, i + 1, len, (best_d, best)));
            let nxt = match spoke.twin {
                Some(t) => {
                    assert(self.edge_wf(t.0 as int));
                    self.edges[t.0].next
                },
                None => {
                    proof {
                        assert(iterate(g, start.0 as int, i + 1) == -1);
                        if i + 1 < len {
                            assert(!stops_at(g, start.0 as int, i + 1));
                        }
                    }
                    return best;
                },
            };
            assert(iterate(g, start.0 as int, i + 1) == nxt.0);
            if nxt == start {
                proof {
                    if i + 1 < len {
                        assert(!stops_at(g, start.0 as int, i + 1));
                    }
                }
                return best;
            }
            curr = nxt;
            proof {
                if i + 1 == len {
                    assert(stops_at(g, start.0 as int, len));
                }
                i = i + 1;
            }
        }
    }

    /// Casts a ray from `start_v` and collects the next two knots along it.
    pub(crate) fn trace_knots(&self, start_v: VertID, axis: Direction, positive: bool) -> (r: (Scalar, Scalar))
        requires
            self.wf(),
            start_v.0 < self.nv(),
        ensures
            seq![r.0, r.1] == self.trace_spec(start_v.0 as int, axis, positive),
    {
        let mut acc: Vec<Scalar> = Vec::new();
        let mut current = start_v;
        while acc.len() < 2
            invariant
                self.wf(),
                current.0 < self.nv(),
                acc@.len() <= 2,
                self.trace_spec(start_v.0 as int, axis, positive) == self.trace_from(
                    current.0 as int,
                    axis,
                    positive,
                    acc@,
                ),
            decreases 2 - acc@.len(),
        {
            match self.find_next_vertex_in_direction(current, axis, positive) {
                Some(nv) => {
                    current = nv;
                    let uv = self.vertices[nv.0].uv;
                    acc.push(along_of(&uv, axis));
                },
                None => {
                    let c = match self.find_face_intersection(current, axis, positive) {
                        Some(c) => c,
                        None => if acc.len() > 0 {
                            acc[acc.len() - 1]
                        } else {
                            let uv = self.vertices[current.0].uv;
                            along_of(&uv, axis)
                        },
                    };
                    let ghost before = acc@;
                    while acc.len() < 2
                        invariant
                            acc@.len() <= 2,
                            before.len() < 2,
                            before.len() <= acc@.len(),
                            acc@.subrange(0, before.len() as int) == before,
                            forall|q: int| before.len() <= q < acc@.len() ==> acc@[q] == c,
                        decreases 2 - acc@.len(),
                    {
                        acc.push(c);
                    }
                    assert(acc@ =~= fill(before, c));
                },
            }
        }
        assert(acc@ =~= seq![acc@[0], acc@[1]]);
        (acc[0], acc[1])
    }

    /// Infers the local `S` and `T` knot vectors of control point `v_id`.
    pub fn infer_local_knots(&self, v_id: VertID) -> (r: LocalKnots)
        requires
            self.wf(),
            v_id.0 < self.nv(),
        ensures
            r.0@ == self.local_knots(v_id.0 as int).0,
            r.1@ == self.local_knots(v_id.0 as int).1,
    {
        let uv = self.vertices[v_id.0].uv;
        let s2 = uv.s;
        let t2 = uv.t;
        let s_pos = self.trace_knots(v_id, Direction::S, true);
        let s_neg = self.trace_knots(v_id, Direction::S, false);
        let t_pos = self.trace_knots(v_id, Direction::T, true);
        let t_neg = self.trace_knots(v_id, Direction::T, false);
        let s_knots = assemble_knots(s2, s_neg, s_pos);
        let t_knots = assemble_knots(t2, t_neg, t_pos);
        (s_knots, t_knots)
    }

    /// The local knot vectors of every control point, in vertex order.
    pub fn knot_vectors(&self) -> (r: Vec<LocalKnots>)
        requires
            self.wf(),
        ensures
            r@.len() == self.nv(),
            forall|i: int|
                0 <= i < self.nv() ==> (#[trigger] r@[i]).0@ == self.local_knots(i).0 && r@[i].1@
                    == self.local_knots(i).1,
    {
        let mut out: Vec<LocalKnots> = Vec::new();
        let mut i: usize = 0;
        while i < self.vertices.len()
            invariant
                self.wf(),
                i <= self.nv(),
                out@.len() == i,
                forall|q: int|
                    0 <= q < i ==> (#[trigger] out@[q]).0@ == self.local_knots(q).0 && out@[q].1@
                        == self.local_knots(q).1,
            decreases self.nv() - i,
        {
            out.push(self.infer_local_knots(VertID(i)));
            i = i + 1;
        }
        out
    }
}

/// One knot vector from the point's own knot and its two rays.
fn assemble_knots(own: Scalar, neg: (Scalar, Scalar), pos: (Scalar, Scalar)) -> (r: [Scalar; 5])
    ensures
        r@ == assemble(own, seq![neg.0, neg.1], seq![pos.0, pos.1]),
{
    let r = if neg.0 == own && neg.1 == own {
        [own, own, own, own, pos.0]
    } else if pos.0 == own && pos.1 == own {
        [neg.0, own, own, own, own]
    } else {
        [neg.1, neg.0, own, pos.0, pos.1]
    };
    assert(r@ =~= assemble(own, seq![neg.0, neg.1], seq![pos.0, pos.1]));
    r
}

} // verus!
