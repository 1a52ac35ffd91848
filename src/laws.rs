//! Properties that hold of every well-formed mesh.
use vstd::prelude::*;
use crate::knots::{along, fill, no_hit, Hit};
use crate::mesh::{Direction, EdgeID, TMesh};
use crate::scalar::Scalar;
use crate::orbit::{iterate, lemma_orbit, lemma_orbit_distinct, orbit_len};
use crate::tspline::{CommandMut, SetGeometry};

verus! {

/// Each half-edge is the successor of its predecessor and the predecessor
/// of its successor; its twin, if any, has it as twin and starts where its
/// successor starts.
pub proof fn lemma_half_edge_links(m: &TMesh, e: int)
    requires
        m.wf(),
        0 <= e < m.ne(),
    ensures
        m.next_of(m.prev_of(e)) == e,
        m.prev_of(m.next_of(e)) == e,
        m.edges@[e].twin matches Some(t) ==> m.edges@[t.0 as int].twin == Some(EdgeID(e as usize))
            && m.origin_of(t.0 as int) == m.origin_of(m.next_of(e)),
{
    assert(m.edge_wf(e));
}

/// Every face walk returns to its recorded half-edge, and the loop of
/// half-edges it visits has no repetition.
pub proof fn lemma_face_walk_closes(m: &TMesh, f: int)
    requires
        m.wf(),
        0 <= f < m.nf(),
    ensures
        ({
            let start = m.faces@[f].edge.0 as int;
            let lp = m.face_loop(f);
            &&& 1 <= lp.len() <= m.ne()
            &&& iterate(m.next_map(), start, lp.len() as nat) == start
            &&& lp[0].0 == start
            &&& forall|i: int| 0 <= i < lp.len() - 1 ==> (#[trigger] lp[i + 1]).0 as int == m.next_of(
                lp[i].0 as int,
            )
            &&& m.next_of(lp[lp.len() - 1].0 as int) == start
            &&& lp.no_duplicates()
        }),
{
    let start = m.faces@[f].edge.0 as int;
    let fm = m.next_map();
    let n = m.ne() as nat;
    assert(m.face_wf(f));
    m.lemma_next_injective();
    lemma_orbit(fm, start, n);
    let lp = m.face_loop(f);
    let len = lp.len();
    assert(iterate(fm, start, len as nat) >= 0) by {
        let y = iterate(fm, start, (len - 1) as nat);
        assert(0 <= y < n);
        assert(m.edge_wf(y));
    }
    assert forall|i: int| 0 <= i < lp.len() - 1 implies (#[trigger] lp[i + 1]).0 as int == m.next_of(
        lp[i].0 as int,
    ) by {
        assert(iterate(fm, start, (i + 1) as nat) == fm(iterate(fm, start, i as nat)));
    }
    assert(iterate(fm, start, len as nat) == fm(iterate(fm, start, (len - 1) as nat)));
    assert forall|i: int, j: int| 0 <= i < lp.len() && 0 <= j < lp.len() && i != j implies lp[i]
        != lp[j] by {
        if i < j {
            lemma_orbit_distinct(fm, start, n, i as nat, j as nat);
        } else {
            lemma_orbit_distinct(fm, start, n, j as nat, i as nat);
        }
    }
}

/// In a mesh where every half-edge has a twin, rotating the outgoing edge
/// of a vertex with `twin ∘ prev` comes back to it within as many steps as
/// there are half-edges.
pub proof fn lemma_spokes_return(m: &TMesh, v: int)
    requires
        m.wf(),
        0 <= v < m.nv(),
        m.vertices@[v].outgoing_edge is Some,
        forall|e: int| 0 <= e < m.ne() ==> (#[trigger] m.edges@[e]).twin is Some,
    ensures
        exists|k: nat|
            1 <= k <= m.ne() && #[trigger] iterate(
                m.spoke_map(),
                m.vertices@[v].outgoing_edge.unwrap().0 as int,
                k,
            ) == m.vertices@[v].outgoing_edge.unwrap().0 as int,
{
    let g = m.spoke_map();
    let o = m.vertices@[v].outgoing_edge.unwrap().0 as int;
    let n = m.ne() as nat;
    assert(m.vertex_wf(v));
    m.lemma_spoke_injective();
    lemma_orbit(g, o, n);
    let len = orbit_len(g, o, n);
    let y = iterate(g, o, (len - 1) as nat);
    assert(0 <= y < n);
    assert(m.edge_wf(y));
    assert(m.edges@[m.prev_of(y)].twin is Some);
    assert(iterate(g, o, len) == g(y));
    assert(iterate(g, o, len) >= 0);
}

/// No vertex lies beyond `v` in the direction of the ray.
pub open spec fn extreme(m: &TMesh, v: int, axis: Direction, positive: bool) -> bool {
    forall|u: int|
        0 <= u < m.nv() ==> if positive {
            (#[trigger] along(m.uv_of(u), axis)).val() <= along(m.uv_of(v), axis).val()
        } else {
            along(m.uv_of(u), axis).val() >= along(m.uv_of(v), axis).val()
        }
}

proof fn lemma_no_step(
    m: &TMesh,
    v: int,
    start: int,
    axis: Direction,
    positive: bool,
    i: nat,
    len: nat,
)
    requires
        m.wf(),
        0 <= v < m.nv(),
        extreme(m, v, axis, positive),
        forall|k: nat| k < len ==> 0 <= #[trigger] iterate(m.spoke_map(), start, k) < m.ne(),
    ensures
        m.step_from(v, start, axis, positive, i, len) is None,
    decreases len - i,
{
    if i < len {
        let e = iterate(m.spoke_map(), start, i);
        assert(m.edge_wf(e));
        if let Some(t) = m.edges@[e].twin {
            assert(m.edge_wf(t.0 as int));
            let dest = m.origin_of(t.0 as int);
            assert(along(m.uv_of(dest), axis).val() <= along(m.uv_of(v), axis).val() || !positive);
            assert(!m.aligned(v, dest, axis, positive));
            lemma_no_step(m, v, start, axis, positive, i + 1, len);
        }
    }
}

proof fn lemma_no_hit(m: &TMesh, v: int, axis: Direction, positive: bool, e: int)
    requires
        m.wf(),
        0 <= v < m.nv(),
        0 <= e < m.ne(),
        extreme(m, v, axis, positive),
    ensures
        m.ray_hit(v, axis, positive, e) is None,
{
    assert(m.edge_wf(e));
    let h = m.edges@[e];
    assert(m.edge_wf(h.next.0 as int));
    if let Some(t) = h.twin {
        assert(m.far_end(e) == m.uv_of(m.origin_of(h.next.0 as int)));
    }
    let e_from = m.uv_of(m.origin_of(e));
    let e_to = m.far_end(e);
    assert(m.axis_matches(e));
    assert(e_to == m.uv_of(m.origin_of(h.next.0 as int)));
    let o = m.uv_of(v);
    let c1 = crate::knots::across(e_from, axis);
    let c2 = crate::knots::across(e_to, axis);
    let v1 = along(e_from, axis);
    let v2 = along(e_to, axis);
    if c1 != c2 {
        // the edge runs along the ray's axis, so it is fixed in the ray's coordinate
        assert(v1 == v2);
        let dc = c2.spec_sub(c1);
        let frac = crate::knots::across(o, axis).spec_sub(c1).spec_div(dc);
        let diff = v2.spec_sub(v1);
        assert(diff.val() == 0);
        assert(frac.val() * diff.val() == 0) by (nonlinear_arith)
            requires
                diff.val() == 0,
        ;
        assert(crate::scalar::quot(0, crate::scalar::ONE_RAW as int) == 0);
        assert(frac.spec_mul(diff).val() == 0);
        assert(v1.spec_add(frac.spec_mul(diff)) == v1);
        assert(along(e_from, axis).val() <= along(o, axis).val() || !positive);
        assert(along(e_from, axis).val() >= along(o, axis).val() || positive);
    } else {
        assert(c2.spec_sub(c1).val() == 0);
    }
}

proof fn lemma_scan_loop_none(
    m: &TMesh,
    v: int,
    axis: Direction,
    positive: bool,
    lp: Seq<EdgeID>,
    j: nat,
    best: Hit,
)
    requires
        m.wf(),
        0 <= v < m.nv(),
        extreme(m, v, axis, positive),
        forall|q: int| 0 <= q < lp.len() ==> (#[trigger] lp[q]).0 < m.ne(),
    ensures
        m.scan_loop(v, axis, positive, lp, j, best) == best,
    decreases lp.len() - j,
{
    if j < lp.len() {
        lemma_no_hit(m, v, axis, positive, lp[j as int].0 as int);
        lemma_scan_loop_none(m, v, axis, positive, lp, j + 1, best);
    }
}

/// The half-edges of a face loop are in range.
proof fn lemma_face_loop_in_range(m: &TMesh, f: int)
    requires
        m.wf(),
        0 <= f < m.nf(),
    ensures
        forall|q: int| 0 <= q < m.face_loop(f).len() ==> (#[trigger] m.face_loop(f)[q]).0 < m.ne(),
{
    assert(m.face_wf(f));
    m.lemma_next_injective();
    lemma_orbit(m.next_map(), m.faces@[f].edge.0 as int, m.ne() as nat);
    assert forall|q: int| 0 <= q < m.face_loop(f).len() implies (#[trigger] m.face_loop(
        f,
    )[q]).0 < m.ne() by {
        assert(0 <= iterate(m.next_map(), m.faces@[f].edge.0 as int, q as nat) < m.ne());
    }
}

proof fn lemma_scan_spokes_none(
    m: &TMesh,
    v: int,
    axis: Direction,
    positive: bool,
    first: int,
    i: nat,
    len: nat,
    best: Hit,
)
    requires
        m.wf(),
        0 <= v < m.nv(),
        extreme(m, v, axis, positive),
        forall|k: nat| k < len ==> 0 <= #[trigger] iterate(m.rotate_map(), first, k) < m.ne(),
    ensures
        m.scan_spokes(v, axis, positive, first, i, len, best) == best,
    decreases len - i,
{
    if i < len {
        let e = iterate(m.rotate_map(), first, i);
        assert(m.edge_wf(e));
        if let Some(f) = m.edges@[e].face {
            lemma_face_loop_in_range(m, f.0 as int);
            lemma_scan_loop_none(m, v, axis, positive, m.face_loop(f.0 as int), 0, best);
        }
        lemma_scan_spokes_none(m, v, axis, positive, first, i + 1, len, best);
    }
}

/// A ray that leaves the mesh at once repeats the vertex's own knot.
proof fn lemma_ray_at_boundary(m: &TMesh, v: int, axis: Direction, positive: bool)
    requires
        m.wf(),
        0 <= v < m.nv(),
        extreme(m, v, axis, positive),
    ensures
        m.trace_spec(v, axis, positive) == seq![along(m.uv_of(v), axis), along(m.uv_of(v), axis)],
{
    assert(m.vertex_wf(v));
    if let Some(o) = m.vertices@[v].outgoing_edge {
        let n = m.ne() as nat;
        m.lemma_spoke_injective();
        lemma_orbit(m.spoke_map(), o.0 as int, n);
        lemma_no_step(m, v, o.0 as int, axis, positive, 0, orbit_len(m.spoke_map(), o.0 as int, n));
        m.lemma_rotate_injective();
        lemma_orbit(m.rotate_map(), o.0 as int, n);
        lemma_scan_spokes_none(
            m,
            v,
            axis,
            positive,
            o.0 as int,
            0,
            orbit_len(m.rotate_map(), o.0 as int, n),
            no_hit(),
        );
    }
    let c = along(m.uv_of(v), axis);
    assert(fill(seq![], c) =~= seq![c, c]);
}

/// The first four or the last four knots coincide.
pub open spec fn fourfold_end(k: Seq<crate::scalar::Scalar>) -> bool {
    (k[0] == k[1] && k[1] == k[2] && k[2] == k[3]) || (k[1] == k[2] && k[2] == k[3] && k[3] == k[4])
}

/// A control point on the parametric boundary of the mesh (at the least or
/// the greatest `s`, or `t`) gets, in that axis, a knot vector whose first
/// four or last four knots coincide.
pub proof fn lemma_boundary_knots(m: &TMesh, v: int)
    requires
        m.wf(),
        0 <= v < m.nv(),
    ensures
        extreme(m, v, Direction::S, false) || extreme(m, v, Direction::S, true) ==> fourfold_end(
            m.local_knots(v).0,
        ),
        extreme(m, v, Direction::T, false) || extreme(m, v, Direction::T, true) ==> fourfold_end(
            m.local_knots(v).1,
        ),
{
    if extreme(m, v, Direction::S, false) {
        lemma_ray_at_boundary(m, v, Direction::S, false);
    }
    if extreme(m, v, Direction::S, true) {
        lemma_ray_at_boundary(m, v, Direction::S, true);
    }
    if extreme(m, v, Direction::T, false) {
        lemma_ray_at_boundary(m, v, Direction::T, false);
    }
    if extreme(m, v, Direction::T, true) {
        lemma_ray_at_boundary(m, v, Direction::T, true);
    }
}

/// Replacing the geometry of a control point keeps the mesh well formed:
/// the links and the parametric locations are untouched.
pub proof fn lemma_set_geometry_keeps_wf(cmd: SetGeometry, before: TMesh, after: TMesh, r: bool)
    requires
        before.wf(),
        cmd.produces(before, after, r),
    ensures
        after.wf(),
{
    assert forall|v: int| 0 <= v < after.nv() implies after.vertices@[v].uv == before.vertices@[v].uv
        && after.vertices@[v].outgoing_edge == before.vertices@[v].outgoing_edge by {}
    assert forall|e: int| 0 <= e < after.ne() implies #[trigger] after.edge_wf(e) by {
        assert(before.edge_wf(e));
        let h = before.edges@[e];
        assert(before.edge_wf(h.next.0 as int));
    }
    assert forall|v: int| 0 <= v < after.nv() implies #[trigger] after.vertex_wf(v) by {
        assert(before.vertex_wf(v));
    }
    assert forall|f: int| 0 <= f < after.nf() implies #[trigger] after.face_wf(f) by {
        assert(before.face_wf(f));
    }
}

/// `a` lies at or beyond `b` along the ray's sign.
pub open spec fn at_or_beyond(a: Scalar, b: Scalar, positive: bool) -> bool {
    if positive {
        a.val() >= b.val()
    } else {
        a.val() <= b.val()
    }
}

/// `a` lies strictly beyond `b` along the ray's sign.
pub open spec fn beyond(a: Scalar, b: Scalar, positive: bool) -> bool {
    if positive {
        a.val() > b.val()
    } else {
        a.val() < b.val()
    }
}

proof fn lemma_step_beyond(
    m: &TMesh,
    v: int,
    start: int,
    axis: Direction,
    positive: bool,
    i: nat,
    len: nat,
)
    requires
        m.wf(),
        0 <= v < m.nv(),
        forall|k: nat| k < len ==> 0 <= #[trigger] iterate(m.spoke_map(), start, k) < m.ne(),
    ensures
        m.step_from(v, start, axis, positive, i, len) matches Some(d) ==> d.0 < m.nv() && beyond(
            along(m.uv_of(d.0 as int), axis),
            along(m.uv_of(v), axis),
            positive,
        ),
    decreases len - i,
{
    if i < len {
        let e = iterate(m.spoke_map(), start, i);
        assert(m.edge_wf(e));
        if let Some(t) = m.edges@[e].twin {
            assert(m.edge_wf(t.0 as int));
            lemma_step_beyond(m, v, start, axis, positive, i + 1, len);
        }
    }
}

proof fn lemma_next_vertex_beyond(m: &TMesh, v: int, axis: Direction, positive: bool)
    requires
        m.wf(),
        0 <= v < m.nv(),
    ensures
        m.next_vertex_in_direction(v, axis, positive) matches Some(d) ==> d.0 < m.nv() && beyond(
            along(m.uv_of(d.0 as int), axis),
            along(m.uv_of(v), axis),
            positive,
        ),
{
    assert(m.vertex_wf(v));
    if let Some(o) = m.vertices@[v].outgoing_edge {
        let n = m.ne() as nat;
        m.lemma_spoke_injective();
        lemma_orbit(m.spoke_map(), o.0 as int, n);
        lemma_step_beyond(m, v, o.0 as int, axis, positive, 0, orbit_len(m.spoke_map(), o.0 as int, n));
    }
}

/// The best hit so far, if any, lies strictly beyond `v`.
pub open spec fn hit_beyond(m: &TMesh, v: int, axis: Direction, positive: bool, best: Hit) -> bool {
    best.1 matches Some(c) ==> beyond(c, along(m.uv_of(v), axis), positive)
}

proof fn lemma_scan_loop_beyond(
    m: &TMesh,
    v: int,
    axis: Direction,
    positive: bool,
    lp: Seq<EdgeID>,
    j: nat,
    best: Hit,
)
    requires
        hit_beyond(m, v, axis, positive, best),
    ensures
        hit_beyond(m, v, axis, positive, m.scan_loop(v, axis, positive, lp, j, best)),
    decreases lp.len() - j,
{
    if j < lp.len() {
        let b2 = m.take_hit(v, axis, positive, lp[j as int].0 as int, best);
        assert(hit_beyond(m, v, axis, positive, b2));
        lemma_scan_loop_beyond(m, v, axis, positive, lp, j + 1, b2);
    }
}

proof fn lemma_scan_spokes_beyond(
    m: &TMesh,
    v: int,
    axis: Direction,
    positive: bool,
    first: int,
    i: nat,
    len: nat,
    best: Hit,
)
    requires
        hit_beyond(m, v, axis, positive, best),
    ensures
        hit_beyond(m, v, axis, positive, m.scan_spokes(v, axis, positive, first, i, len, best)),
    decreases len - i,
{
    if i < len {
        let e = iterate(m.rotate_map(), first, i);
        let b2 = match m.edges@[e].face {
            Some(f) => m.scan_loop(v, axis, positive, m.face_loop(f.0 as int), 0, best),
            None => best,
        };
        if let Some(f) = m.edges@[e].face {
            lemma_scan_loop_beyond(m, v, axis, positive, m.face_loop(f.0 as int), 0, best);
        }
        lemma_scan_spokes_beyond(m, v, axis, positive, first, i + 1, len, b2);
    }
}

proof fn lemma_trace_from_ordered(
    m: &TMesh,
    v: int,
    cur: int,
    axis: Direction,
    positive: bool,
    acc: Seq<Scalar>,
)
    requires
        m.wf(),
        0 <= cur < m.nv(),
        acc.len() <= 2,
        acc.len() == 0 ==> along(m.uv_of(cur), axis) == along(m.uv_of(v), axis),
        acc.len() >= 1 ==> acc.last() == along(m.uv_of(cur), axis) && beyond(
            acc[0],
            along(m.uv_of(v), axis),
            positive,
        ),
        acc.len() == 2 ==> at_or_beyond(acc[1], acc[0], positive),
    ensures
        ({
            let r = m.trace_from(cur, axis, positive, acc);
            &&& r.len() == 2
            &&& at_or_beyond(r[0], along(m.uv_of(v), axis), positive)
            &&& at_or_beyond(r[1], r[0], positive)
        }),
    decreases 2 - acc.len(),
{
    if acc.len() < 2 {
        lemma_next_vertex_beyond(m, cur, axis, positive);
        match m.next_vertex_in_direction(cur, axis, positive) {
            Some(nv) => {
                let acc2 = acc.push(along(m.uv_of(nv.0 as int), axis));
                lemma_trace_from_ordered(m, v, nv.0 as int, axis, positive, acc2);
            },
            None => {
                assert(m.vertex_wf(cur));
                if let Some(o) = m.vertices@[cur].outgoing_edge {
                    let n = m.ne() as nat;
                    lemma_scan_spokes_beyond(
                        m,
                        cur,
                        axis,
                        positive,
                        o.0 as int,
                        0,
                        orbit_len(m.rotate_map(), o.0 as int, n),
                        no_hit(),
                    );
                }
            },
        }
    }
}

/// Knot inference as stated directly: each ray's two knots lie, in order,
/// at or beyond the vertex along the ray, so both knot vectors are sorted and
/// hold the vertex's own coordinate in the middle.
pub proof fn lemma_knots_ordered(m: &TMesh, v: int)
    requires
        m.wf(),
        0 <= v < m.nv(),
    ensures
        forall|axis: Direction, positive: bool|
            {
                let r = #[trigger] m.trace_spec(v, axis, positive);
                &&& r.len() == 2
                &&& at_or_beyond(r[0], along(m.uv_of(v), axis), positive)
                &&& at_or_beyond(r[1], r[0], positive)
            },
        ({
            let k = m.local_knots(v);
            &&& k.0.len() == 5
            &&& k.1.len() == 5
            &&& k.0[2] == m.uv_of(v).s
            &&& k.1[2] == m.uv_of(v).t
            &&& forall|i: int| 0 <= i < 4 ==> (#[trigger] k.0[i]).val() <= k.0[i + 1].val()
            &&& forall|i: int| 0 <= i < 4 ==> (#[trigger] k.1[i]).val() <= k.1[i + 1].val()
        }),
{
    assert forall|axis: Direction, positive: bool| {
        let r = #[trigger] m.trace_spec(v, axis, positive);
        &&& r.len() == 2
        &&& at_or_beyond(r[0], along(m.uv_of(v), axis), positive)
        &&& at_or_beyond(r[1], r[0], positive)
    } by {
        lemma_trace_from_ordered(m, v, v, axis, positive, seq![]);
    }
    let k = m.local_knots(v);
    let sn = m.trace_spec(v, Direction::S, false);
    let sp = m.trace_spec(v, Direction::S, true);
    let tn = m.trace_spec(v, Direction::T, false);
    let tp = m.trace_spec(v, Direction::T, true);
    assert(at_or_beyond(sn[0], m.uv_of(v).s, false) && at_or_beyond(sp[0], m.uv_of(v).s, true));
    assert(at_or_beyond(tn[0], m.uv_of(v).t, false) && at_or_beyond(tp[0], m.uv_of(v).t, true));
    assert(at_or_beyond(sn[1], sn[0], false) && at_or_beyond(sp[1], sp[0], true));
    assert(at_or_beyond(tn[1], tn[0], false) && at_or_beyond(tp[1], tp[0], true));
}

} // verus!
