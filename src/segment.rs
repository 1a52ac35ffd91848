//! Segments of the parametric domain and their intersection test.
use vstd::prelude::*;
use crate::knots::SMALL_TOL;
use crate::mesh::ParamPoint;
use crate::scalar::Scalar;

verus! {

#[derive(Clone, Copy, Debug)]
pub struct Segment {
    pub start: ParamPoint,
    pub end: ParamPoint,
}

pub open spec fn minus(a: ParamPoint, b: ParamPoint) -> ParamPoint {
    ParamPoint { s: a.s.spec_sub(b.s), t: a.t.spec_sub(b.t) }
}

pub open spec fn cross_spec(a: ParamPoint, b: ParamPoint) -> Scalar {
    a.s.spec_mul(b.t).spec_sub(a.t.spec_mul(b.s))
}

/// The orientation of `c` relative to the line from `a` to `b`.
pub open spec fn orient_spec(a: ParamPoint, b: ParamPoint, c: ParamPoint) -> Scalar {
    cross_spec(minus(b, a), minus(c, a))
}

/// `p` lies in the axis-aligned box spanned by `a` and `b`.
pub open spec fn in_box(p: ParamPoint, a: ParamPoint, b: ParamPoint) -> bool {
    &&& a.s.spec_min(b.s).val() <= p.s.val() <= a.s.spec_max(b.s).val()
    &&& a.t.spec_min(b.t).val() <= p.t.val() <= a.t.spec_max(b.t).val()
}

/// Two orientations lie strictly on opposite sides.
pub open spec fn opposite(x: Scalar, y: Scalar) -> bool {
    (x.val() < 0 && y.val() > 0) || (x.val() > 0 && y.val() < 0)
}

/// An orientation is small enough to count as collinear.
pub open spec fn flat(x: Scalar) -> bool {
    x.spec_abs().val() < SMALL_TOL
}

impl Segment {
    /// The segments cross properly, or an endpoint of one lies on the other.
    pub open spec fn spec_intersects(self, other: Segment) -> bool {
        let oa = orient_spec(other.start, other.end, self.start);
        let ob = orient_spec(other.start, other.end, self.end);
        let oc = orient_spec(self.start, self.end, other.start);
        let od = orient_spec(self.start, self.end, other.end);
        ||| opposite(oa, ob) && opposite(oc, od)
        ||| flat(oa) && in_box(self.start, other.start, other.end)
        ||| flat(ob) && in_box(self.end, other.start, other.end)
        ||| flat(oc) && in_box(other.start, self.start, self.end)
        ||| flat(od) && in_box(other.end, self.start, self.end)
    }

    /// The 2D cross product `a.s * b.t - a.t * b.s`.
    pub fn cross(a: ParamPoint, b: ParamPoint) -> (r: Scalar)
        ensures
            r == cross_spec(a, b),
    {
        a.s.mul(b.t).sub(a.t.mul(b.s))
    }

    /// The orientation of `c` relative to the line from `a` to `b`.
    pub fn orient(a: ParamPoint, b: ParamPoint, c: ParamPoint) -> (r: Scalar)
        ensures
            r == orient_spec(a, b, c),
    {
        let ba = ParamPoint { s: b.s.sub(a.s), t: b.t.sub(a.t) };
        let ca = ParamPoint { s: c.s.sub(a.s), t: c.t.sub(a.t) };
        Self::cross(ba, ca)
    }

    fn on_segment(p: ParamPoint, a: ParamPoint, b: ParamPoint) -> (r: bool)
        ensures
            r == in_box(p, a, b),
    {
        let s_max = if a.s.raw > b.s.raw {
            a.s
        } else {
            b.s
        };
        let s_min = if a.s.raw < b.s.raw {
            a.s
        } else {
            b.s
        };
        let t_max = if a.t.raw > b.t.raw {
            a.t
        } else {
            b.t
        };
        let t_min = if a.t.raw < b.t.raw {
            a.t
        } else {
            b.t
        };
        p.s.raw <= s_max.raw && p.s.raw >= s_min.raw && p.t.raw <= t_max.raw && p.t.raw >= t_min.raw
    }

    /// Whether the two segments intersect: a proper crossing, a collinear
    /// overlap, or an endpoint touching the other segment.
    pub fn intersects(&self, other: &Segment) -> (r: bool)
        ensures
            r == self.spec_intersects(*other),
    {
        let oa = Self::orient(other.start, other.end, self.start);
        let ob = Self::orient(other.start, other.end, self.end);
        let oc = Self::orient(self.start, self.end, other.start);
        let od = Self::orient(self.start, self.end, other.end);
        let opp_ab = (oa.raw < 0 && ob.raw > 0) || (oa.raw > 0 && ob.raw < 0);
        let opp_cd = (oc.raw < 0 && od.raw > 0) || (oc.raw > 0 && od.raw < 0);
        if opp_ab && opp_cd {
            return true;
        }
        if oa.abs().raw < SMALL_TOL && Self::on_segment(self.start, other.start, other.end) {
            return true;
        }
        if ob.abs().raw < SMALL_TOL && Self::on_segment(self.end, other.start, other.end) {
            return true;
        }
        if oc.abs().raw < SMALL_TOL && Self::on_segment(other.start, self.start, self.end) {
            return true;
        }
        if od.abs().raw < SMALL_TOL && Self::on_segment(other.end, self.start, self.end) {
            return true;
        }
        false
    }
}

/// Segment intersection is symmetric.
pub proof fn lemma_intersects_symmetric(a: Segment, b: Segment)
    ensures
        a.spec_intersects(b) == b.spec_intersects(a),
{
}

} // verus!
