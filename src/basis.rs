//! The cubic B-spline basis function of a local knot vector, by the
//! Cox–de Boor recurrence.
use vstd::prelude::*;
use crate::knots::ALIGN_TOL;
use crate::scalar::{Scalar, ONE_RAW};

verus! {

broadcast use vstd::array::group_array_axioms;

pub open spec fn zero() -> Scalar {
    Scalar { raw: 0 }
}

pub open spec fn one() -> Scalar {
    Scalar { raw: ONE_RAW }
}

/// One term of the recurrence: `(num / den) * n`, or nothing when the
/// knots coincide.
pub open spec fn blend(acc: Scalar, num: Scalar, den: Scalar, n: Scalar) -> Scalar {
    if den.spec_abs().val() >= ALIGN_TOL {
        acc.spec_add(num.spec_div(den).spec_mul(n))
    } else {
        acc
    }
}

/// `N_{i,p}` on knots `k`, with `ue` locating the degree-0 interval.
pub open spec fn cox(u: Scalar, ue: Scalar, k: Seq<Scalar>, i: int, p: nat) -> Scalar
    decreases p,
{
    if p == 0 {
        if ue.val() >= k[i].val() && ue.val() < k[i + 1].val() {
            one()
        } else {
            zero()
        }
    } else {
        let left = blend(zero(), u.spec_sub(k[i]), k[i + p].spec_sub(k[i]), cox(u, ue, k, i, (p - 1) as nat));
        blend(
            left,
            k[i + p + 1].spec_sub(u),
            k[i + p + 1].spec_sub(k[i + 1]),
            cox(u, ue, k, i + 1, (p - 1) as nat),
        )
    }
}

/// The cubic basis function of knot vector `k` (five knots) at `u`: zero
/// outside `[k[0], k[4]]`; at `k[4]` the degree-0 interval is taken as a
/// left limit.
pub open spec fn basis(u: Scalar, k: Seq<Scalar>) -> Scalar {
    if u.val() < k[0].val() || u.val() > k[4].val() {
        zero()
    } else {
        let ue = if u.val() >= k[4].val() {
            k[4].spec_sub(Scalar { raw: 1 })
        } else {
            u
        };
        cox(u, ue, k, 0, 3)
    }
}

fn blend_exec(acc: Scalar, num: Scalar, den: Scalar, n: Scalar) -> (r: Scalar)
    ensures
        r == blend(acc, num, den, n),
{
    if den.abs().raw >= ALIGN_TOL {
        acc.add(num.div(den).mul(n))
    } else {
        acc
    }
}

/// `N_{0,3}(u)` for the local knot vector `knots`.
pub fn cubic_basis_function(u: Scalar, knots: &[Scalar; 5]) -> (r: Scalar)
    ensures
        r == basis(u, knots@),
{

    if u.raw < knots[0].raw || u.raw > knots[4].raw {
        return Scalar::zero();
    }
    let ue = if u.raw >= knots[4].raw {
        knots[4].sub(Scalar { raw: 1 })
    } else {
        u
    };
    let ghost ks = knots@;
    let mut n: Vec<Scalar> = Vec::new();
    let mut i: usize = 0;
    while i < 4
        invariant
            ks == knots@,
            ks.len() == 5,
            i <= 4,
            n@.len() == i,
            forall|j: int| 0 <= j < i ==> n@[j] == cox(u, ue, ks, j, 0),
        decreases 4 - i,
    {
        let b = if ue.raw >= knots[i].raw && ue.raw < knots[i + 1].raw {
            Scalar::one()
        } else {
            Scalar::zero()
        };
        assert(b == cox(u, ue, ks, i as int, 0));
        n.push(b);
        i = i + 1;
    }
    let mut p: usize = 1;
    while p <= 3
        invariant
            ks == knots@,
            ks.len() == 5,
            1 <= p <= 4,
            n@.len() == 4,
            forall|j: int| 0 <= j <= 4 - p ==> n@[j] == cox(u, ue, ks, j, (p - 1) as nat),
        decreases 4 - p,
    {
        let mut i: usize = 0;
        while i < 4 - p
            invariant
                ks == knots@,
                ks.len() == 5,
                1 <= p <= 3,
                i <= 4 - p,
                n@.len() == 4,
                forall|j: int| 0 <= j < i ==> n@[j] == cox(u, ue, ks, j, p as nat),
                forall|j: int| i <= j <= 4 - p ==> n@[j] == cox(u, ue, ks, j, (p - 1) as nat),
            decreases 4 - p - i,
        {
            let left = blend_exec(Scalar::zero(), u.sub(knots[i]), knots[i + p].sub(knots[i]), n[i]);
            let val = blend_exec(left, knots[i + p + 1].sub(u), knots[i + p + 1].sub(knots[i + 1]), n[i + 1]);
            assert(val == cox(u, ue, ks, i as int, p as nat));
            n.set(i, val);
            i = i + 1;
        }
        p = p + 1;
    }
    n[0]
}

} // verus!
