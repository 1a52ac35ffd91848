//! A saturating fixed-point scalar with 32 fractional bits.
//!
//! A value `x` is held as the integer `raw = x * 2^32`. Every operation is
//! total: a result that does not fit in an `i64` saturates at the nearest
//! bound, and quotients truncate toward zero. The spec functions below state
//! each operation exactly on the raw integers.
use vstd::prelude::*;

verus! {

/// The raw value of `1`.
pub const ONE_RAW: i64 = 4294967296;

/// Clamps an integer into the range of `i64`.
pub open spec fn clamp(x: int) -> int {
    if x > i64::MAX as int {
        i64::MAX as int
    } else if x < i64::MIN as int {
        i64::MIN as int
    } else {
        x
    }
}

pub open spec fn abs_int(x: int) -> int {
    if x < 0 {
        -x
    } else {
        x
    }
}

/// Quotient truncated toward zero (`b != 0`).
pub open spec fn quot(a: int, b: int) -> int {
    if (a < 0) == (b < 0) {
        abs_int(a) / abs_int(b)
    } else {
        -(abs_int(a) / abs_int(b))
    }
}

pub open spec fn add_raw(a: int, b: int) -> int {
    clamp(a + b)
}

pub open spec fn sub_raw(a: int, b: int) -> int {
    clamp(a - b)
}

pub open spec fn neg_raw(a: int) -> int {
    clamp(-a)
}

pub open spec fn abs_raw(a: int) -> int {
    clamp(abs_int(a))
}

pub open spec fn mul_raw(a: int, b: int) -> int {
    clamp(quot(a * b, ONE_RAW as int))
}

/// Division; a zero divisor saturates toward the sign of the dividend.
pub open spec fn div_raw(a: int, b: int) -> int {
    if b == 0 {
        if a > 0 {
            i64::MAX as int
        } else if a < 0 {
            i64::MIN as int
        } else {
            0
        }
    } else {
        clamp(quot(a * ONE_RAW, b))
    }
}

pub open spec fn max_raw(a: int, b: int) -> int {
    if a > b {
        a
    } else {
        b
    }
}

pub open spec fn min_raw(a: int, b: int) -> int {
    if a < b {
        a
    } else {
        b
    }
}

/// The numeric capability that the geometry is written against.
pub trait Numeric: Sized {
    /// The exact value, in units of the scalar's resolution.
    spec fn units(&self) -> int;

    fn max(self, other: Self) -> (r: Self)
        ensures
            r.units() == max_raw(self.units(), other.units()),
    ;

    fn min(self, other: Self) -> (r: Self)
        ensures
            r.units() == min_raw(self.units(), other.units()),
    ;

    /// The smallest positive value.
    fn delta() -> (r: Self)
        ensures
            r.units() == 1,
    ;
}

#[derive(Clone, Copy, Debug, PartialEq, Eq, Structural)]
pub struct Scalar {
    pub raw: i64,
}

fn clamp_i128(x: i128) -> (r: i64)
    ensures
        r as int == clamp(x as int),
{
    if x > i64::MAX as i128 {
        i64::MAX
    } else if x < i64::MIN as i128 {
        i64::MIN
    } else {
        x as i64
    }
}

/// Truncating quotient of `a` by a positive `b`.
fn quot_i128(a: i128, b: i128) -> (r: i128)
    requires
        b > 0,
        a > i128::MIN,
    ensures
        r as int == quot(a as int, b as int),
{
    if a >= 0 {
        let q: i128 = a / b;
        q
    } else {
        let m: i128 = -a;
        let q: i128 = m / b;
        proof {
            assert(0 <= q <= m) by (nonlinear_arith)
                requires
                    q == m / b,
                    m >= 0,
                    b > 0,
            ;
        }
        -q
    }
}

impl Scalar {
    pub open spec fn val(self) -> int {
        self.raw as int
    }

    pub open spec fn of(raw: int) -> Scalar {
        Scalar { raw: raw as i64 }
    }

    pub open spec fn spec_add(self, o: Scalar) -> Scalar {
        Scalar::of(add_raw(self.val(), o.val()))
    }

    pub open spec fn spec_sub(self, o: Scalar) -> Scalar {
        Scalar::of(sub_raw(self.val(), o.val()))
    }

    pub open spec fn spec_neg(self) -> Scalar {
        Scalar::of(neg_raw(self.val()))
    }

    pub open spec fn spec_abs(self) -> Scalar {
        Scalar::of(abs_raw(self.val()))
    }

    pub open spec fn spec_mul(self, o: Scalar) -> Scalar {
        Scalar::of(mul_raw(self.val(), o.val()))
    }

    pub open spec fn spec_div(self, o: Scalar) -> Scalar {
        Scalar::of(div_raw(self.val(), o.val()))
    }

    pub open spec fn spec_min(self, o: Scalar) -> Scalar {
        if self.raw < o.raw {
            self
        } else {
            o
        }
    }

    pub open spec fn spec_max(self, o: Scalar) -> Scalar {
        if self.raw > o.raw {
            self
        } else {
            o
        }
    }

    /// The scalar `raw / 2^32`.
    pub fn from_raw(raw: i64) -> (r: Scalar)
        ensures
            r.raw == raw,
    {
        Scalar { raw }
    }

    pub fn zero() -> (r: Scalar)
        ensures
            r.raw == 0,
    {
        Scalar { raw: 0 }
    }

    pub fn one() -> (r: Scalar)
        ensures
            r.raw == ONE_RAW,
    {
        Scalar { raw: ONE_RAW }
    }

    /// The integer `n`, saturating.
    pub fn from_int(n: i64) -> (r: Scalar)
        ensures
            r.val() == clamp(n * ONE_RAW),
    {
        let p: i128 = (n as i128) * 4294967296i128;
        Scalar { raw: clamp_i128(p) }
    }

    /// The integer `n`, saturating.
    pub fn from_usize(n: usize) -> (r: Scalar)
        ensures
            r.val() == clamp(n * ONE_RAW),
    {
        let p: i128 = (n as i128) * 4294967296i128;
        Scalar { raw: clamp_i128(p) }
    }

    pub fn add(self, o: Scalar) -> (r: Scalar)
        ensures
            r == self.spec_add(o),
            r.val() == add_raw(self.val(), o.val()),
    {
        Scalar { raw: clamp_i128(self.raw as i128 + o.raw as i128) }
    }

    pub fn sub(self, o: Scalar) -> (r: Scalar)
        ensures
            r == self.spec_sub(o),
            r.val() == sub_raw(self.val(), o.val()),
    {
        Scalar { raw: clamp_i128(self.raw as i128 - o.raw as i128) }
    }

    pub fn neg(self) -> (r: Scalar)
        ensures
            r == self.spec_neg(),
            r.val() == neg_raw(self.val()),
    {
        Scalar { raw: clamp_i128(-(self.raw as i128)) }
    }

    pub fn abs(self) -> (r: Scalar)
        ensures
            r == self.spec_abs(),
            r.val() == abs_raw(self.val()),
    {
        let a: i128 = self.raw as i128;
        Scalar { raw: clamp_i128(if a < 0 { -a } else { a }) }
    }

    /// The product, truncated toward zero to the scalar's resolution.
    pub fn mul(self, o: Scalar) -> (r: Scalar)
        ensures
            r == self.spec_mul(o),
            r.val() == mul_raw(self.val(), o.val()),
    {
        let a: i128 = self.raw as i128;
        let b: i128 = o.raw as i128;
        proof {
            assert(-0x4000_0000_0000_0000_0000_0000_0000_0000 <= a * b
                <= 0x4000_0000_0000_0000_0000_0000_0000_0000) by (nonlinear_arith)
                requires
                    -0x8000_0000_0000_0000 <= a <= 0x7fff_ffff_ffff_ffff,
                    -0x8000_0000_0000_0000 <= b <= 0x7fff_ffff_ffff_ffff,
            ;
        }
        let p: i128 = a * b;
        Scalar { raw: clamp_i128(quot_i128(p, ONE_RAW as i128)) }
    }

    /// The quotient, truncated toward zero; see [`div_raw`] for a zero divisor.
    pub fn div(self, o: Scalar) -> (r: Scalar)
        ensures
            r == self.spec_div(o),
            r.val() == div_raw(self.val(), o.val()),
    {
        if o.raw == 0 {
            if self.raw > 0 {
                Scalar { raw: i64::MAX }
            } else if self.raw < 0 {
                Scalar { raw: i64::MIN }
            } else {
                Scalar { raw: 0 }
            }
        } else {
            let a: i128 = (self.raw as i128) * 4294967296i128;
            let b: i128 = o.raw as i128;
            let q: i128 = if b > 0 {
                quot_i128(a, b)
            } else {
                let q0: i128 = quot_i128(a, -b);
                proof {
                    assert(abs_int(q0 as int) <= abs_int(a as int)) by (nonlinear_arith)
                        requires
                            abs_int(q0 as int) == abs_int(a as int) / abs_int(-b as int),
                            abs_int(-b as int) >= 1,
                    ;
                }
                -q0
            };
            Scalar { raw: clamp_i128(q) }
        }
    }

    pub fn lt(self, o: Scalar) -> (r: bool)
        ensures
            r == (self.val() < o.val()),
    {
        self.raw < o.raw
    }

    pub fn le(self, o: Scalar) -> (r: bool)
        ensures
            r == (self.val() <= o.val()),
    {
        self.raw <= o.raw
    }

    pub fn gt(self, o: Scalar) -> (r: bool)
        ensures
            r == (self.val() > o.val()),
    {
        self.raw > o.raw
    }

    pub fn ge(self, o: Scalar) -> (r: bool)
        ensures
            r == (self.val() >= o.val()),
    {
        self.raw >= o.raw
    }
}

impl Numeric for Scalar {
    open spec fn units(&self) -> int {
        self.raw as int
    }

    fn max(self, other: Scalar) -> (r: Scalar) {
        assert(self.units() == self.raw && other.units() == other.raw);
        if self.raw > other.raw {
            self
        } else {
            other
        }
    }

    fn min(self, other: Scalar) -> (r: Scalar) {
        assert(self.units() == self.raw && other.units() == other.raw);
        if self.raw < other.raw {
            self
        } else {
            other
        }
    }

    fn delta() -> (r: Scalar) {
        Scalar { raw: 1 }
    }
}

} // verus!
