//! Decimal text of integers and of fixed-point scalars.
use vstd::prelude::*;
use vstd::string::*;
use crate::scalar::{abs_int, Scalar};

verus! {

/// The character of decimal digit `d`.
pub open spec fn digit_char(d: nat) -> char {
    if d == 0 {
        '0'
    } else if d == 1 {
        '1'
    } else if d == 2 {
        '2'
    } else if d == 3 {
        '3'
    } else if d == 4 {
        '4'
    } else if d == 5 {
        '5'
    } else if d == 6 {
        '6'
    } else if d == 7 {
        '7'
    } else if d == 8 {
        '8'
    } else {
        '9'
    }
}

/// The decimal digits of `n`, without leading zeros.
pub open spec fn decimal(n: nat) -> Seq<char>
    decreases n,
{
    if n < 10 {
        seq![digit_char(n)]
    } else {
        decimal(n / 10).push(digit_char(n % 10))
    }
}

pub open spec fn zeros(k: int) -> Seq<char> {
    Seq::new(if k > 0 {
        k as nat
    } else {
        0
    }, |i: int| '0')
}

/// Drops trailing zero digits from a `w`-digit fraction `d`.
pub open spec fn trim(d: nat, w: nat) -> (nat, nat)
    decreases w,
{
    if w == 0 || d % 10 != 0 {
        (d, w)
    } else {
        trim(d / 10, (w - 1) as nat)
    }
}

/// The first nine decimal digits of the fraction of a raw magnitude.
pub open spec fn frac_digits(m: int) -> nat {
    ((m % 4294967296) * 1000000000 / 4294967296) as nat
}

/// The text of a scalar: an optional minus sign, the integer part, and, when
/// it is not zero, the fraction to nine digits (truncated) without trailing
/// zeros.
pub open spec fn scalar_text(x: Scalar) -> Seq<char> {
    let m = abs_int(x.val());
    let ip = (m / 4294967296) as nat;
    let t = trim(frac_digits(m), 9);
    let body = if t.1 == 0 {
        decimal(ip)
    } else {
        decimal(ip) + seq!['.'] + zeros(t.1 - decimal(t.0).len()) + decimal(t.0)
    };
    if x.val() < 0 && (ip > 0 || t.1 > 0) {
        seq!['-'] + body
    } else {
        body
    }
}

fn digit_text(d: u64) -> (r: &'static str)
    requires
        d < 10,
    ensures
        r@ == seq![digit_char(d as nat)],
{
    proof {
        reveal_strlit("0");
        reveal_strlit("1");
        reveal_strlit("2");
        reveal_strlit("3");
        reveal_strlit("4");
        reveal_strlit("5");
        reveal_strlit("6");
        reveal_strlit("7");
        reveal_strlit("8");
        reveal_strlit("9");
    }
    if d == 0 {
        "0"
    } else if d == 1 {
        "1"
    } else if d == 2 {
        "2"
    } else if d == 3 {
        "3"
    } else if d == 4 {
        "4"
    } else if d == 5 {
        "5"
    } else if d == 6 {
        "6"
    } else if d == 7 {
        "7"
    } else if d == 8 {
        "8"
    } else {
        "9"
    }
}

/// Appends the decimal digits of `n` to `out`, most significant first.
pub fn push_u64(out: &mut String, n: u64)
    ensures
        final(out)@ == old(out)@ + decimal(n as nat),
    decreases n,
{
    if n >= 10 {
        push_u64(out, n / 10);
    }
    out.append(digit_text(n % 10));
}

fn u64_text(n: u64) -> (r: String)
    ensures
        r@ == decimal(n as nat),
{
    let mut s = String::new();
    push_u64(&mut s, n);
    assert(s@ =~= decimal(n as nat));
    s
}

/// Appends the text of `x` to `out`.
pub fn push_scalar(out: &mut String, x: Scalar)
    ensures
        final(out)@ == old(out)@ + scalar_text(x),
{
    let ghost start = out@;
    let raw = x.raw;
    let m: u64 = if raw < 0 {
        if raw == i64::MIN {
            9223372036854775808u64
        } else {
            (-raw) as u64
        }
    } else {
        raw as u64
    };
    assert(m as int == abs_int(x.val()));
    let ip: u64 = m / 4294967296u64;
    let f: u64 = m % 4294967296u64;
    assert(f * 1000000000 <= 4294967295 * 1000000000) by (nonlinear_arith)
        requires
            f <= 4294967295,
    ;
    let mut d: u64 = f * 1000000000u64 / 4294967296u64;
    let mut w: u64 = 9;
    assert(d == frac_digits(m as int));
    while w > 0 && d % 10 == 0
        invariant
            trim(d as nat, w as nat) == trim(frac_digits(m as int), 9),
            w <= 9,
        decreases w,
    {
        d = d / 10;
        w = w - 1;
    }
    let neg = raw < 0 && (ip > 0 || w > 0);
    if neg {
        out.append("-");
    }
    let ghost signed = out@;
    let it = u64_text(ip);
    out.append(it.as_str());
    if w > 0 {
        out.append(".");
        let ds = u64_text(d);
        let len = ds.as_str().unicode_len();
        let ghost before_zeros = out@;
        let mut k: usize = len;
        while (k as u64) < w
            invariant
                len <= k,
                w <= 9,
                k <= w || k == len,
                out@ == before_zeros + zeros(k - len),
            decreases w - k,
        {
            out.append("0");
            proof {
                reveal_strlit("0");
                assert(zeros(k - len).push('0') =~= zeros(k + 1 - len));
            }
            k = k + 1;
        }
        proof {
            assert(zeros(k - len) =~= zeros(w - decimal(d as nat).len()));
        }
        out.append(ds.as_str());
    }
    proof {
        reveal_strlit("-");
        reveal_strlit(".");
        let t = trim(frac_digits(m as int), 9);
        assert(t == (d as nat, w as nat));
        if neg {
            assert(signed == start + seq!['-']);
        }
        assert(out@ =~= start + scalar_text(x));
    }
}

/// Appends the decimal text of `n` to `out`.
pub fn push_usize(out: &mut String, n: usize)
    ensures
        final(out)@ == old(out)@ + decimal(n as nat),
{
    let s = u64_text(n as u64);
    out.append(s.as_str());
}

} // verus!
