//! Orbits of partial injections on `[0, n)`: the face walk (`next`) and the
//! vertex-spoke circulators are such maps, so every walk from a handle either
//! returns to it or falls off a missing link within `n` steps.
use vstd::prelude::*;
use vstd::set_lib::{set_int_range, lemma_int_range, lemma_len_subset};

verus! {

/// `f` applied `k` times to `x`; `-1` marks a step where `f` was undefined.
pub open spec fn iterate(f: spec_fn(int) -> int, x: int, k: nat) -> int
    decreases k,
{
    if k == 0 {
        x
    } else {
        let y = iterate(f, x, (k - 1) as nat);
        if y < 0 {
            -1
        } else {
            f(y)
        }
    }
}

/// `f` maps `[0, n)` injectively into `[0, n)`, or to `-1` where undefined.
pub open spec fn partial_injection(f: spec_fn(int) -> int, n: int) -> bool {
    &&& forall|x: int| 0 <= x < n ==> -1 <= #[trigger] f(x) < n
    &&& forall|x: int, y: int|
        0 <= x < n && 0 <= y < n && #[trigger] f(x) == #[trigger] f(y) && f(x) >= 0 ==> x == y
}

/// The walk from `x` ends at step `k`: it is back at `x` or has fallen off.
pub open spec fn stops_at(f: spec_fn(int) -> int, x: int, k: nat) -> bool {
    iterate(f, x, k) == x || iterate(f, x, k) < 0
}

/// The first step after `i` at which the walk from `x` stops (at most `n`).
pub open spec fn first_stop_from(f: spec_fn(int) -> int, x: int, i: nat, n: nat) -> nat
    decreases n - i,
{
    if i >= n {
        n
    } else if stops_at(f, x, i + 1) {
        i + 1
    } else {
        first_stop_from(f, x, i + 1, n)
    }
}

/// The number of steps of the walk from `x` until it stops.
pub open spec fn orbit_len(f: spec_fn(int) -> int, x: int, n: nat) -> nat {
    first_stop_from(f, x, 0, n)
}

proof fn lemma_first_stop_from(f: spec_fn(int) -> int, x: int, i: nat, n: nat)
    requires
        i < n,
    ensures
        i < first_stop_from(f, x, i, n) <= n,
        first_stop_from(f, x, i, n) < n ==> stops_at(f, x, first_stop_from(f, x, i, n)),
        forall|k: nat| i < k < first_stop_from(f, x, i, n) ==> !stops_at(f, x, k),
    decreases n - i,
{
    let j = (i + 1) as nat;
    if !stops_at(f, x, j) {
        assert(first_stop_from(f, x, i, n) == first_stop_from(f, x, j, n));
        if j < n {
            lemma_first_stop_from(f, x, j, n);
        } else {
            assert(first_stop_from(f, x, j, n) == n);
        }
    }
}

proof fn lemma_walk_in_range(f: spec_fn(int) -> int, x: int, n: nat, k: nat)
    requires
        partial_injection(f, n as int),
        0 <= x < n,
        forall|j: nat| 1 <= j <= k ==> !stops_at(f, x, j),
    ensures
        0 <= iterate(f, x, k) < n,
    decreases k,
{
    if k > 0 {
        lemma_walk_in_range(f, x, n, (k - 1) as nat);
        assert(!stops_at(f, x, k));
    }
}

proof fn lemma_walk_distinct(f: spec_fn(int) -> int, x: int, n: nat, i: nat, j: nat)
    requires
        partial_injection(f, n as int),
        0 <= x < n,
        i < j <= n,
        forall|k: nat| 1 <= k <= n ==> !stops_at(f, x, k),
    ensures
        iterate(f, x, i) != iterate(f, x, j),
    decreases i,
{
    assert(!stops_at(f, x, j));
    if i > 0 {
        lemma_walk_distinct(f, x, n, (i - 1) as nat, (j - 1) as nat);
        lemma_walk_in_range(f, x, n, (i - 1) as nat);
        lemma_walk_in_range(f, x, n, (j - 1) as nat);
        assert(!stops_at(f, x, i));
        let a = iterate(f, x, (i - 1) as nat);
        let b = iterate(f, x, (j - 1) as nat);
        assert(iterate(f, x, i) == f(a));
        assert(iterate(f, x, j) == f(b));
    }
}

/// Pigeonhole: some step in `1..=n` stops the walk.
proof fn lemma_walk_stops(f: spec_fn(int) -> int, x: int, n: nat)
    requires
        partial_injection(f, n as int),
        0 <= x < n,
    ensures
        exists|k: nat| 1 <= k <= n && stops_at(f, x, k),
{
    if forall|k: nat| 1 <= k <= n ==> !stops_at(f, x, k) {
        let s = Seq::new((n + 1) as nat, |k: int| iterate(f, x, k as nat));
        assert forall|a: int, b: int| 0 <= a < s.len() && 0 <= b < s.len() && a != b implies s[a]
            != s[b] by {
            if a < b {
                lemma_walk_distinct(f, x, n, a as nat, b as nat);
            } else {
                lemma_walk_distinct(f, x, n, b as nat, a as nat);
            }
        }
        assert(s.no_duplicates());
        s.unique_seq_to_set();
        assert forall|v: int| s.to_set().contains(v) implies set_int_range(0, n as int).contains(
            v,
        ) by {
            let k = choose|k: int| 0 <= k < s.len() && s[k] == v;
            lemma_walk_in_range(f, x, n, k as nat);
        }
        lemma_int_range(0, n as int);
        lemma_len_subset(s.to_set(), set_int_range(0, n as int));
    }
}

/// Every walk of a partial injection on `[0, n)` stops within `n` steps, and
/// stays inside `[0, n)` until it does.
pub proof fn lemma_orbit(f: spec_fn(int) -> int, x: int, n: nat)
    requires
        partial_injection(f, n as int),
        0 <= x < n,
    ensures
        1 <= orbit_len(f, x, n) <= n,
        stops_at(f, x, orbit_len(f, x, n)),
        forall|k: nat| 1 <= k < orbit_len(f, x, n) ==> !stops_at(f, x, k),
        forall|k: nat| k < orbit_len(f, x, n) ==> 0 <= #[trigger] iterate(f, x, k) < n,
{
    lemma_first_stop_from(f, x, 0, n);
    let len = orbit_len(f, x, n);
    if len == n && !stops_at(f, x, n) {
        lemma_walk_stops(f, x, n);
    }
    assert forall|k: nat| k < len implies 0 <= #[trigger] iterate(f, x, k) < n by {
        lemma_walk_in_range(f, x, n, k);
    }
}

/// Within one orbit, no handle is visited twice before the walk stops.
pub proof fn lemma_orbit_distinct(f: spec_fn(int) -> int, x: int, n: nat, i: nat, j: nat)
    requires
        partial_injection(f, n as int),
        0 <= x < n,
        i < j < orbit_len(f, x, n),
    ensures
        iterate(f, x, i) != iterate(f, x, j),
    decreases i,
{
    lemma_orbit(f, x, n);
    assert(!stops_at(f, x, j));
    if i > 0 {
        lemma_orbit_distinct(f, x, n, (i - 1) as nat, (j - 1) as nat);
        assert(!stops_at(f, x, i));
        let a = iterate(f, x, (i - 1) as nat);
        let b = iterate(f, x, (j - 1) as nat);
        assert(0 <= a < n && 0 <= b < n);
        assert(iterate(f, x, i) == f(a));
        assert(iterate(f, x, j) == f(b));
    }
}

} // verus!
