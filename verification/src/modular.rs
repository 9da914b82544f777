//! Signed modulo: a remainder that is non-negative for every sign of input.

use vstd::prelude::*;
use vstd::arithmetic::div_mod::lemma_fundamental_div_mod;
use vstd::arithmetic::div_mod::lemma_mod_multiples_vanish;
use vstd::arithmetic::div_mod::lemma_small_mod;

verus! {

/// Returns `(value % n + n) % n`: the unique representative of `value`'s
/// residue class in `[0, n)`, for any `value` and positive `n`. Rust's raw
/// `%` operator truncates instead and may return a negative result.
///
/// The upper bound on `n` is a machine limit: it keeps `value % n + n`
/// within `i64`.
pub fn signed_modulo(value: i64, n: i64) -> (r: i64)
    requires
        0 < n <= 0x4000_0000_0000_0000,
    ensures
        r == value as int % n as int,
        0 <= r < n,
{
    let rem: i64 = value % n;
    proof {
        let v: int = value as int;
        let m: int = n as int;
        if value >= 0 {
            assert(rem == v % m);
            lemma_mod_multiples_vanish(1, rem as int, m);
            lemma_small_mod(rem as nat, m as nat);
            assert((rem + m) % m == v % m);
        } else {
            assert(rem == -((-v) % m));
            lemma_fundamental_div_mod(-v, m);
            let q: int = (-v) / m;
            assert(rem == v + m * q);
            assert(rem + m == m * (q + 1) + v) by (nonlinear_arith)
                requires rem == v + m * q;
            lemma_mod_multiples_vanish(q + 1, v, m);
            assert((rem + m) % m == v % m);
        }
    }
    (rem + n) % n
}

/// Values whose difference is a multiple of the modulus share one
/// signed-modulo result: `v1 - v2 == k * n` implies `v1 % n == v2 % n`.
pub proof fn lemma_signed_modulo_congruent(v1: int, v2: int, k: int, n: int)
    requires
        n > 0,
        v1 - v2 == k * n,
    ensures
        v1 % n == v2 % n,
{
    lemma_mod_multiples_vanish(k, v2, n);
}

} // verus!
