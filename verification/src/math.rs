use vstd::prelude::*;

verus! {

/// `a * b / d`, rounded down.
pub open spec fn mul_div_floor(a: nat, b: nat, d: nat) -> nat {
    a * b / d
}

/// `a * b / d`, rounded up.
pub open spec fn mul_div_ceil(a: nat, b: nat, d: nat) -> nat {
    (a * b + d - 1) as nat / d
}

/// The quotient `n / d` is the one number `q` with `q * d <= n < (q + 1) * d`.
pub proof fn lemma_quotient_bounds(n: nat, d: nat)
    requires
        d > 0,
    ensures
        (n / d) * d <= n,
        n < (n / d + 1) * d,
{
    vstd::arithmetic::div_mod::lemma_fundamental_div_mod(n as int, d as int);
    vstd::arithmetic::div_mod::lemma_mod_bound(n as int, d as int);
    assert((n / d) * d == d * (n / d)) by (nonlinear_arith);
    assert((n / d + 1) * d == d * (n / d) + d) by (nonlinear_arith);
}

/// A number between `q * d` and `(q + 1) * d` has quotient `q`.
pub proof fn lemma_quotient_unique(n: nat, d: nat, q: nat)
    requires
        d > 0,
        q * d <= n,
        n < (q + 1) * d,
    ensures
        n / d == q,
{
    lemma_quotient_bounds(n, d);
    let p = n / d;
    if p < q {
        assert((p + 1) * d <= q * d) by (nonlinear_arith)
            requires
                p + 1 <= q,
                d > 0,
        ;
    } else if p > q {
        assert((q + 1) * d <= p * d) by (nonlinear_arith)
            requires
                q + 1 <= p,
                d > 0,
        ;
    }
}

/// Division keeps order.
pub proof fn lemma_quotient_monotonic(n: nat, m: nat, d: nat)
    requires
        d > 0,
        n <= m,
    ensures
        n / d <= m / d,
{
    lemma_quotient_bounds(n, d);
    lemma_quotient_bounds(m, d);
    let p = n / d;
    let q = m / d;
    if q < p {
        assert((q + 1) * d <= p * d) by (nonlinear_arith)
            requires
                q + 1 <= p,
                d > 0,
        ;
    }
}

/// A quotient stays at or below `k` when the dividend stays at or below `k * d`.
pub proof fn lemma_quotient_at_most(n: nat, d: nat, k: nat)
    requires
        d > 0,
        n <= k * d,
    ensures
        n / d <= k,
{
    lemma_quotient_monotonic(n, k * d, d);
    assert(k * d < (k + 1) * d) by (nonlinear_arith)
        requires
            d > 0,
    ;
    lemma_quotient_unique(k * d, d, k);
}

/// A quotient stays at or below `k` when the dividend stays below `(k + 1) * d`.
pub proof fn lemma_quotient_below(n: nat, d: nat, k: nat)
    requires
        d > 0,
        n < (k + 1) * d,
    ensures
        n / d <= k,
{
    lemma_quotient_bounds(n, d);
    let q = n / d;
    if q > k {
        assert((k + 1) * d <= q * d) by (nonlinear_arith)
            requires
                k + 1 <= q,
                d > 0,
        ;
    }
}

/// A quotient reaches `k` when the dividend reaches `k * d`.
pub proof fn lemma_quotient_at_least(n: nat, d: nat, k: nat)
    requires
        d > 0,
        n >= k * d,
    ensures
        n / d >= k,
{
    lemma_quotient_bounds(n, d);
    let q = n / d;
    if q < k {
        assert((q + 1) * d <= k * d) by (nonlinear_arith)
            requires
                q + 1 <= k,
                d > 0,
        ;
    }
}

/// Rounding up gives the least number that, times `d`, reaches `a * b`.
pub proof fn lemma_ceil_bounds(a: nat, b: nat, d: nat)
    requires
        d > 0,
    ensures
        mul_div_ceil(a, b, d) * d >= a * b,
        mul_div_ceil(a, b, d) * d < a * b + d,
{
    let n = (a * b + d - 1) as nat;
    lemma_quotient_bounds(n, d);
    assert((n / d + 1) * d == (n / d) * d + d) by (nonlinear_arith);
}

/// The product of two 64-bit numbers fits 128 bits, with room for one more
/// 64-bit number on top.
pub proof fn lemma_product_fits(a: u64, b: u64)
    ensures
        a * b <= 0xFFFF_FFFF_FFFF_FFFE_0000_0000_0000_0001,
        a * b + u64::MAX <= u128::MAX,
{
    assert(a * b <= 0xFFFF_FFFF_FFFF_FFFF * 0xFFFF_FFFF_FFFF_FFFF) by (nonlinear_arith)
        requires
            a <= 0xFFFF_FFFF_FFFF_FFFF,
            b <= 0xFFFF_FFFF_FFFF_FFFF,
    ;
}

/// `a * b / d` rounded down, computed in 128 bits.
pub fn mul_div_floor_u64(a: u64, b: u64, d: u64) -> (q: u128)
    requires
        d > 0,
    ensures
        q == mul_div_floor(a as nat, b as nat, d as nat),
{
    proof {
        lemma_product_fits(a, b);
    }
    (a as u128) * (b as u128) / (d as u128)
}

/// `a * b / d` rounded up, computed in 128 bits.
pub fn mul_div_ceil_u64(a: u64, b: u64, d: u64) -> (q: u128)
    requires
        d > 0,
    ensures
        q == mul_div_ceil(a as nat, b as nat, d as nat),
{
    proof {
        lemma_product_fits(a, b);
    }
    ((a as u128) * (b as u128) + (d as u128 - 1)) / (d as u128)
}

} // verus!
