//! Throughput arithmetic.
//!
//! A multiplication of two `n` x `n` matrices costs `2 * n^3` floating-point
//! operations, so a run of `r` multiplications costs `2 * n^3 * r`. GFLOPS
//! is that count divided by the elapsed seconds and by `10^9`; measuring the
//! elapsed time in nanoseconds cancels the `10^9`, so the whole figure is
//! the exact integer ratio `flops / nanos`. The functions here compute that
//! ratio in hundredths: two decimal places, rounded to nearest, ties up.

use vstd::prelude::*;

verus! {

/// Floating-point operations performed by `repeats` multiplications of two
/// square matrices of edge length `size`.
pub open spec fn flops_of(size: nat, repeats: nat) -> nat {
    2 * size * size * size * repeats
}

/// GFLOPS in hundredths, rounded to the nearest hundredth with ties
/// rounded up: `flops / nanos` is the GFLOPS value itself, since the
/// `10^9` of "giga" cancels the `10^9` nanoseconds per second.
pub open spec fn gflops_hundredths_of(flops: nat, nanos: nat) -> nat
    recommends
        nanos > 0,
{
    (flops * 100 + nanos / 2) / nanos
}

/// Computes the operation count of a run, or `None` where it exceeds
/// `u128::MAX`.
pub fn total_flops(matrix_size: usize, repeat_times: usize) -> (r: Option<u128>)
    ensures
        r matches Some(f) ==> f == flops_of(matrix_size as nat, repeat_times as nat),
        r is Some <==> flops_of(matrix_size as nat, repeat_times as nat) <= u128::MAX,
{
    if matrix_size == 0 || repeat_times == 0 {
        return Some(0);
    }
    let s: u128 = matrix_size as u128;
    let t: u128 = repeat_times as u128;
    proof {
        assert(s * s <= u128::MAX) by (nonlinear_arith)
            requires
                s < 0x1_0000_0000_0000_0000,
        ;
    }
    let s2: u128 = s * s;
    let s3: u128 = match s2.checked_mul(s) {
        Some(v) => v,
        None => {
            proof {
                assert(flops_of(s as nat, t as nat) > u128::MAX) by (nonlinear_arith)
                    requires
                        s * s * s > u128::MAX,
                        t >= 1,
                        flops_of(s as nat, t as nat) == 2 * (s as nat) * (s as nat) * (s as nat)
                            * (t as nat),
                ;
            }
            return None;
        },
    };
    let st: u128 = match s3.checked_mul(t) {
        Some(v) => v,
        None => {
            proof {
                assert(flops_of(s as nat, t as nat) > u128::MAX) by (nonlinear_arith)
                    requires
                        s * s * s * t > u128::MAX,
                        flops_of(s as nat, t as nat) == 2 * (s as nat) * (s as nat) * (s as nat)
                            * (t as nat),
                ;
            }
            return None;
        },
    };
    match st.checked_mul(2) {
        Some(v) => {
            proof {
                assert(v == flops_of(s as nat, t as nat)) by (nonlinear_arith)
                    requires
                        v == s * s * s * t * 2,
                        flops_of(s as nat, t as nat) == 2 * (s as nat) * (s as nat) * (s as nat)
                            * (t as nat),
                ;
            }
            Some(v)
        },
        None => {
            proof {
                assert(flops_of(s as nat, t as nat) > u128::MAX) by (nonlinear_arith)
                    requires
                        s * s * s * t * 2 > u128::MAX,
                        flops_of(s as nat, t as nat) == 2 * (s as nat) * (s as nat) * (s as nat)
                            * (t as nat),
                ;
            }
            None
        },
    }
}

/// Computes the GFLOPS figure of a run in hundredths, or `None` where the
/// intermediate `flops * 100 + nanos / 2` exceeds `u128::MAX`.
pub fn gflops_hundredths(flops: u128, nanos: u128) -> (r: Option<u128>)
    requires
        nanos > 0,
    ensures
        r matches Some(h) ==> h == gflops_hundredths_of(flops as nat, nanos as nat),
        r is Some <==> flops * 100 + nanos / 2 <= u128::MAX,
{
    let scaled: u128 = match flops.checked_mul(100) {
        Some(v) => v,
        None => {
            return None;
        },
    };
    let rounded: u128 = match scaled.checked_add(nanos / 2) {
        Some(v) => v,
        None => {
            return None;
        },
    };
    Some(rounded / nanos)
}

/// The rounded hundredths figure brackets the exact ratio: it is off from
/// `100 * flops / nanos` by at most half a unit either way, stated here
/// without division over the integers.
pub proof fn lemma_gflops_hundredths_brackets(flops: nat, nanos: nat)
    requires
        nanos > 0,
    ensures
        2 * nanos * gflops_hundredths_of(flops, nanos) <= 2 * (flops * 100) + nanos,
        2 * (flops * 100) < 2 * nanos * (gflops_hundredths_of(flops, nanos) + 1),
{
    let sum = flops * 100 + nanos / 2;
    let q = sum / nanos;
    vstd::arithmetic::div_mod::lemma_fundamental_div_mod(sum as int, nanos as int);
    vstd::arithmetic::div_mod::lemma_mod_bound(sum as int, nanos as int);
    assert(nanos * q <= sum < nanos * (q + 1)) by (nonlinear_arith)
        requires
            sum == nanos * q + sum % nanos,
            0 <= sum % nanos < nanos,
    ;
    assert(2 * nanos * q <= 2 * sum && 2 * sum < 2 * nanos * (q + 1)) by (nonlinear_arith)
        requires
            nanos * q <= sum < nanos * (q + 1),
    ;
    assert(2 * sum <= 2 * (flops * 100) + nanos);
    assert(2 * (flops * 100) <= 2 * sum);
}

} // verus!
