//! Fixed-point helpers: powers of ten for the oracle price scale.

use vstd::prelude::*;

verus! {

/// Mathematical `10^n`.
pub open spec fn pow10_spec(n: nat) -> int
    decreases n,
{
    if n == 0 {
        1
    } else {
        10 * pow10_spec((n - 1) as nat)
    }
}

/// `10^n`, saturated at the largest `i128` value. `10^38` is the last
/// power of ten below `i128::MAX`.
pub open spec fn pow10_sat(n: nat) -> int {
    if n <= 38 {
        pow10_spec(n)
    } else {
        i128::MAX as int
    }
}

pub proof fn lemma_pow10_pos(n: nat)
    ensures
        pow10_spec(n) >= 1,
    decreases n,
{
    if n > 0 {
        lemma_pow10_pos((n - 1) as nat);
    }
}

pub proof fn lemma_pow10_mono(m: nat, n: nat)
    requires
        m <= n,
    ensures
        pow10_spec(m) <= pow10_spec(n),
    decreases n,
{
    if m < n {
        lemma_pow10_mono(m, (n - 1) as nat);
        lemma_pow10_pos((n - 1) as nat);
    }
}

pub proof fn lemma_pow10_sat_pos(n: nat)
    ensures
        pow10_sat(n) >= 1,
{
    if n <= 38 {
        lemma_pow10_pos(n);
    }
}

pub proof fn lemma_pow10_37_value()
    ensures
        pow10_spec(37) == 10000000000000000000000000000000000000int,
        pow10_spec(38) == 100000000000000000000000000000000000000int,
{
    reveal_with_fuel(pow10_spec, 40);
}

/// The oracle reports a decimal precision; the engine works at the scale
/// `10^precision`, saturated so that the scale always fits an `i128`.
pub fn pow10(n: u32) -> (r: i128)
    ensures
        r == pow10_sat(n as nat),
        r >= 1,
{
    proof {
        lemma_pow10_sat_pos(n as nat);
    }
    let mut v: i128 = 1;
    let mut k: u32 = n;
    while k > 0
        invariant
            k <= n,
            v == pow10_sat((n - k) as nat),
        decreases k,
    {
        proof {
            let j = (n - k) as nat;
            lemma_pow10_pos(j);
            lemma_pow10_37_value();
            if j < 38 {
                lemma_pow10_mono(j, 37);
            }
        }
        if v <= i128::MAX / 10 {
            v = v * 10;
        } else {
            v = i128::MAX;
        }
        k = k - 1;
    }
    v
}

} // verus!
