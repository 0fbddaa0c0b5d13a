//! The square root of a whole number, rounded down.

use vstd::prelude::*;

verus! {

/// `root` is the square root of `n`, rounded down.
pub open spec fn is_integer_sqrt(n: nat, root: nat) -> bool {
    root * root <= n < (root + 1) * (root + 1)
}

/// The square root of `n`, rounded down.
pub open spec fn integer_sqrt(n: nat) -> nat {
    choose|root: nat| is_integer_sqrt(n, root)
}

/// At most one number is the rounded-down square root of `n`.
pub proof fn lemma_integer_sqrt_unique(n: nat, a: nat, b: nat)
    requires
        is_integer_sqrt(n, a),
        is_integer_sqrt(n, b),
    ensures
        a == b,
{
    if a < b {
        assert((a + 1) * (a + 1) <= b * b) by (nonlinear_arith)
            requires
                a + 1 <= b,
        ;
    }
    if b < a {
        assert((b + 1) * (b + 1) <= a * a) by (nonlinear_arith)
            requires
                b + 1 <= a,
        ;
    }
}

/// The square root of `n`, rounded down, found by bisection.
pub fn integer_sqrt_of(n: u128) -> (root: u64)
    ensures
        is_integer_sqrt(n as nat, root as nat),
        root == integer_sqrt(n as nat),
{
    let mut low: u128 = 0;
    let mut high: u128 = 0x1_0000_0000_0000_0000u128;
    assert(0x1_0000_0000_0000_0000u128 * 0x1_0000_0000_0000_0000u128 > u128::MAX);
    while high - low > 1
        invariant
            low < high <= 0x1_0000_0000_0000_0000u128,
            low * low <= n < high * high,
        decreases high - low,
    {
        let middle: u128 = low + (high - low) / 2;
        assert(middle * middle <= u128::MAX) by (nonlinear_arith)
            requires
                0 <= middle <= 0xffff_ffff_ffff_ffffu128,
        ;
        if middle * middle <= n {
            low = middle;
        } else {
            high = middle;
        }
    }
    proof {
        assert(is_integer_sqrt(n as nat, low as nat));
        lemma_integer_sqrt_unique(n as nat, low as nat, integer_sqrt(n as nat));
    }
    low as u64
}

/// The square root of 0 is 0.
pub proof fn lemma_integer_sqrt_of_zero()
    ensures
        integer_sqrt(0) == 0,
{
    assert(0nat * 0nat == 0 && (0nat + 1) * (0nat + 1) == 1) by (nonlinear_arith);
    assert(is_integer_sqrt(0, 0));
    lemma_integer_sqrt_unique(0, 0, integer_sqrt(0));
}

} // verus!
