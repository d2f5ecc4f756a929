//! Rounding arithmetic shared by the snapshot's derived fields.

use vstd::prelude::*;

verus! {

/// `x` rounded up to the next multiple of `m`.
pub open spec fn spec_round_up(x: nat, m: nat) -> nat
    recommends
        m > 0,
{
    if x % m == 0 {
        x
    } else {
        (x / m + 1) * m
    }
}

/// The rounded value is a multiple of `m` and no smaller than `x`.
pub proof fn lemma_round_up_properties(x: nat, m: nat)
    requires
        m > 0,
    ensures
        spec_round_up(x, m) % m == 0,
        spec_round_up(x, m) >= x,
        spec_round_up(x, m) < x + m,
{
    if x % m != 0 {
        let q = x / m;
        let rem = x % m;
        assert(x == m * q + rem) by {
            vstd::arithmetic::div_mod::lemma_fundamental_div_mod(x as int, m as int);
        }
        assert((q + 1) * m >= x && (q + 1) * m < x + m) by (nonlinear_arith)
            requires
                x == m * q + rem,
                0 < rem < m,
        ;
        assert(((q + 1) * m) % m == 0) by {
            vstd::arithmetic::div_mod::lemma_mod_multiples_basic((q + 1) as int, m as int);
        }
    }
}

/// Round `x` up to the next multiple of `m`.
pub fn round_up(x: u64, m: u64) -> (r: u64)
    requires
        m > 0,
        x + m <= u64::MAX,
    ensures
        r == spec_round_up(x as nat, m as nat),
{
    let rem = x % m;
    if rem == 0 {
        x
    } else {
        proof {
            let q = x as nat / m as nat;
            assert(x == m * q + rem) by {
                vstd::arithmetic::div_mod::lemma_fundamental_div_mod(x as int, m as int);
            }
            assert((q + 1) * m == x + (m - rem)) by (nonlinear_arith)
                requires
                    x == m * q + rem,
                    0 < rem < m,
            ;
        }
        x + (m - rem)
    }
}

} // verus!
