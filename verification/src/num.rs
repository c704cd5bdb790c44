use vstd::prelude::*;
use vstd::arithmetic::div_mod::{
    lemma_div_is_ordered, lemma_div_multiples_vanish, lemma_div_pos_is_pos,
    lemma_fundamental_div_mod, lemma_fundamental_div_mod_converse,
};

verus! {

/// Flooring division of a 128-bit value by a positive divisor, matching the
/// mathematical quotient `a / b` (Euclidean division, which rounds toward
/// negative infinity when the divisor is positive).
pub(crate) fn div_floor(a: i128, b: i128) -> (r: i128)
    requires
        1 <= b,
        i128::MIN < a,
    ensures
        r == a as int / b as int,
        a >= 0 ==> 0 <= r <= a,
        a < 0 ==> a <= r <= 0,
{
    proof {
        lemma_div_bounds(a as int, b as int);
    }
    if a >= 0 {
        let q = (a as u128) / (b as u128);
        q as i128
    } else {
        let m = (-a) as u128;
        let bu = b as u128;
        let q = (m + (bu - 1)) / bu;
        proof {
            lemma_ceil_div_negates(a as int, b as int);
            assert(q <= m) by (nonlinear_arith)
                requires
                    q as int == (m as int + bu as int - 1) / (bu as int),
                    1 <= bu,
            ;
        }
        -(q as i128)
    }
}

/// The quotient of a division by a positive divisor lies between the
/// dividend and zero.
proof fn lemma_div_bounds(a: int, b: int)
    requires
        1 <= b,
    ensures
        a >= 0 ==> 0 <= a / b <= a,
        a < 0 ==> a <= a / b <= 0,
{
    lemma_div_multiples_vanish(a, b);
    assert((b * a) / b == a);
    if a >= 0 {
        lemma_div_pos_is_pos(a, b);
        assert(a <= b * a) by (nonlinear_arith)
            requires
                0 <= a,
                1 <= b,
        ;
        lemma_div_is_ordered(a, b * a, b);
    } else {
        lemma_div_is_ordered(a, 0, b);
        assert(0int / b == 0) by {
            lemma_fundamental_div_mod_converse(0, b, 0, 0);
        }
        assert(b * a <= a) by (nonlinear_arith)
            requires
                a < 0,
                1 <= b,
        ;
        lemma_div_is_ordered(b * a, a, b);
    }
}

/// For a negative dividend and positive divisor, the floor quotient is the
/// negated ceiling quotient of the magnitudes:
/// `a / b == -((-a + b - 1) / b)`.
proof fn lemma_ceil_div_negates(a: int, b: int)
    requires
        a < 0,
        1 <= b,
    ensures
        a / b == -((-a + b - 1) / b),
{
    let m = -a;
    let q = (m + b - 1) / b;
    lemma_fundamental_div_mod(m + b - 1, b);
    let r0 = (m + b - 1) % b;
    assert(m + b - 1 == b * q + r0);
    assert(a == (-q) * b + (b - 1 - r0)) by (nonlinear_arith)
        requires
            a == -m,
            m + b - 1 == b * q + r0,
    ;
    lemma_fundamental_div_mod_converse(a, b, -q, b - 1 - r0);
}

} // verus!
