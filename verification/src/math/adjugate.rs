use crate::math::matrix::{
    adjugate_plan, adjugate_term, adjugate_term_req, determinant, determinant_req, inverse_entries,
    inverse_entry, inverse_entry_req, inverse_minors, inverse_minors_req, inverse_req, minor,
    minor_req, negated_entry,
};
use crate::math::number_traits::One;
use vstd::prelude::*;
use vstd::std_specs::ops::{AddSpec, DivSpec, MulSpec, NegSpec, SubSpec};

verus! {

/// The 2x2 minor of rows `r1`, `r2` and columns `c1`, `c2` of the row-major integer matrix `x`.
pub open spec fn int_minor(x: Seq<int>, r1: int, r2: int, c1: int, c2: int) -> int {
    x[4 * r1 + c1] * x[4 * r2 + c2] - x[4 * r1 + c2] * x[4 * r2 + c1]
}

/// The minors of `x` in the order of `inverse_minors`.
pub open spec fn int_minors(x: Seq<int>) -> Seq<int> {
    seq![
        int_minor(x, 2, 3, 2, 3), int_minor(x, 2, 3, 1, 3), int_minor(x, 2, 3, 1, 2), int_minor(x, 2, 3, 0, 3),
        int_minor(x, 2, 3, 0, 2), int_minor(x, 2, 3, 0, 1), int_minor(x, 1, 3, 2, 3), int_minor(x, 1, 3, 1, 3),
        int_minor(x, 1, 3, 1, 2), int_minor(x, 1, 2, 2, 3), int_minor(x, 1, 2, 1, 3), int_minor(x, 1, 2, 1, 2),
        int_minor(x, 1, 3, 0, 3), int_minor(x, 1, 3, 0, 2), int_minor(x, 1, 2, 0, 3), int_minor(x, 1, 2, 0, 2),
        int_minor(x, 1, 3, 0, 1), int_minor(x, 1, 2, 0, 1),
    ]
}

/// Entry `k` of the adjugate of the integer matrix `x`, before its sign.
pub open spec fn int_adjugate(x: Seq<int>, k: int) -> int {
    let (r, ca, ma, cb, mb, cc, mc) = adjugate_plan(k);
    let a = int_minors(x);
    x[4 * r + ca] * a[ma] - x[4 * r + cb] * a[mb] + x[4 * r + cc] * a[mc]
}

/// Entry `k` of the adjugate of the integer matrix `x`, with its sign.
pub open spec fn signed_adjugate(x: Seq<int>, k: int) -> int {
    if negated_entry(k) {
        -int_adjugate(x, k)
    } else {
        int_adjugate(x, k)
    }
}

/// The determinant of the integer matrix `x`, expanded along its first row.
pub open spec fn int_determinant(x: Seq<int>) -> int {
    x[0] * int_adjugate(x, 0) - x[1] * int_adjugate(x, 4) + x[2] * int_adjugate(x, 8) - x[3] * int_adjugate(x, 12)
}

/// Row `r` of `x` times column `c` of its signed adjugate.
pub open spec fn row_times_signed_adjugate(x: Seq<int>, r: int, c: int) -> int {
    x[4 * r] * signed_adjugate(x, c) + x[4 * r + 1] * signed_adjugate(x, 4 + c) + x[4 * r + 2] * signed_adjugate(x, 8 + c)
        + x[4 * r + 3] * signed_adjugate(x, 12 + c)
}

/// Row `r` of the signed adjugate of `x` times column `c` of `x`.
pub open spec fn signed_adjugate_times_column(x: Seq<int>, r: int, c: int) -> int {
    x[c] * signed_adjugate(x, 4 * r) + x[4 + c] * signed_adjugate(x, 4 * r + 1) + x[8 + c] * signed_adjugate(x, 4 * r + 2)
        + x[12 + c] * signed_adjugate(x, 4 * r + 3)
}

proof fn lemma_distribute_minor(a: int, p: int, q: int, r: int, s: int)
    by (nonlinear_arith)
    ensures
        a * (p * q - r * s) == a * p * q - a * r * s,
{
}

proof fn lemma_distribute_six(a: int, t1: int, t2: int, t3: int, t4: int, t5: int, t6: int)
    by (nonlinear_arith)
    ensures
        a * (t1 + t2 + t3 + t4 + t5 + t6) == a * t1 + a * t2 + a * t3 + a * t4 + a * t5 + a * t6,
{
}

proof fn lemma_monomial(a: int, b: int, c: int, d: int)
    by (nonlinear_arith)
    ensures
        a * (b * c * d) == a * b * c * d,
        a * (b * c * d) == b * a * c * d,
        a * (b * c * d) == b * c * a * d,
        a * (b * c * d) == b * c * d * a,
        a * -(b * c * d) == -(a * (b * c * d)),
{
}

/// Law (polynomial form): the signed adjugate of `x` is an adjugate: multiplied by `x` on
/// either side it gives the determinant on the diagonal and zero elsewhere.
pub proof fn lemma_adjugate_identity(x: Seq<int>)
    requires
        x.len() == 16,
    ensures
        forall|r: int, c: int|
            0 <= r < 4 && 0 <= c < 4 ==> #[trigger] row_times_signed_adjugate(x, r, c) == (if r == c {
                int_determinant(x)
            } else {
                0
            }),
        forall|r: int, c: int|
            0 <= r < 4 && 0 <= c < 4 ==> #[trigger] signed_adjugate_times_column(x, r, c) == (if r == c {
                int_determinant(x)
            } else {
                0
            }),
{
    assert(int_adjugate(x, 0) == (-(x[7] * x[10] * x[13]) + x[7] * x[9] * x[14] + x[6] * x[11] * x[13] + -(x[6] * x[9] * x[15]) + -(x[5] * x[11] * x[14]) + x[5] * x[10] * x[15])) by {
        lemma_distribute_minor(x[5], x[10], x[15], x[11], x[14]);
        lemma_distribute_minor(x[6], x[9], x[15], x[11], x[13]);
        lemma_distribute_minor(x[7], x[9], x[14], x[10], x[13]);
    }
    assert(signed_adjugate(x, 0) == (-(x[7] * x[10] * x[13]) + x[7] * x[9] * x[14] + x[6] * x[11] * x[13] + -(x[6] * x[9] * x[15]) + -(x[5] * x[11] * x[14]) + x[5] * x[10] * x[15]));
    assert(int_adjugate(x, 1) == (-(x[3] * x[10] * x[13]) + x[3] * x[9] * x[14] + x[2] * x[11] * x[13] + -(x[2] * x[9] * x[15]) + -(x[1] * x[11] * x[14]) + x[1] * x[10] * x[15])) by {
        lemma_distribute_minor(x[1], x[10], x[15], x[11], x[14]);
        lemma_distribute_minor(x[2], x[9], x[15], x[11], x[13]);
        lemma_distribute_minor(x[3], x[9], x[14], x[10], x[13]);
    }
    assert(signed_adjugate(x, 1) == (x[3] * x[10] * x[13] + -(x[3] * x[9] * x[14]) + -(x[2] * x[11] * x[13]) + x[2] * x[9] * x[15] + x[1] * x[11] * x[14] + -(x[1] * x[10] * x[15])));
    assert(int_adjugate(x, 2) == (-(x[3] * x[6] * x[13]) + x[3] * x[5] * x[14] + x[2] * x[7] * x[13] + -(x[2] * x[5] * x[15]) + -(x[1] * x[7] * x[14]) + x[1] * x[6] * x[15])) by {
        lemma_distribute_minor(x[1], x[6], x[15], x[7], x[14]);
        lemma_distribute_minor(x[2], x[5], x[15], x[7], x[13]);
        lemma_distribute_minor(x[3], x[5], x[14], x[6], x[13]);
    }
    assert(signed_adjugate(x, 2) == (-(x[3] * x[6] * x[13]) + x[3] * x[5] * x[14] + x[2] * x[7] * x[13] + -(x[2] * x[5] * x[15]) + -(x[1] * x[7] * x[14]) + x[1] * x[6] * x[15]));
    assert(int_adjugate(x, 3) == (-(x[3] * x[6] * x[9]) + x[3] * x[5] * x[10] + x[2] * x[7] * x[9] + -(x[2] * x[5] * x[11]) + -(x[1] * x[7] * x[10]) + x[1] * x[6] * x[11])) by {
        lemma_distribute_minor(x[1], x[6], x[11], x[7], x[10]);
        lemma_distribute_minor(x[2], x[5], x[11], x[7], x[9]);
        lemma_distribute_minor(x[3], x[5], x[10], x[6], x[9]);
    }
    assert(signed_adjugate(x, 3) == (x[3] * x[6] * x[9] + -(x[3] * x[5] * x[10]) + -(x[2] * x[7] * x[9]) + x[2] * x[5] * x[11] + x[1] * x[7] * x[10] + -(x[1] * x[6] * x[11])));
    assert(int_adjugate(x, 4) == (-(x[7] * x[10] * x[12]) + x[7] * x[8] * x[14] + x[6] * x[11] * x[12] + -(x[6] * x[8] * x[15]) + -(x[4] * x[11] * x[14]) + x[4] * x[10] * x[15])) by {
        lemma_distribute_minor(x[4], x[10], x[15], x[11], x[14]);
        lemma_distribute_minor(x[6], x[8], x[15], x[11], x[12]);
        lemma_distribute_minor(x[7], x[8], x[14], x[10], x[12]);
    }
    assert(signed_adjugate(x, 4) == (x[7] * x[10] * x[12] + -(x[7] * x[8] * x[14]) + -(x[6] * x[11] * x[12]) + x[6] * x[8] * x[15] + x[4] * x[11] * x[14] + -(x[4] * x[10] * x[15])));
    assert(int_adjugate(x, 5) == (-(x[3] * x[10] * x[12]) + x[3] * x[8] * x[14] + x[2] * x[11] * x[12] + -(x[2] * x[8] * x[15]) + -(x[0] * x[11] * x[14]) + x[0] * x[10] * x[15])) by {
        lemma_distribute_minor(x[0], x[10], x[15], x[11], x[14]);
        lemma_distribute_minor(x[2], x[8], x[15], x[11], x[12]);
        lemma_distribute_minor(x[3], x[8], x[14], x[10], x[12]);
    }
    assert(signed_adjugate(x, 5) == (-(x[3] * x[10] * x[12]) + x[3] * x[8] * x[14] + x[2] * x[11] * x[12] + -(x[2] * x[8] * x[15]) + -(x[0] * x[11] * x[14]) + x[0] * x[10] * x[15]));
    assert(int_adjugate(x, 6) == (-(x[3] * x[6] * x[12]) + x[3] * x[4] * x[14] + x[2] * x[7] * x[12] + -(x[2] * x[4] * x[15]) + -(x[0] * x[7] * x[14]) + x[0] * x[6] * x[15])) by {
        lemma_distribute_minor(x[0], x[6], x[15], x[7], x[14]);
        lemma_distribute_minor(x[2], x[4], x[15], x[7], x[12]);
        lemma_distribute_minor(x[3], x[4], x[14], x[6], x[12]);
    }
    assert(signed_adjugate(x, 6) == (x[3] * x[6] * x[12] + -(x[3] * x[4] * x[14]) + -(x[2] * x[7] * x[12]) + x[2] * x[4] * x[15] + x[0] * x[7] * x[14] + -(x[0] * x[6] * x[15])));
    assert(int_adjugate(x, 7) == (-(x[3] * x[6] * x[8]) + x[3] * x[4] * x[10] + x[2] * x[7] * x[8] + -(x[2] * x[4] * x[11]) + -(x[0] * x[7] * x[10]) + x[0] * x[6] * x[11])) by {
        lemma_distribute_minor(x[0], x[6], x[11], x[7], x[10]);
        lemma_distribute_minor(x[2], x[4], x[11], x[7], x[8]);
        lemma_distribute_minor(x[3], x[4], x[10], x[6], x[8]);
    }
    assert(signed_adjugate(x, 7) == (-(x[3] * x[6] * x[8]) + x[3] * x[4] * x[10] + x[2] * x[7] * x[8] + -(x[2] * x[4] * x[11]) + -(x[0] * x[7] * x[10]) + x[0] * x[6] * x[11]));
    assert(int_adjugate(x, 8) == (-(x[7] * x[9] * x[12]) + x[7] * x[8] * x[13] + x[5] * x[11] * x[12] + -(x[5] * x[8] * x[15]) + -(x[4] * x[11] * x[13]) + x[4] * x[9] * x[15])) by {
        lemma_distribute_minor(x[4], x[9], x[15], x[11], x[13]);
        lemma_distribute_minor(x[5], x[8], x[15], x[11], x[12]);
        lemma_distribute_minor(x[7], x[8], x[13], x[9], x[12]);
    }
    assert(signed_adjugate(x, 8) == (-(x[7] * x[9] * x[12]) + x[7] * x[8] * x[13] + x[5] * x[11] * x[12] + -(x[5] * x[8] * x[15]) + -(x[4] * x[11] * x[13]) + x[4] * x[9] * x[15]));
    assert(int_adjugate(x, 9) == (-(x[3] * x[9] * x[12]) + x[3] * x[8] * x[13] + x[1] * x[11] * x[12] + -(x[1] * x[8] * x[15]) + -(x[0] * x[11] * x[13]) + x[0] * x[9] * x[15])) by {
        lemma_distribute_minor(x[0], x[9], x[15], x[11], x[13]);
        lemma_distribute_minor(x[1], x[8], x[15], x[11], x[12]);
        lemma_distribute_minor(x[3], x[8], x[13], x[9], x[12]);
    }
    assert(signed_adjugate(x, 9) == (x[3] * x[9] * x[12] + -(x[3] * x[8] * x[13]) + -(x[1] * x[11] * x[12]) + x[1] * x[8] * x[15] + x[0] * x[11] * x[13] + -(x[0] * x[9] * x[15])));
    assert(int_adjugate(x, 10) == (-(x[3] * x[5] * x[12]) + x[3] * x[4] * x[13] + x[1] * x[7] * x[12] + -(x[1] * x[4] * x[15]) + -(x[0] * x[7] * x[13]) + x[0] * x[5] * x[15])) by {
        lemma_distribute_minor(x[0], x[5], x[15], x[7], x[13]);
        lemma_distribute_minor(x[1], x[4], x[15], x[7], x[12]);
        lemma_distribute_minor(x[3], x[4], x[13], x[5], x[12]);
    }
    assert(signed_adjugate(x, 10) == (-(x[3] * x[5] * x[12]) + x[3] * x[4] * x[13] + x[1] * x[7] * x[12] + -(x[1] * x[4] * x[15]) + -(x[0] * x[7] * x[13]) + x[0] * x[5] * x[15]));
    assert(int_adjugate(x, 11) == (-(x[3] * x[5] * x[8]) + x[3] * x[4] * x[9] + x[1] * x[7] * x[8] + -(x[1] * x[4] * x[11]) + -(x[0] * x[7] * x[9]) + x[0] * x[5] * x[11])) by {
        lemma_distribute_minor(x[0], x[5], x[11], x[7], x[9]);
        lemma_distribute_minor(x[1], x[4], x[11], x[7], x[8]);
        lemma_distribute_minor(x[3], x[4], x[9], x[5], x[8]);
    }
    assert(signed_adjugate(x, 11) == (x[3] * x[5] * x[8] + -(x[3] * x[4] * x[9]) + -(x[1] * x[7] * x[8]) + x[1] * x[4] * x[11] + x[0] * x[7] * x[9] + -(x[0] * x[5] * x[11])));
    assert(int_adjugate(x, 12) == (-(x[6] * x[9] * x[12]) + x[6] * x[8] * x[13] + x[5] * x[10] * x[12] + -(x[5] * x[8] * x[14]) + -(x[4] * x[10] * x[13]) + x[4] * x[9] * x[14])) by {
        lemma_distribute_minor(x[4], x[9], x[14], x[10], x[13]);
        lemma_distribute_minor(x[5], x[8], x[14], x[10], x[12]);
        lemma_distribute_minor(x[6], x[8], x[13], x[9], x[12]);
    }
    assert(signed_adjugate(x, 12) == (x[6] * x[9] * x[12] + -(x[6] * x[8] * x[13]) + -(x[5] * x[10] * x[12]) + x[5] * x[8] * x[14] + x[4] * x[10] * x[13] + -(x[4] * x[9] * x[14])));
    assert(int_adjugate(x, 13) == (-(x[2] * x[9] * x[12]) + x[2] * x[8] * x[13] + x[1] * x[10] * x[12] + -(x[1] * x[8] * x[14]) + -(x[0] * x[10] * x[13]) + x[0] * x[9] * x[14])) by {
        lemma_distribute_minor(x[0], x[9], x[14], x[10], x[13]);
        lemma_distribute_minor(x[1], x[8], x[14], x[10], x[12]);
        lemma_distribute_minor(x[2], x[8], x[13], x[9], x[12]);
    }
    assert(signed_adjugate(x, 13) == (-(x[2] * x[9] * x[12]) + x[2] * x[8] * x[13] + x[1] * x[10] * x[12] + -(x[1] * x[8] * x[14]) + -(x[0] * x[10] * x[13]) + x[0] * x[9] * x[14]));
    assert(int_adjugate(x, 14) == (-(x[2] * x[5] * x[12]) + x[2] * x[4] * x[13] + x[1] * x[6] * x[12] + -(x[1] * x[4] * x[14]) + -(x[0] * x[6] * x[13]) + x[0] * x[5] * x[14])) by {
        lemma_distribute_minor(x[0], x[5], x[14], x[6], x[13]);
        lemma_distribute_minor(x[1], x[4], x[14], x[6], x[12]);
        lemma_distribute_minor(x[2], x[4], x[13], x[5], x[12]);
    }
    assert(signed_adjugate(x, 14) == (x[2] * x[5] * x[12] + -(x[2] * x[4] * x[13]) + -(x[1] * x[6] * x[12]) + x[1] * x[4] * x[14] + x[0] * x[6] * x[13] + -(x[0] * x[5] * x[14])));
    assert(int_adjugate(x, 15) == (-(x[2] * x[5] * x[8]) + x[2] * x[4] * x[9] + x[1] * x[6] * x[8] + -(x[1] * x[4] * x[10]) + -(x[0] * x[6] * x[9]) + x[0] * x[5] * x[10])) by {
        lemma_distribute_minor(x[0], x[5], x[10], x[6], x[9]);
        lemma_distribute_minor(x[1], x[4], x[10], x[6], x[8]);
        lemma_distribute_minor(x[2], x[4], x[9], x[5], x[8]);
    }
    assert(signed_adjugate(x, 15) == (-(x[2] * x[5] * x[8]) + x[2] * x[4] * x[9] + x[1] * x[6] * x[8] + -(x[1] * x[4] * x[10]) + -(x[0] * x[6] * x[9]) + x[0] * x[5] * x[10]));
    assert(x[0] * signed_adjugate(x, 0) == (-(x[0] * x[7] * x[10] * x[13]) + x[0] * x[7] * x[9] * x[14] + x[0] * x[6] * x[11] * x[13] + -(x[0] * x[6] * x[9] * x[15]) + -(x[0] * x[5] * x[11] * x[14]) + x[0] * x[5] * x[10] * x[15])) by {
        lemma_distribute_six(x[0], -(x[7] * x[10] * x[13]), x[7] * x[9] * x[14], x[6] * x[11] * x[13], -(x[6] * x[9] * x[15]), -(x[5] * x[11] * x[14]), x[5] * x[10] * x[15]);
        lemma_monomial(x[0], x[7], x[10], x[13]);
        lemma_monomial(x[0], x[7], x[9], x[14]);
        lemma_monomial(x[0], x[6], x[11], x[13]);
        lemma_monomial(x[0], x[6], x[9], x[15]);
        lemma_monomial(x[0], x[5], x[11], x[14]);
        lemma_monomial(x[0], x[5], x[10], x[15]);
    }
    assert(x[0] * signed_adjugate(x, 1) == (x[0] * x[3] * x[10] * x[13] + -(x[0] * x[3] * x[9] * x[14]) + -(x[0] * x[2] * x[11] * x[13]) + x[0] * x[2] * x[9] * x[15] + x[0] * x[1] * x[11] * x[14] + -(x[0] * x[1] * x[10] * x[15]))) by {
        lemma_distribute_six(x[0], x[3] * x[10] * x[13], -(x[3] * x[9] * x[14]), -(x[2] * x[11] * x[13]), x[2] * x[9] * x[15], x[1] * x[11] * x[14], -(x[1] * x[10] * x[15]));
        lemma_monomial(x[0], x[3], x[10], x[13]);
        lemma_monomial(x[0], x[3], x[9], x[14]);
        lemma_monomial(x[0], x[2], x[11], x[13]);
        lemma_monomial(x[0], x[2], x[9], x[15]);
        lemma_monomial(x[0], x[1], x[11], x[14]);
        lemma_monomial(x[0], x[1], x[10], x[15]);
    }
    assert(x[0] * signed_adjugate(x, 2) == (-(x[0] * x[3] * x[6] * x[13]) + x[0] * x[3] * x[5] * x[14] + x[0] * x[2] * x[7] * x[13] + -(x[0] * x[2] * x[5] * x[15]) + -(x[0] * x[1] * x[7] * x[14]) + x[0] * x[1] * x[6] * x[15])) by {
        lemma_distribute_six(x[0], -(x[3] * x[6] * x[13]), x[3] * x[5] * x[14], x[2] * x[7] * x[13], -(x[2] * x[5] * x[15]), -(x[1] * x[7] * x[14]), x[1] * x[6] * x[15]);
        lemma_monomial(x[0], x[3], x[6], x[13]);
        lemma_monomial(x[0], x[3], x[5], x[14]);
        lemma_monomial(x[0], x[2], x[7], x[13]);
        lemma_monomial(x[0], x[2], x[5], x[15]);
        lemma_monomial(x[0], x[1], x[7], x[14]);
        lemma_monomial(x[0], x[1], x[6], x[15]);
    }
    assert(x[0] * signed_adjugate(x, 3) == (x[0] * x[3] * x[6] * x[9] + -(x[0] * x[3] * x[5] * x[10]) + -(x[0] * x[2] * x[7] * x[9]) + x[0] * x[2] * x[5] * x[11] + x[0] * x[1] * x[7] * x[10] + -(x[0] * x[1] * x[6] * x[11]))) by {
        lemma_distribute_six(x[0], x[3] * x[6] * x[9], -(x[3] * x[5] * x[10]), -(x[2] * x[7] * x[9]), x[2] * x[5] * x[11], x[1] * x[7] * x[10], -(x[1] * x[6] * x[11]));
        lemma_monomial(x[0], x[3], x[6], x[9]);
        lemma_monomial(x[0], x[3], x[5], x[10]);
        lemma_monomial(x[0], x[2], x[7], x[9]);
        lemma_monomial(x[0], x[2], x[5], x[11]);
        lemma_monomial(x[0], x[1], x[7], x[10]);
        lemma_monomial(x[0], x[1], x[6], x[11]);
    }
    assert(x[0] * signed_adjugate(x, 4) == (x[0] * x[7] * x[10] * x[12] + -(x[0] * x[7] * x[8] * x[14]) + -(x[0] * x[6] * x[11] * x[12]) + x[0] * x[6] * x[8] * x[15] + x[0] * x[4] * x[11] * x[14] + -(x[0] * x[4] * x[10] * x[15]))) by {
        lemma_distribute_six(x[0], x[7] * x[10] * x[12], -(x[7] * x[8] * x[14]), -(x[6] * x[11] * x[12]), x[6] * x[8] * x[15], x[4] * x[11] * x[14], -(x[4] * x[10] * x[15]));
        lemma_monomial(x[0], x[7], x[10], x[12]);
        lemma_monomial(x[0], x[7], x[8], x[14]);
        lemma_monomial(x[0], x[6], x[11], x[12]);
        lemma_monomial(x[0], x[6], x[8], x[15]);
        lemma_monomial(x[0], x[4], x[11], x[14]);
        lemma_monomial(x[0], x[4], x[10], x[15]);
    }
    assert(x[0] * signed_adjugate(x, 8) == (-(x[0] * x[7] * x[9] * x[12]) + x[0] * x[7] * x[8] * x[13] + x[0] * x[5] * x[11] * x[12] + -(x[0] * x[5] * x[8] * x[15]) + -(x[0] * x[4] * x[11] * x[13]) + x[0] * x[4] * x[9] * x[15])) by {
        lemma_distribute_six(x[0], -(x[7] * x[9] * x[12]), x[7] * x[8] * x[13], x[5] * x[11] * x[12], -(x[5] * x[8] * x[15]), -(x[4] * x[11] * x[13]), x[4] * x[9] * x[15]);
        lemma_monomial(x[0], x[7], x[9], x[12]);
        lemma_monomial(x[0], x[7], x[8], x[13]);
        lemma_monomial(x[0], x[5], x[11], x[12]);
        lemma_monomial(x[0], x[5], x[8], x[15]);
        lemma_monomial(x[0], x[4], x[11], x[13]);
        lemma_monomial(x[0], x[4], x[9], x[15]);
    }
    assert(x[0] * signed_adjugate(x, 12) == (x[0] * x[6] * x[9] * x[12] + -(x[0] * x[6] * x[8] * x[13]) + -(x[0] * x[5] * x[10] * x[12]) + x[0] * x[5] * x[8] * x[14] + x[0] * x[4] * x[10] * x[13] + -(x[0] * x[4] * x[9] * x[14]))) by {
        lemma_distribute_six(x[0], x[6] * x[9] * x[12], -(x[6] * x[8] * x[13]), -(x[5] * x[10] * x[12]), x[5] * x[8] * x[14], x[4] * x[10] * x[13], -(x[4] * x[9] * x[14]));
        lemma_monomial(x[0], x[6], x[9], x[12]);
        lemma_monomial(x[0], x[6], x[8], x[13]);
        lemma_monomial(x[0], x[5], x[10], x[12]);
        lemma_monomial(x[0], x[5], x[8], x[14]);
        lemma_monomial(x[0], x[4], x[10], x[13]);
        lemma_monomial(x[0], x[4], x[9], x[14]);
    }
    assert(x[1] * signed_adjugate(x, 0) == (-(x[1] * x[7] * x[10] * x[13]) + x[1] * x[7] * x[9] * x[14] + x[1] * x[6] * x[11] * x[13] + -(x[1] * x[6] * x[9] * x[15]) + -(x[1] * x[5] * x[11] * x[14]) + x[1] * x[5] * x[10] * x[15])) by {
        lemma_distribute_six(x[1], -(x[7] * x[10] * x[13]), x[7] * x[9] * x[14], x[6] * x[11] * x[13], -(x[6] * x[9] * x[15]), -(x[5] * x[11] * x[14]), x[5] * x[10] * x[15]);
        lemma_monomial(x[1], x[7], x[10], x[13]);
        lemma_monomial(x[1], x[7], x[9], x[14]);
        lemma_monomial(x[1], x[6], x[11], x[13]);
        lemma_monomial(x[1], x[6], x[9], x[15]);
        lemma_monomial(x[1], x[5], x[11], x[14]);
        lemma_monomial(x[1], x[5], x[10], x[15]);
    }
    assert(x[1] * signed_adjugate(x, 4) == (x[1] * x[7] * x[10] * x[12] + -(x[1] * x[7] * x[8] * x[14]) + -(x[1] * x[6] * x[11] * x[12]) + x[1] * x[6] * x[8] * x[15] + x[1] * x[4] * x[11] * x[14] + -(x[1] * x[4] * x[10] * x[15]))) by {
        lemma_distribute_six(x[1], x[7] * x[10] * x[12], -(x[7] * x[8] * x[14]), -(x[6] * x[11] * x[12]), x[6] * x[8] * x[15], x[4] * x[11] * x[14], -(x[4] * x[10] * x[15]));
        lemma_monomial(x[1], x[7], x[10], x[12]);
        lemma_monomial(x[1], x[7], x[8], x[14]);
        lemma_monomial(x[1], x[6], x[11], x[12]);
        lemma_monomial(x[1], x[6], x[8], x[15]);
        lemma_monomial(x[1], x[4], x[11], x[14]);
        lemma_monomial(x[1], x[4], x[10], x[15]);
    }
    assert(x[1] * signed_adjugate(x, 5) == (-(x[1] * x[3] * x[10] * x[12]) + x[1] * x[3] * x[8] * x[14] + x[1] * x[2] * x[11] * x[12] + -(x[1] * x[2] * x[8] * x[15]) + -(x[0] * x[1] * x[11] * x[14]) + x[0] * x[1] * x[10] * x[15])) by {
        lemma_distribute_six(x[1], -(x[3] * x[10] * x[12]), x[3] * x[8] * x[14], x[2] * x[11] * x[12], -(x[2] * x[8] * x[15]), -(x[0] * x[11] * x[14]), x[0] * x[10] * x[15]);
        lemma_monomial(x[1], x[3], x[10], x[12]);
        lemma_monomial(x[1], x[3], x[8], x[14]);
        lemma_monomial(x[1], x[2], x[11], x[12]);
        lemma_monomial(x[1], x[2], x[8], x[15]);
        lemma_monomial(x[1], x[0], x[11], x[14]);
        lemma_monomial(x[1], x[0], x[10], x[15]);
    }
    assert(x[1] * signed_adjugate(x, 6) == (x[1] * x[3] * x[6] * x[12] + -(x[1] * x[3] * x[4] * x[14]) + -(x[1] * x[2] * x[7] * x[12]) + x[1] * x[2] * x[4] * x[15] + x[0] * x[1] * x[7] * x[14] + -(x[0] * x[1] * x[6] * x[15]))) by {
        lemma_distribute_six(x[1], x[3] * x[6] * x[12], -(x[3] * x[4] * x[14]), -(x[2] * x[7] * x[12]), x[2] * x[4] * x[15], x[0] * x[7] * x[14], -(x[0] * x[6] * x[15]));
        lemma_monomial(x[1], x[3], x[6], x[12]);
        lemma_monomial(x[1], x[3], x[4], x[14]);
        lemma_monomial(x[1], x[2], x[7], x[12]);
        lemma_monomial(x[1], x[2], x[4], x[15]);
        lemma_monomial(x[1], x[0], x[7], x[14]);
        lemma_monomial(x[1], x[0], x[6], x[15]);
    }
    assert(x[1] * signed_adjugate(x, 7) == (-(x[1] * x[3] * x[6] * x[8]) + x[1] * x[3] * x[4] * x[10] + x[1] * x[2] * x[7] * x[8] + -(x[1] * x[2] * x[4] * x[11]) + -(x[0] * x[1] * x[7] * x[10]) + x[0] * x[1] * x[6] * x[11])) by {
        lemma_distribute_six(x[1], -(x[3] * x[6] * x[8]), x[3] * x[4] * x[10], x[2] * x[7] * x[8], -(x[2] * x[4] * x[11]), -(x[0] * x[7] * x[10]), x[0] * x[6] * x[11]);
        lemma_monomial(x[1], x[3], x[6], x[8]);
        lemma_monomial(x[1], x[3], x[4], x[10]);
        lemma_monomial(x[1], x[2], x[7], x[8]);
        lemma_monomial(x[1], x[2], x[4], x[11]);
        lemma_monomial(x[1], x[0], x[7], x[10]);
        lemma_monomial(x[1], x[0], x[6], x[11]);
    }
    assert(x[1] * signed_adjugate(x, 8) == (-(x[1] * x[7] * x[9] * x[12]) + x[1] * x[7] * x[8] * x[13] + x[1] * x[5] * x[11] * x[12] + -(x[1] * x[5] * x[8] * x[15]) + -(x[1] * x[4] * x[11] * x[13]) + x[1] * x[4] * x[9] * x[15])) by {
        lemma_distribute_six(x[1], -(x[7] * x[9] * x[12]), x[7] * x[8] * x[13], x[5] * x[11] * x[12], -(x[5] * x[8] * x[15]), -(x[4] * x[11] * x[13]), x[4] * x[9] * x[15]);
        lemma_monomial(x[1], x[7], x[9], x[12]);
        lemma_monomial(x[1], x[7], x[8], x[13]);
        lemma_monomial(x[1], x[5], x[11], x[12]);
        lemma_monomial(x[1], x[5], x[8], x[15]);
        lemma_monomial(x[1], x[4], x[11], x[13]);
        lemma_monomial(x[1], x[4], x[9], x[15]);
    }
    assert(x[1] * signed_adjugate(x, 12) == (x[1] * x[6] * x[9] * x[12] + -(x[1] * x[6] * x[8] * x[13]) + -(x[1] * x[5] * x[10] * x[12]) + x[1] * x[5] * x[8] * x[14] + x[1] * x[4] * x[10] * x[13] + -(x[1] * x[4] * x[9] * x[14]))) by {
        lemma_distribute_six(x[1], x[6] * x[9] * x[12], -(x[6] * x[8] * x[13]), -(x[5] * x[10] * x[12]), x[5] * x[8] * x[14], x[4] * x[10] * x[13], -(x[4] * x[9] * x[14]));
        lemma_monomial(x[1], x[6], x[9], x[12]);
        lemma_monomial(x[1], x[6], x[8], x[13]);
        lemma_monomial(x[1], x[5], x[10], x[12]);
        lemma_monomial(x[1], x[5], x[8], x[14]);
        lemma_monomial(x[1], x[4], x[10], x[13]);
        lemma_monomial(x[1], x[4], x[9], x[14]);
    }
    assert(x[2] * signed_adjugate(x, 0) == (-(x[2] * x[7] * x[10] * x[13]) + x[2] * x[7] * x[9] * x[14] + x[2] * x[6] * x[11] * x[13] + -(x[2] * x[6] * x[9] * x[15]) + -(x[2] * x[5] * x[11] * x[14]) + x[2] * x[5] * x[10] * x[15])) by {
        lemma_distribute_six(x[2], -(x[7] * x[10] * x[13]), x[7] * x[9] * x[14], x[6] * x[11] * x[13], -(x[6] * x[9] * x[15]), -(x[5] * x[11] * x[14]), x[5] * x[10] * x[15]);
        lemma_monomial(x[2], x[7], x[10], x[13]);
        lemma_monomial(x[2], x[7], x[9], x[14]);
        lemma_monomial(x[2], x[6], x[11], x[13]);
        lemma_monomial(x[2], x[6], x[9], x[15]);
        lemma_monomial(x[2], x[5], x[11], x[14]);
        lemma_monomial(x[2], x[5], x[10], x[15]);
    }
    assert(x[2] * signed_adjugate(x, 4) == (x[2] * x[7] * x[10] * x[12] + -(x[2] * x[7] * x[8] * x[14]) + -(x[2] * x[6] * x[11] * x[12]) + x[2] * x[6] * x[8] * x[15] + x[2] * x[4] * x[11] * x[14] + -(x[2] * x[4] * x[10] * x[15]))) by {
        lemma_distribute_six(x[2], x[7] * x[10] * x[12], -(x[7] * x[8] * x[14]), -(x[6] * x[11] * x[12]), x[6] * x[8] * x[15], x[4] * x[11] * x[14], -(x[4] * x[10] * x[15]));
        lemma_monomial(x[2], x[7], x[10], x[12]);
        lemma_monomial(x[2], x[7], x[8], x[14]);
        lemma_monomial(x[2], x[6], x[11], x[12]);
        lemma_monomial(x[2], x[6], x[8], x[15]);
        lemma_monomial(x[2], x[4], x[11], x[14]);
        lemma_monomial(x[2], x[4], x[10], x[15]);
    }
    assert(x[2] * signed_adjugate(x, 8) == (-(x[2] * x[7] * x[9] * x[12]) + x[2] * x[7] * x[8] * x[13] + x[2] * x[5] * x[11] * x[12] + -(x[2] * x[5] * x[8] * x[15]) + -(x[2] * x[4] * x[11] * x[13]) + x[2] * x[4] * x[9] * x[15])) by {
        lemma_distribute_six(x[2], -(x[7] * x[9] * x[12]), x[7] * x[8] * x[13], x[5] * x[11] * x[12], -(x[5] * x[8] * x[15]), -(x[4] * x[11] * x[13]), x[4] * x[9] * x[15]);
        lemma_monomial(x[2], x[7], x[9], x[12]);
        lemma_monomial(x[2], x[7], x[8], x[13]);
        lemma_monomial(x[2], x[5], x[11], x[12]);
        lemma_monomial(x[2], x[5], x[8], x[15]);
        lemma_monomial(x[2], x[4], x[11], x[13]);
        lemma_monomial(x[2], x[4], x[9], x[15]);
    }
    assert(x[2] * signed_adjugate(x, 9) == (x[2] * x[3] * x[9] * x[12] + -(x[2] * x[3] * x[8] * x[13]) + -(x[1] * x[2] * x[11] * x[12]) + x[1] * x[2] * x[8] * x[15] + x[0] * x[2] * x[11] * x[13] + -(x[0] * x[2] * x[9] * x[15]))) by {
        lemma_distribute_six(x[2], x[3] * x[9] * x[12], -(x[3] * x[8] * x[13]), -(x[1] * x[11] * x[12]), x[1] * x[8] * x[15], x[0] * x[11] * x[13], -(x[0] * x[9] * x[15]));
        lemma_monomial(x[2], x[3], x[9], x[12]);
        lemma_monomial(x[2], x[3], x[8], x[13]);
        lemma_monomial(x[2], x[1], x[11], x[12]);
        lemma_monomial(x[2], x[1], x[8], x[15]);
        lemma_monomial(x[2], x[0], x[11], x[13]);
        lemma_monomial(x[2], x[0], x[9], x[15]);
    }
    assert(x[2] * signed_adjugate(x, 10) == (-(x[2] * x[3] * x[5] * x[12]) + x[2] * x[3] * x[4] * x[13] + x[1] * x[2] * x[7] * x[12] + -(x[1] * x[2] * x[4] * x[15]) + -(x[0] * x[2] * x[7] * x[13]) + x[0] * x[2] * x[5] * x[15])) by {
        lemma_distribute_six(x[2], -(x[3] * x[5] * x[12]), x[3] * x[4] * x[13], x[1] * x[7] * x[12], -(x[1] * x[4] * x[15]), -(x[0] * x[7] * x[13]), x[0] * x[5] * x[15]);
        lemma_monomial(x[2], x[3], x[5], x[12]);
        lemma_monomial(x[2], x[3], x[4], x[13]);
        lemma_monomial(x[2], x[1], x[7], x[12]);
        lemma_monomial(x[2], x[1], x[4], x[15]);
        lemma_monomial(x[2], x[0], x[7], x[13]);
        lemma_monomial(x[2], x[0], x[5], x[15]);
    }
    assert(x[2] * signed_adjugate(x, 11) == (x[2] * x[3] * x[5] * x[8] + -(x[2] * x[3] * x[4] * x[9]) + -(x[1] * x[2] * x[7] * x[8]) + x[1] * x[2] * x[4] * x[11] + x[0] * x[2] * x[7] * x[9] + -(x[0] * x[2] * x[5] * x[11]))) by {
        lemma_distribute_six(x[2], x[3] * x[5] * x[8], -(x[3] * x[4] * x[9]), -(x[1] * x[7] * x[8]), x[1] * x[4] * x[11], x[0] * x[7] * x[9], -(x[0] * x[5] * x[11]));
        lemma_monomial(x[2], x[3], x[5], x[8]);
        lemma_monomial(x[2], x[3], x[4], x[9]);
        lemma_monomial(x[2], x[1], x[7], x[8]);
        lemma_monomial(x[2], x[1], x[4], x[11]);
        lemma_monomial(x[2], x[0], x[7], x[9]);
        lemma_monomial(x[2], x[0], x[5], x[11]);
    }
    assert(x[2] * signed_adjugate(x, 12) == (x[2] * x[6] * x[9] * x[12] + -(x[2] * x[6] * x[8] * x[13]) + -(x[2] * x[5] * x[10] * x[12]) + x[2] * x[5] * x[8] * x[14] + x[2] * x[4] * x[10] * x[13] + -(x[2] * x[4] * x[9] * x[14]))) by {
        lemma_distribute_six(x[2], x[6] * x[9] * x[12], -(x[6] * x[8] * x[13]), -(x[5] * x[10] * x[12]), x[5] * x[8] * x[14], x[4] * x[10] * x[13], -(x[4] * x[9] * x[14]));
        lemma_monomial(x[2], x[6], x[9], x[12]);
        lemma_monomial(x[2], x[6], x[8], x[13]);
        lemma_monomial(x[2], x[5], x[10], x[12]);
        lemma_monomial(x[2], x[5], x[8], x[14]);
        lemma_monomial(x[2], x[4], x[10], x[13]);
        lemma_monomial(x[2], x[4], x[9], x[14]);
    }
    assert(x[3] * signed_adjugate(x, 0) == (-(x[3] * x[7] * x[10] * x[13]) + x[3] * x[7] * x[9] * x[14] + x[3] * x[6] * x[11] * x[13] + -(x[3] * x[6] * x[9] * x[15]) + -(x[3] * x[5] * x[11] * x[14]) + x[3] * x[5] * x[10] * x[15])) by {
        lemma_distribute_six(x[3], -(x[7] * x[10] * x[13]), x[7] * x[9] * x[14], x[6] * x[11] * x[13], -(x[6] * x[9] * x[15]), -(x[5] * x[11] * x[14]), x[5] * x[10] * x[15]);
        lemma_monomial(x[3], x[7], x[10], x[13]);
        lemma_monomial(x[3], x[7], x[9], x[14]);
        lemma_monomial(x[3], x[6], x[11], x[13]);
        lemma_monomial(x[3], x[6], x[9], x[15]);
        lemma_monomial(x[3], x[5], x[11], x[14]);
        lemma_monomial(x[3], x[5], x[10], x[15]);
    }
    assert(x[3] * signed_adjugate(x, 4) == (x[3] * x[7] * x[10] * x[12] + -(x[3] * x[7] * x[8] * x[14]) + -(x[3] * x[6] * x[11] * x[12]) + x[3] * x[6] * x[8] * x[15] + x[3] * x[4] * x[11] * x[14] + -(x[3] * x[4] * x[10] * x[15]))) by {
        lemma_distribute_six(x[3], x[7] * x[10] * x[12], -(x[7] * x[8] * x[14]), -(x[6] * x[11] * x[12]), x[6] * x[8] * x[15], x[4] * x[11] * x[14], -(x[4] * x[10] * x[15]));
        lemma_monomial(x[3], x[7], x[10], x[12]);
        lemma_monomial(x[3], x[7], x[8], x[14]);
        lemma_monomial(x[3], x[6], x[11], x[12]);
        lemma_monomial(x[3], x[6], x[8], x[15]);
        lemma_monomial(x[3], x[4], x[11], x[14]);
        lemma_monomial(x[3], x[4], x[10], x[15]);
    }
    assert(x[3] * signed_adjugate(x, 8) == (-(x[3] * x[7] * x[9] * x[12]) + x[3] * x[7] * x[8] * x[13] + x[3] * x[5] * x[11] * x[12] + -(x[3] * x[5] * x[8] * x[15]) + -(x[3] * x[4] * x[11] * x[13]) + x[3] * x[4] * x[9] * x[15])) by {
        lemma_distribute_six(x[3], -(x[7] * x[9] * x[12]), x[7] * x[8] * x[13], x[5] * x[11] * x[12], -(x[5] * x[8] * x[15]), -(x[4] * x[11] * x[13]), x[4] * x[9] * x[15]);
        lemma_monomial(x[3], x[7], x[9], x[12]);
        lemma_monomial(x[3], x[7], x[8], x[13]);
        lemma_monomial(x[3], x[5], x[11], x[12]);
        lemma_monomial(x[3], x[5], x[8], x[15]);
        lemma_monomial(x[3], x[4], x[11], x[13]);
        lemma_monomial(x[3], x[4], x[9], x[15]);
    }
    assert(x[3] * signed_adjugate(x, 12) == (x[3] * x[6] * x[9] * x[12] + -(x[3] * x[6] * x[8] * x[13]) + -(x[3] * x[5] * x[10] * x[12]) + x[3] * x[5] * x[8] * x[14] + x[3] * x[4] * x[10] * x[13] + -(x[3] * x[4] * x[9] * x[14]))) by {
        lemma_distribute_six(x[3], x[6] * x[9] * x[12], -(x[6] * x[8] * x[13]), -(x[5] * x[10] * x[12]), x[5] * x[8] * x[14], x[4] * x[10] * x[13], -(x[4] * x[9] * x[14]));
        lemma_monomial(x[3], x[6], x[9], x[12]);
        lemma_monomial(x[3], x[6], x[8], x[13]);
        lemma_monomial(x[3], x[5], x[10], x[12]);
        lemma_monomial(x[3], x[5], x[8], x[14]);
        lemma_monomial(x[3], x[4], x[10], x[13]);
        lemma_monomial(x[3], x[4], x[9], x[14]);
    }
    assert(x[3] * signed_adjugate(x, 13) == (-(x[2] * x[3] * x[9] * x[12]) + x[2] * x[3] * x[8] * x[13] + x[1] * x[3] * x[10] * x[12] + -(x[1] * x[3] * x[8] * x[14]) + -(x[0] * x[3] * x[10] * x[13]) + x[0] * x[3] * x[9] * x[14])) by {
        lemma_distribute_six(x[3], -(x[2] * x[9] * x[12]), x[2] * x[8] * x[13], x[1] * x[10] * x[12], -(x[1] * x[8] * x[14]), -(x[0] * x[10] * x[13]), x[0] * x[9] * x[14]);
        lemma_monomial(x[3], x[2], x[9], x[12]);
        lemma_monomial(x[3], x[2], x[8], x[13]);
        lemma_monomial(x[3], x[1], x[10], x[12]);
        lemma_monomial(x[3], x[1], x[8], x[14]);
        lemma_monomial(x[3], x[0], x[10], x[13]);
        lemma_monomial(x[3], x[0], x[9], x[14]);
    }
    assert(x[3] * signed_adjugate(x, 14) == (x[2] * x[3] * x[5] * x[12] + -(x[2] * x[3] * x[4] * x[13]) + -(x[1] * x[3] * x[6] * x[12]) + x[1] * x[3] * x[4] * x[14] + x[0] * x[3] * x[6] * x[13] + -(x[0] * x[3] * x[5] * x[14]))) by {
        lemma_distribute_six(x[3], x[2] * x[5] * x[12], -(x[2] * x[4] * x[13]), -(x[1] * x[6] * x[12]), x[1] * x[4] * x[14], x[0] * x[6] * x[13], -(x[0] * x[5] * x[14]));
        lemma_monomial(x[3], x[2], x[5], x[12]);
        lemma_monomial(x[3], x[2], x[4], x[13]);
        lemma_monomial(x[3], x[1], x[6], x[12]);
        lemma_monomial(x[3], x[1], x[4], x[14]);
        lemma_monomial(x[3], x[0], x[6], x[13]);
        lemma_monomial(x[3], x[0], x[5], x[14]);
    }
    assert(x[3] * signed_adjugate(x, 15) == (-(x[2] * x[3] * x[5] * x[8]) + x[2] * x[3] * x[4] * x[9] + x[1] * x[3] * x[6] * x[8] + -(x[1] * x[3] * x[4] * x[10]) + -(x[0] * x[3] * x[6] * x[9]) + x[0] * x[3] * x[5] * x[10])) by {
        lemma_distribute_six(x[3], -(x[2] * x[5] * x[8]), x[2] * x[4] * x[9], x[1] * x[6] * x[8], -(x[1] * x[4] * x[10]), -(x[0] * x[6] * x[9]), x[0] * x[5] * x[10]);
        lemma_monomial(x[3], x[2], x[5], x[8]);
        lemma_monomial(x[3], x[2], x[4], x[9]);
        lemma_monomial(x[3], x[1], x[6], x[8]);
        lemma_monomial(x[3], x[1], x[4], x[10]);
        lemma_monomial(x[3], x[0], x[6], x[9]);
        lemma_monomial(x[3], x[0], x[5], x[10]);
    }
    assert(x[4] * signed_adjugate(x, 0) == (-(x[4] * x[7] * x[10] * x[13]) + x[4] * x[7] * x[9] * x[14] + x[4] * x[6] * x[11] * x[13] + -(x[4] * x[6] * x[9] * x[15]) + -(x[4] * x[5] * x[11] * x[14]) + x[4] * x[5] * x[10] * x[15])) by {
        lemma_distribute_six(x[4], -(x[7] * x[10] * x[13]), x[7] * x[9] * x[14], x[6] * x[11] * x[13], -(x[6] * x[9] * x[15]), -(x[5] * x[11] * x[14]), x[5] * x[10] * x[15]);
        lemma_monomial(x[4], x[7], x[10], x[13]);
        lemma_monomial(x[4], x[7], x[9], x[14]);
        lemma_monomial(x[4], x[6], x[11], x[13]);
        lemma_monomial(x[4], x[6], x[9], x[15]);
        lemma_monomial(x[4], x[5], x[11], x[14]);
        lemma_monomial(x[4], x[5], x[10], x[15]);
    }
    assert(x[4] * signed_adjugate(x, 1) == (x[3] * x[4] * x[10] * x[13] + -(x[3] * x[4] * x[9] * x[14]) + -(x[2] * x[4] * x[11] * x[13]) + x[2] * x[4] * x[9] * x[15] + x[1] * x[4] * x[11] * x[14] + -(x[1] * x[4] * x[10] * x[15]))) by {
        lemma_distribute_six(x[4], x[3] * x[10] * x[13], -(x[3] * x[9] * x[14]), -(x[2] * x[11] * x[13]), x[2] * x[9] * x[15], x[1] * x[11] * x[14], -(x[1] * x[10] * x[15]));
        lemma_monomial(x[4], x[3], x[10], x[13]);
        lemma_monomial(x[4], x[3], x[9], x[14]);
        lemma_monomial(x[4], x[2], x[11], x[13]);
        lemma_monomial(x[4], x[2], x[9], x[15]);
        lemma_monomial(x[4], x[1], x[11], x[14]);
        lemma_monomial(x[4], x[1], x[10], x[15]);
    }
    assert(x[4] * signed_adjugate(x, 2) == (-(x[3] * x[4] * x[6] * x[13]) + x[3] * x[4] * x[5] * x[14] + x[2] * x[4] * x[7] * x[13] + -(x[2] * x[4] * x[5] * x[15]) + -(x[1] * x[4] * x[7] * x[14]) + x[1] * x[4] * x[6] * x[15])) by {
        lemma_distribute_six(x[4], -(x[3] * x[6] * x[13]), x[3] * x[5] * x[14], x[2] * x[7] * x[13], -(x[2] * x[5] * x[15]), -(x[1] * x[7] * x[14]), x[1] * x[6] * x[15]);
        lemma_monomial(x[4], x[3], x[6], x[13]);
        lemma_monomial(x[4], x[3], x[5], x[14]);
        lemma_monomial(x[4], x[2], x[7], x[13]);
        lemma_monomial(x[4], x[2], x[5], x[15]);
        lemma_monomial(x[4], x[1], x[7], x[14]);
        lemma_monomial(x[4], x[1], x[6], x[15]);
    }
    assert(x[4] * signed_adjugate(x, 3) == (x[3] * x[4] * x[6] * x[9] + -(x[3] * x[4] * x[5] * x[10]) + -(x[2] * x[4] * x[7] * x[9]) + x[2] * x[4] * x[5] * x[11] + x[1] * x[4] * x[7] * x[10] + -(x[1] * x[4] * x[6] * x[11]))) by {
        lemma_distribute_six(x[4], x[3] * x[6] * x[9], -(x[3] * x[5] * x[10]), -(x[2] * x[7] * x[9]), x[2] * x[5] * x[11], x[1] * x[7] * x[10], -(x[1] * x[6] * x[11]));
        lemma_monomial(x[4], x[3], x[6], x[9]);
        lemma_monomial(x[4], x[3], x[5], x[10]);
        lemma_monomial(x[4], x[2], x[7], x[9]);
        lemma_monomial(x[4], x[2], x[5], x[11]);
        lemma_monomial(x[4], x[1], x[7], x[10]);
        lemma_monomial(x[4], x[1], x[6], x[11]);
    }
    assert(x[4] * signed_adjugate(x, 5) == (-(x[3] * x[4] * x[10] * x[12]) + x[3] * x[4] * x[8] * x[14] + x[2] * x[4] * x[11] * x[12] + -(x[2] * x[4] * x[8] * x[15]) + -(x[0] * x[4] * x[11] * x[14]) + x[0] * x[4] * x[10] * x[15])) by {
        lemma_distribute_six(x[4], -(x[3] * x[10] * x[12]), x[3] * x[8] * x[14], x[2] * x[11] * x[12], -(x[2] * x[8] * x[15]), -(x[0] * x[11] * x[14]), x[0] * x[10] * x[15]);
        lemma_monomial(x[4], x[3], x[10], x[12]);
        lemma_monomial(x[4], x[3], x[8], x[14]);
        lemma_monomial(x[4], x[2], x[11], x[12]);
        lemma_monomial(x[4], x[2], x[8], x[15]);
        lemma_monomial(x[4], x[0], x[11], x[14]);
        lemma_monomial(x[4], x[0], x[10], x[15]);
    }
    assert(x[4] * signed_adjugate(x, 9) == (x[3] * x[4] * x[9] * x[12] + -(x[3] * x[4] * x[8] * x[13]) + -(x[1] * x[4] * x[11] * x[12]) + x[1] * x[4] * x[8] * x[15] + x[0] * x[4] * x[11] * x[13] + -(x[0] * x[4] * x[9] * x[15]))) by {
        lemma_distribute_six(x[4], x[3] * x[9] * x[12], -(x[3] * x[8] * x[13]), -(x[1] * x[11] * x[12]), x[1] * x[8] * x[15], x[0] * x[11] * x[13], -(x[0] * x[9] * x[15]));
        lemma_monomial(x[4], x[3], x[9], x[12]);
        lemma_monomial(x[4], x[3], x[8], x[13]);
        lemma_monomial(x[4], x[1], x[11], x[12]);
        lemma_monomial(x[4], x[1], x[8], x[15]);
        lemma_monomial(x[4], x[0], x[11], x[13]);
        lemma_monomial(x[4], x[0], x[9], x[15]);
    }
    assert(x[4] * signed_adjugate(x, 13) == (-(x[2] * x[4] * x[9] * x[12]) + x[2] * x[4] * x[8] * x[13] + x[1] * x[4] * x[10] * x[12] + -(x[1] * x[4] * x[8] * x[14]) + -(x[0] * x[4] * x[10] * x[13]) + x[0] * x[4] * x[9] * x[14])) by {
        lemma_distribute_six(x[4], -(x[2] * x[9] * x[12]), x[2] * x[8] * x[13], x[1] * x[10] * x[12], -(x[1] * x[8] * x[14]), -(x[0] * x[10] * x[13]), x[0] * x[9] * x[14]);
        lemma_monomial(x[4], x[2], x[9], x[12]);
        lemma_monomial(x[4], x[2], x[8], x[13]);
        lemma_monomial(x[4], x[1], x[10], x[12]);
        lemma_monomial(x[4], x[1], x[8], x[14]);
        lemma_monomial(x[4], x[0], x[10], x[13]);
        lemma_monomial(x[4], x[0], x[9], x[14]);
    }
    assert(x[5] * signed_adjugate(x, 1) == (x[3] * x[5] * x[10] * x[13] + -(x[3] * x[5] * x[9] * x[14]) + -(x[2] * x[5] * x[11] * x[13]) + x[2] * x[5] * x[9] * x[15] + x[1] * x[5] * x[11] * x[14] + -(x[1] * x[5] * x[10] * x[15]))) by {
        lemma_distribute_six(x[5], x[3] * x[10] * x[13], -(x[3] * x[9] * x[14]), -(x[2] * x[11] * x[13]), x[2] * x[9] * x[15], x[1] * x[11] * x[14], -(x[1] * x[10] * x[15]));
        lemma_monomial(x[5], x[3], x[10], x[13]);
        lemma_monomial(x[5], x[3], x[9], x[14]);
        lemma_monomial(x[5], x[2], x[11], x[13]);
        lemma_monomial(x[5], x[2], x[9], x[15]);
        lemma_monomial(x[5], x[1], x[11], x[14]);
        lemma_monomial(x[5], x[1], x[10], x[15]);
    }
    assert(x[5] * signed_adjugate(x, 4) == (x[5] * x[7] * x[10] * x[12] + -(x[5] * x[7] * x[8] * x[14]) + -(x[5] * x[6] * x[11] * x[12]) + x[5] * x[6] * x[8] * x[15] + x[4] * x[5] * x[11] * x[14] + -(x[4] * x[5] * x[10] * x[15]))) by {
        lemma_distribute_six(x[5], x[7] * x[10] * x[12], -(x[7] * x[8] * x[14]), -(x[6] * x[11] * x[12]), x[6] * x[8] * x[15], x[4] * x[11] * x[14], -(x[4] * x[10] * x[15]));
        lemma_monomial(x[5], x[7], x[10], x[12]);
        lemma_monomial(x[5], x[7], x[8], x[14]);
        lemma_monomial(x[5], x[6], x[11], x[12]);
        lemma_monomial(x[5], x[6], x[8], x[15]);
        lemma_monomial(x[5], x[4], x[11], x[14]);
        lemma_monomial(x[5], x[4], x[10], x[15]);
    }
    assert(x[5] * signed_adjugate(x, 5) == (-(x[3] * x[5] * x[10] * x[12]) + x[3] * x[5] * x[8] * x[14] + x[2] * x[5] * x[11] * x[12] + -(x[2] * x[5] * x[8] * x[15]) + -(x[0] * x[5] * x[11] * x[14]) + x[0] * x[5] * x[10] * x[15])) by {
        lemma_distribute_six(x[5], -(x[3] * x[10] * x[12]), x[3] * x[8] * x[14], x[2] * x[11] * x[12], -(x[2] * x[8] * x[15]), -(x[0] * x[11] * x[14]), x[0] * x[10] * x[15]);
        lemma_monomial(x[5], x[3], x[10], x[12]);
        lemma_monomial(x[5], x[3], x[8], x[14]);
        lemma_monomial(x[5], x[2], x[11], x[12]);
        lemma_monomial(x[5], x[2], x[8], x[15]);
        lemma_monomial(x[5], x[0], x[11], x[14]);
        lemma_monomial(x[5], x[0], x[10], x[15]);
    }
    assert(x[5] * signed_adjugate(x, 6) == (x[3] * x[5] * x[6] * x[12] + -(x[3] * x[4] * x[5] * x[14]) + -(x[2] * x[5] * x[7] * x[12]) + x[2] * x[4] * x[5] * x[15] + x[0] * x[5] * x[7] * x[14] + -(x[0] * x[5] * x[6] * x[15]))) by {
        lemma_distribute_six(x[5], x[3] * x[6] * x[12], -(x[3] * x[4] * x[14]), -(x[2] * x[7] * x[12]), x[2] * x[4] * x[15], x[0] * x[7] * x[14], -(x[0] * x[6] * x[15]));
        lemma_monomial(x[5], x[3], x[6], x[12]);
        lemma_monomial(x[5], x[3], x[4], x[14]);
        lemma_monomial(x[5], x[2], x[7], x[12]);
        lemma_monomial(x[5], x[2], x[4], x[15]);
        lemma_monomial(x[5], x[0], x[7], x[14]);
        lemma_monomial(x[5], x[0], x[6], x[15]);
    }
    assert(x[5] * signed_adjugate(x, 7) == (-(x[3] * x[5] * x[6] * x[8]) + x[3] * x[4] * x[5] * x[10] + x[2] * x[5] * x[7] * x[8] + -(x[2] * x[4] * x[5] * x[11]) + -(x[0] * x[5] * x[7] * x[10]) + x[0] * x[5] * x[6] * x[11])) by {
        lemma_distribute_six(x[5], -(x[3] * x[6] * x[8]), x[3] * x[4] * x[10], x[2] * x[7] * x[8], -(x[2] * x[4] * x[11]), -(x[0] * x[7] * x[10]), x[0] * x[6] * x[11]);
        lemma_monomial(x[5], x[3], x[6], x[8]);
        lemma_monomial(x[5], x[3], x[4], x[10]);
        lemma_monomial(x[5], x[2], x[7], x[8]);
        lemma_monomial(x[5], x[2], x[4], x[11]);
        lemma_monomial(x[5], x[0], x[7], x[10]);
        lemma_monomial(x[5], x[0], x[6], x[11]);
    }
    assert(x[5] * signed_adjugate(x, 9) == (x[3] * x[5] * x[9] * x[12] + -(x[3] * x[5] * x[8] * x[13]) + -(x[1] * x[5] * x[11] * x[12]) + x[1] * x[5] * x[8] * x[15] + x[0] * x[5] * x[11] * x[13] + -(x[0] * x[5] * x[9] * x[15]))) by {
        lemma_distribute_six(x[5], x[3] * x[9] * x[12], -(x[3] * x[8] * x[13]), -(x[1] * x[11] * x[12]), x[1] * x[8] * x[15], x[0] * x[11] * x[13], -(x[0] * x[9] * x[15]));
        lemma_monomial(x[5], x[3], x[9], x[12]);
        lemma_monomial(x[5], x[3], x[8], x[13]);
        lemma_monomial(x[5], x[1], x[11], x[12]);
        lemma_monomial(x[5], x[1], x[8], x[15]);
        lemma_monomial(x[5], x[0], x[11], x[13]);
        lemma_monomial(x[5], x[0], x[9], x[15]);
    }
    assert(x[5] * signed_adjugate(x, 13) == (-(x[2] * x[5] * x[9] * x[12]) + x[2] * x[5] * x[8] * x[13] + x[1] * x[5] * x[10] * x[12] + -(x[1] * x[5] * x[8] * x[14]) + -(x[0] * x[5] * x[10] * x[13]) + x[0] * x[5] * x[9] * x[14])) by {
        lemma_distribute_six(x[5], -(x[2] * x[9] * x[12]), x[2] * x[8] * x[13], x[1] * x[10] * x[12], -(x[1] * x[8] * x[14]), -(x[0] * x[10] * x[13]), x[0] * x[9] * x[14]);
        lemma_monomial(x[5], x[2], x[9], x[12]);
        lemma_monomial(x[5], x[2], x[8], x[13]);
        lemma_monomial(x[5], x[1], x[10], x[12]);
        lemma_monomial(x[5], x[1], x[8], x[14]);
        lemma_monomial(x[5], x[0], x[10], x[13]);
        lemma_monomial(x[5], x[0], x[9], x[14]);
    }
    assert(x[6] * signed_adjugate(x, 1) == (x[3] * x[6] * x[10] * x[13] + -(x[3] * x[6] * x[9] * x[14]) + -(x[2] * x[6] * x[11] * x[13]) + x[2] * x[6] * x[9] * x[15] + x[1] * x[6] * x[11] * x[14] + -(x[1] * x[6] * x[10] * x[15]))) by {
        lemma_distribute_six(x[6], x[3] * x[10] * x[13], -(x[3] * x[9] * x[14]), -(x[2] * x[11] * x[13]), x[2] * x[9] * x[15], x[1] * x[11] * x[14], -(x[1] * x[10] * x[15]));
        lemma_monomial(x[6], x[3], x[10], x[13]);
        lemma_monomial(x[6], x[3], x[9], x[14]);
        lemma_monomial(x[6], x[2], x[11], x[13]);
        lemma_monomial(x[6], x[2], x[9], x[15]);
        lemma_monomial(x[6], x[1], x[11], x[14]);
        lemma_monomial(x[6], x[1], x[10], x[15]);
    }
    assert(x[6] * signed_adjugate(x, 5) == (-(x[3] * x[6] * x[10] * x[12]) + x[3] * x[6] * x[8] * x[14] + x[2] * x[6] * x[11] * x[12] + -(x[2] * x[6] * x[8] * x[15]) + -(x[0] * x[6] * x[11] * x[14]) + x[0] * x[6] * x[10] * x[15])) by {
        lemma_distribute_six(x[6], -(x[3] * x[10] * x[12]), x[3] * x[8] * x[14], x[2] * x[11] * x[12], -(x[2] * x[8] * x[15]), -(x[0] * x[11] * x[14]), x[0] * x[10] * x[15]);
        lemma_monomial(x[6], x[3], x[10], x[12]);
        lemma_monomial(x[6], x[3], x[8], x[14]);
        lemma_monomial(x[6], x[2], x[11], x[12]);
        lemma_monomial(x[6], x[2], x[8], x[15]);
        lemma_monomial(x[6], x[0], x[11], x[14]);
        lemma_monomial(x[6], x[0], x[10], x[15]);
    }
    assert(x[6] * signed_adjugate(x, 8) == (-(x[6] * x[7] * x[9] * x[12]) + x[6] * x[7] * x[8] * x[13] + x[5] * x[6] * x[11] * x[12] + -(x[5] * x[6] * x[8] * x[15]) + -(x[4] * x[6] * x[11] * x[13]) + x[4] * x[6] * x[9] * x[15])) by {
        lemma_distribute_six(x[6], -(x[7] * x[9] * x[12]), x[7] * x[8] * x[13], x[5] * x[11] * x[12], -(x[5] * x[8] * x[15]), -(x[4] * x[11] * x[13]), x[4] * x[9] * x[15]);
        lemma_monomial(x[6], x[7], x[9], x[12]);
        lemma_monomial(x[6], x[7], x[8], x[13]);
        lemma_monomial(x[6], x[5], x[11], x[12]);
        lemma_monomial(x[6], x[5], x[8], x[15]);
        lemma_monomial(x[6], x[4], x[11], x[13]);
        lemma_monomial(x[6], x[4], x[9], x[15]);
    }
    assert(x[6] * signed_adjugate(x, 9) == (x[3] * x[6] * x[9] * x[12] + -(x[3] * x[6] * x[8] * x[13]) + -(x[1] * x[6] * x[11] * x[12]) + x[1] * x[6] * x[8] * x[15] + x[0] * x[6] * x[11] * x[13] + -(x[0] * x[6] * x[9] * x[15]))) by {
        lemma_distribute_six(x[6], x[3] * x[9] * x[12], -(x[3] * x[8] * x[13]), -(x[1] * x[11] * x[12]), x[1] * x[8] * x[15], x[0] * x[11] * x[13], -(x[0] * x[9] * x[15]));
        lemma_monomial(x[6], x[3], x[9], x[12]);
        lemma_monomial(x[6], x[3], x[8], x[13]);
        lemma_monomial(x[6], x[1], x[11], x[12]);
        lemma_monomial(x[6], x[1], x[8], x[15]);
        lemma_monomial(x[6], x[0], x[11], x[13]);
        lemma_monomial(x[6], x[0], x[9], x[15]);
    }
    assert(x[6] * signed_adjugate(x, 10) == (-(x[3] * x[5] * x[6] * x[12]) + x[3] * x[4] * x[6] * x[13] + x[1] * x[6] * x[7] * x[12] + -(x[1] * x[4] * x[6] * x[15]) + -(x[0] * x[6] * x[7] * x[13]) + x[0] * x[5] * x[6] * x[15])) by {
        lemma_distribute_six(x[6], -(x[3] * x[5] * x[12]), x[3] * x[4] * x[13], x[1] * x[7] * x[12], -(x[1] * x[4] * x[15]), -(x[0] * x[7] * x[13]), x[0] * x[5] * x[15]);
        lemma_monomial(x[6], x[3], x[5], x[12]);
        lemma_monomial(x[6], x[3], x[4], x[13]);
        lemma_monomial(x[6], x[1], x[7], x[12]);
        lemma_monomial(x[6], x[1], x[4], x[15]);
        lemma_monomial(x[6], x[0], x[7], x[13]);
        lemma_monomial(x[6], x[0], x[5], x[15]);
    }
    assert(x[6] * signed_adjugate(x, 11) == (x[3] * x[5] * x[6] * x[8] + -(x[3] * x[4] * x[6] * x[9]) + -(x[1] * x[6] * x[7] * x[8]) + x[1] * x[4] * x[6] * x[11] + x[0] * x[6] * x[7] * x[9] + -(x[0] * x[5] * x[6] * x[11]))) by {
        lemma_distribute_six(x[6], x[3] * x[5] * x[8], -(x[3] * x[4] * x[9]), -(x[1] * x[7] * x[8]), x[1] * x[4] * x[11], x[0] * x[7] * x[9], -(x[0] * x[5] * x[11]));
        lemma_monomial(x[6], x[3], x[5], x[8]);
        lemma_monomial(x[6], x[3], x[4], x[9]);
        lemma_monomial(x[6], x[1], x[7], x[8]);
        lemma_monomial(x[6], x[1], x[4], x[11]);
        lemma_monomial(x[6], x[0], x[7], x[9]);
        lemma_monomial(x[6], x[0], x[5], x[11]);
    }
    assert(x[6] * signed_adjugate(x, 13) == (-(x[2] * x[6] * x[9] * x[12]) + x[2] * x[6] * x[8] * x[13] + x[1] * x[6] * x[10] * x[12] + -(x[1] * x[6] * x[8] * x[14]) + -(x[0] * x[6] * x[10] * x[13]) + x[0] * x[6] * x[9] * x[14])) by {
        lemma_distribute_six(x[6], -(x[2] * x[9] * x[12]), x[2] * x[8] * x[13], x[1] * x[10] * x[12], -(x[1] * x[8] * x[14]), -(x[0] * x[10] * x[13]), x[0] * x[9] * x[14]);
        lemma_monomial(x[6], x[2], x[9], x[12]);
        lemma_monomial(x[6], x[2], x[8], x[13]);
        lemma_monomial(x[6], x[1], x[10], x[12]);
        lemma_monomial(x[6], x[1], x[8], x[14]);
        lemma_monomial(x[6], x[0], x[10], x[13]);
        lemma_monomial(x[6], x[0], x[9], x[14]);
    }
    assert(x[7] * signed_adjugate(x, 1) == (x[3] * x[7] * x[10] * x[13] + -(x[3] * x[7] * x[9] * x[14]) + -(x[2] * x[7] * x[11] * x[13]) + x[2] * x[7] * x[9] * x[15] + x[1] * x[7] * x[11] * x[14] + -(x[1] * x[7] * x[10] * x[15]))) by {
        lemma_distribute_six(x[7], x[3] * x[10] * x[13], -(x[3] * x[9] * x[14]), -(x[2] * x[11] * x[13]), x[2] * x[9] * x[15], x[1] * x[11] * x[14], -(x[1] * x[10] * x[15]));
        lemma_monomial(x[7], x[3], x[10], x[13]);
        lemma_monomial(x[7], x[3], x[9], x[14]);
        lemma_monomial(x[7], x[2], x[11], x[13]);
        lemma_monomial(x[7], x[2], x[9], x[15]);
        lemma_monomial(x[7], x[1], x[11], x[14]);
        lemma_monomial(x[7], x[1], x[10], x[15]);
    }
    assert(x[7] * signed_adjugate(x, 5) == (-(x[3] * x[7] * x[10] * x[12]) + x[3] * x[7] * x[8] * x[14] + x[2] * x[7] * x[11] * x[12] + -(x[2] * x[7] * x[8] * x[15]) + -(x[0] * x[7] * x[11] * x[14]) + x[0] * x[7] * x[10] * x[15])) by {
        lemma_distribute_six(x[7], -(x[3] * x[10] * x[12]), x[3] * x[8] * x[14], x[2] * x[11] * x[12], -(x[2] * x[8] * x[15]), -(x[0] * x[11] * x[14]), x[0] * x[10] * x[15]);
        lemma_monomial(x[7], x[3], x[10], x[12]);
        lemma_monomial(x[7], x[3], x[8], x[14]);
        lemma_monomial(x[7], x[2], x[11], x[12]);
        lemma_monomial(x[7], x[2], x[8], x[15]);
        lemma_monomial(x[7], x[0], x[11], x[14]);
        lemma_monomial(x[7], x[0], x[10], x[15]);
    }
    assert(x[7] * signed_adjugate(x, 9) == (x[3] * x[7] * x[9] * x[12] + -(x[3] * x[7] * x[8] * x[13]) + -(x[1] * x[7] * x[11] * x[12]) + x[1] * x[7] * x[8] * x[15] + x[0] * x[7] * x[11] * x[13] + -(x[0] * x[7] * x[9] * x[15]))) by {
        lemma_distribute_six(x[7], x[3] * x[9] * x[12], -(x[3] * x[8] * x[13]), -(x[1] * x[11] * x[12]), x[1] * x[8] * x[15], x[0] * x[11] * x[13], -(x[0] * x[9] * x[15]));
        lemma_monomial(x[7], x[3], x[9], x[12]);
        lemma_monomial(x[7], x[3], x[8], x[13]);
        lemma_monomial(x[7], x[1], x[11], x[12]);
        lemma_monomial(x[7], x[1], x[8], x[15]);
        lemma_monomial(x[7], x[0], x[11], x[13]);
        lemma_monomial(x[7], x[0], x[9], x[15]);
    }
    assert(x[7] * signed_adjugate(x, 12) == (x[6] * x[7] * x[9] * x[12] + -(x[6] * x[7] * x[8] * x[13]) + -(x[5] * x[7] * x[10] * x[12]) + x[5] * x[7] * x[8] * x[14] + x[4] * x[7] * x[10] * x[13] + -(x[4] * x[7] * x[9] * x[14]))) by {
        lemma_distribute_six(x[7], x[6] * x[9] * x[12], -(x[6] * x[8] * x[13]), -(x[5] * x[10] * x[12]), x[5] * x[8] * x[14], x[4] * x[10] * x[13], -(x[4] * x[9] * x[14]));
        lemma_monomial(x[7], x[6], x[9], x[12]);
        lemma_monomial(x[7], x[6], x[8], x[13]);
        lemma_monomial(x[7], x[5], x[10], x[12]);
        lemma_monomial(x[7], x[5], x[8], x[14]);
        lemma_monomial(x[7], x[4], x[10], x[13]);
        lemma_monomial(x[7], x[4], x[9], x[14]);
    }
    assert(x[7] * signed_adjugate(x, 13) == (-(x[2] * x[7] * x[9] * x[12]) + x[2] * x[7] * x[8] * x[13] + x[1] * x[7] * x[10] * x[12] + -(x[1] * x[7] * x[8] * x[14]) + -(x[0] * x[7] * x[10] * x[13]) + x[0] * x[7] * x[9] * x[14])) by {
        lemma_distribute_six(x[7], -(x[2] * x[9] * x[12]), x[2] * x[8] * x[13], x[1] * x[10] * x[12], -(x[1] * x[8] * x[14]), -(x[0] * x[10] * x[13]), x[0] * x[9] * x[14]);
        lemma_monomial(x[7], x[2], x[9], x[12]);
        lemma_monomial(x[7], x[2], x[8], x[13]);
        lemma_monomial(x[7], x[1], x[10], x[12]);
        lemma_monomial(x[7], x[1], x[8], x[14]);
        lemma_monomial(x[7], x[0], x[10], x[13]);
        lemma_monomial(x[7], x[0], x[9], x[14]);
    }
    assert(x[7] * signed_adjugate(x, 14) == (x[2] * x[5] * x[7] * x[12] + -(x[2] * x[4] * x[7] * x[13]) + -(x[1] * x[6] * x[7] * x[12]) + x[1] * x[4] * x[7] * x[14] + x[0] * x[6] * x[7] * x[13] + -(x[0] * x[5] * x[7] * x[14]))) by {
        lemma_distribute_six(x[7], x[2] * x[5] * x[12], -(x[2] * x[4] * x[13]), -(x[1] * x[6] * x[12]), x[1] * x[4] * x[14], x[0] * x[6] * x[13], -(x[0] * x[5] * x[14]));
        lemma_monomial(x[7], x[2], x[5], x[12]);
        lemma_monomial(x[7], x[2], x[4], x[13]);
        lemma_monomial(x[7], x[1], x[6], x[12]);
        lemma_monomial(x[7], x[1], x[4], x[14]);
        lemma_monomial(x[7], x[0], x[6], x[13]);
        lemma_monomial(x[7], x[0], x[5], x[14]);
    }
    assert(x[7] * signed_adjugate(x, 15) == (-(x[2] * x[5] * x[7] * x[8]) + x[2] * x[4] * x[7] * x[9] + x[1] * x[6] * x[7] * x[8] + -(x[1] * x[4] * x[7] * x[10]) + -(x[0] * x[6] * x[7] * x[9]) + x[0] * x[5] * x[7] * x[10])) by {
        lemma_distribute_six(x[7], -(x[2] * x[5] * x[8]), x[2] * x[4] * x[9], x[1] * x[6] * x[8], -(x[1] * x[4] * x[10]), -(x[0] * x[6] * x[9]), x[0] * x[5] * x[10]);
        lemma_monomial(x[7], x[2], x[5], x[8]);
        lemma_monomial(x[7], x[2], x[4], x[9]);
        lemma_monomial(x[7], x[1], x[6], x[8]);
        lemma_monomial(x[7], x[1], x[4], x[10]);
        lemma_monomial(x[7], x[0], x[6], x[9]);
        lemma_monomial(x[7], x[0], x[5], x[10]);
    }
    assert(x[8] * signed_adjugate(x, 0) == (-(x[7] * x[8] * x[10] * x[13]) + x[7] * x[8] * x[9] * x[14] + x[6] * x[8] * x[11] * x[13] + -(x[6] * x[8] * x[9] * x[15]) + -(x[5] * x[8] * x[11] * x[14]) + x[5] * x[8] * x[10] * x[15])) by {
        lemma_distribute_six(x[8], -(x[7] * x[10] * x[13]), x[7] * x[9] * x[14], x[6] * x[11] * x[13], -(x[6] * x[9] * x[15]), -(x[5] * x[11] * x[14]), x[5] * x[10] * x[15]);
        lemma_monomial(x[8], x[7], x[10], x[13]);
        lemma_monomial(x[8], x[7], x[9], x[14]);
        lemma_monomial(x[8], x[6], x[11], x[13]);
        lemma_monomial(x[8], x[6], x[9], x[15]);
        lemma_monomial(x[8], x[5], x[11], x[14]);
        lemma_monomial(x[8], x[5], x[10], x[15]);
    }
    assert(x[8] * signed_adjugate(x, 1) == (x[3] * x[8] * x[10] * x[13] + -(x[3] * x[8] * x[9] * x[14]) + -(x[2] * x[8] * x[11] * x[13]) + x[2] * x[8] * x[9] * x[15] + x[1] * x[8] * x[11] * x[14] + -(x[1] * x[8] * x[10] * x[15]))) by {
        lemma_distribute_six(x[8], x[3] * x[10] * x[13], -(x[3] * x[9] * x[14]), -(x[2] * x[11] * x[13]), x[2] * x[9] * x[15], x[1] * x[11] * x[14], -(x[1] * x[10] * x[15]));
        lemma_monomial(x[8], x[3], x[10], x[13]);
        lemma_monomial(x[8], x[3], x[9], x[14]);
        lemma_monomial(x[8], x[2], x[11], x[13]);
        lemma_monomial(x[8], x[2], x[9], x[15]);
        lemma_monomial(x[8], x[1], x[11], x[14]);
        lemma_monomial(x[8], x[1], x[10], x[15]);
    }
    assert(x[8] * signed_adjugate(x, 2) == (-(x[3] * x[6] * x[8] * x[13]) + x[3] * x[5] * x[8] * x[14] + x[2] * x[7] * x[8] * x[13] + -(x[2] * x[5] * x[8] * x[15]) + -(x[1] * x[7] * x[8] * x[14]) + x[1] * x[6] * x[8] * x[15])) by {
        lemma_distribute_six(x[8], -(x[3] * x[6] * x[13]), x[3] * x[5] * x[14], x[2] * x[7] * x[13], -(x[2] * x[5] * x[15]), -(x[1] * x[7] * x[14]), x[1] * x[6] * x[15]);
        lemma_monomial(x[8], x[3], x[6], x[13]);
        lemma_monomial(x[8], x[3], x[5], x[14]);
        lemma_monomial(x[8], x[2], x[7], x[13]);
        lemma_monomial(x[8], x[2], x[5], x[15]);
        lemma_monomial(x[8], x[1], x[7], x[14]);
        lemma_monomial(x[8], x[1], x[6], x[15]);
    }
    assert(x[8] * signed_adjugate(x, 3) == (x[3] * x[6] * x[8] * x[9] + -(x[3] * x[5] * x[8] * x[10]) + -(x[2] * x[7] * x[8] * x[9]) + x[2] * x[5] * x[8] * x[11] + x[1] * x[7] * x[8] * x[10] + -(x[1] * x[6] * x[8] * x[11]))) by {
        lemma_distribute_six(x[8], x[3] * x[6] * x[9], -(x[3] * x[5] * x[10]), -(x[2] * x[7] * x[9]), x[2] * x[5] * x[11], x[1] * x[7] * x[10], -(x[1] * x[6] * x[11]));
        lemma_monomial(x[8], x[3], x[6], x[9]);
        lemma_monomial(x[8], x[3], x[5], x[10]);
        lemma_monomial(x[8], x[2], x[7], x[9]);
        lemma_monomial(x[8], x[2], x[5], x[11]);
        lemma_monomial(x[8], x[1], x[7], x[10]);
        lemma_monomial(x[8], x[1], x[6], x[11]);
    }
    assert(x[8] * signed_adjugate(x, 6) == (x[3] * x[6] * x[8] * x[12] + -(x[3] * x[4] * x[8] * x[14]) + -(x[2] * x[7] * x[8] * x[12]) + x[2] * x[4] * x[8] * x[15] + x[0] * x[7] * x[8] * x[14] + -(x[0] * x[6] * x[8] * x[15]))) by {
        lemma_distribute_six(x[8], x[3] * x[6] * x[12], -(x[3] * x[4] * x[14]), -(x[2] * x[7] * x[12]), x[2] * x[4] * x[15], x[0] * x[7] * x[14], -(x[0] * x[6] * x[15]));
        lemma_monomial(x[8], x[3], x[6], x[12]);
        lemma_monomial(x[8], x[3], x[4], x[14]);
        lemma_monomial(x[8], x[2], x[7], x[12]);
        lemma_monomial(x[8], x[2], x[4], x[15]);
        lemma_monomial(x[8], x[0], x[7], x[14]);
        lemma_monomial(x[8], x[0], x[6], x[15]);
    }
    assert(x[8] * signed_adjugate(x, 10) == (-(x[3] * x[5] * x[8] * x[12]) + x[3] * x[4] * x[8] * x[13] + x[1] * x[7] * x[8] * x[12] + -(x[1] * x[4] * x[8] * x[15]) + -(x[0] * x[7] * x[8] * x[13]) + x[0] * x[5] * x[8] * x[15])) by {
        lemma_distribute_six(x[8], -(x[3] * x[5] * x[12]), x[3] * x[4] * x[13], x[1] * x[7] * x[12], -(x[1] * x[4] * x[15]), -(x[0] * x[7] * x[13]), x[0] * x[5] * x[15]);
        lemma_monomial(x[8], x[3], x[5], x[12]);
        lemma_monomial(x[8], x[3], x[4], x[13]);
        lemma_monomial(x[8], x[1], x[7], x[12]);
        lemma_monomial(x[8], x[1], x[4], x[15]);
        lemma_monomial(x[8], x[0], x[7], x[13]);
        lemma_monomial(x[8], x[0], x[5], x[15]);
    }
    assert(x[8] * signed_adjugate(x, 14) == (x[2] * x[5] * x[8] * x[12] + -(x[2] * x[4] * x[8] * x[13]) + -(x[1] * x[6] * x[8] * x[12]) + x[1] * x[4] * x[8] * x[14] + x[0] * x[6] * x[8] * x[13] + -(x[0] * x[5] * x[8] * x[14]))) by {
        lemma_distribute_six(x[8], x[2] * x[5] * x[12], -(x[2] * x[4] * x[13]), -(x[1] * x[6] * x[12]), x[1] * x[4] * x[14], x[0] * x[6] * x[13], -(x[0] * x[5] * x[14]));
        lemma_monomial(x[8], x[2], x[5], x[12]);
        lemma_monomial(x[8], x[2], x[4], x[13]);
        lemma_monomial(x[8], x[1], x[6], x[12]);
        lemma_monomial(x[8], x[1], x[4], x[14]);
        lemma_monomial(x[8], x[0], x[6], x[13]);
        lemma_monomial(x[8], x[0], x[5], x[14]);
    }
    assert(x[9] * signed_adjugate(x, 2) == (-(x[3] * x[6] * x[9] * x[13]) + x[3] * x[5] * x[9] * x[14] + x[2] * x[7] * x[9] * x[13] + -(x[2] * x[5] * x[9] * x[15]) + -(x[1] * x[7] * x[9] * x[14]) + x[1] * x[6] * x[9] * x[15])) by {
        lemma_distribute_six(x[9], -(x[3] * x[6] * x[13]), x[3] * x[5] * x[14], x[2] * x[7] * x[13], -(x[2] * x[5] * x[15]), -(x[1] * x[7] * x[14]), x[1] * x[6] * x[15]);
        lemma_monomial(x[9], x[3], x[6], x[13]);
        lemma_monomial(x[9], x[3], x[5], x[14]);
        lemma_monomial(x[9], x[2], x[7], x[13]);
        lemma_monomial(x[9], x[2], x[5], x[15]);
        lemma_monomial(x[9], x[1], x[7], x[14]);
        lemma_monomial(x[9], x[1], x[6], x[15]);
    }
    assert(x[9] * signed_adjugate(x, 4) == (x[7] * x[9] * x[10] * x[12] + -(x[7] * x[8] * x[9] * x[14]) + -(x[6] * x[9] * x[11] * x[12]) + x[6] * x[8] * x[9] * x[15] + x[4] * x[9] * x[11] * x[14] + -(x[4] * x[9] * x[10] * x[15]))) by {
        lemma_distribute_six(x[9], x[7] * x[10] * x[12], -(x[7] * x[8] * x[14]), -(x[6] * x[11] * x[12]), x[6] * x[8] * x[15], x[4] * x[11] * x[14], -(x[4] * x[10] * x[15]));
        lemma_monomial(x[9], x[7], x[10], x[12]);
        lemma_monomial(x[9], x[7], x[8], x[14]);
        lemma_monomial(x[9], x[6], x[11], x[12]);
        lemma_monomial(x[9], x[6], x[8], x[15]);
        lemma_monomial(x[9], x[4], x[11], x[14]);
        lemma_monomial(x[9], x[4], x[10], x[15]);
    }
    assert(x[9] * signed_adjugate(x, 5) == (-(x[3] * x[9] * x[10] * x[12]) + x[3] * x[8] * x[9] * x[14] + x[2] * x[9] * x[11] * x[12] + -(x[2] * x[8] * x[9] * x[15]) + -(x[0] * x[9] * x[11] * x[14]) + x[0] * x[9] * x[10] * x[15])) by {
        lemma_distribute_six(x[9], -(x[3] * x[10] * x[12]), x[3] * x[8] * x[14], x[2] * x[11] * x[12], -(x[2] * x[8] * x[15]), -(x[0] * x[11] * x[14]), x[0] * x[10] * x[15]);
        lemma_monomial(x[9], x[3], x[10], x[12]);
        lemma_monomial(x[9], x[3], x[8], x[14]);
        lemma_monomial(x[9], x[2], x[11], x[12]);
        lemma_monomial(x[9], x[2], x[8], x[15]);
        lemma_monomial(x[9], x[0], x[11], x[14]);
        lemma_monomial(x[9], x[0], x[10], x[15]);
    }
    assert(x[9] * signed_adjugate(x, 6) == (x[3] * x[6] * x[9] * x[12] + -(x[3] * x[4] * x[9] * x[14]) + -(x[2] * x[7] * x[9] * x[12]) + x[2] * x[4] * x[9] * x[15] + x[0] * x[7] * x[9] * x[14] + -(x[0] * x[6] * x[9] * x[15]))) by {
        lemma_distribute_six(x[9], x[3] * x[6] * x[12], -(x[3] * x[4] * x[14]), -(x[2] * x[7] * x[12]), x[2] * x[4] * x[15], x[0] * x[7] * x[14], -(x[0] * x[6] * x[15]));
        lemma_monomial(x[9], x[3], x[6], x[12]);
        lemma_monomial(x[9], x[3], x[4], x[14]);
        lemma_monomial(x[9], x[2], x[7], x[12]);
        lemma_monomial(x[9], x[2], x[4], x[15]);
        lemma_monomial(x[9], x[0], x[7], x[14]);
        lemma_monomial(x[9], x[0], x[6], x[15]);
    }
    assert(x[9] * signed_adjugate(x, 7) == (-(x[3] * x[6] * x[8] * x[9]) + x[3] * x[4] * x[9] * x[10] + x[2] * x[7] * x[8] * x[9] + -(x[2] * x[4] * x[9] * x[11]) + -(x[0] * x[7] * x[9] * x[10]) + x[0] * x[6] * x[9] * x[11])) by {
        lemma_distribute_six(x[9], -(x[3] * x[6] * x[8]), x[3] * x[4] * x[10], x[2] * x[7] * x[8], -(x[2] * x[4] * x[11]), -(x[0] * x[7] * x[10]), x[0] * x[6] * x[11]);
        lemma_monomial(x[9], x[3], x[6], x[8]);
        lemma_monomial(x[9], x[3], x[4], x[10]);
        lemma_monomial(x[9], x[2], x[7], x[8]);
        lemma_monomial(x[9], x[2], x[4], x[11]);
        lemma_monomial(x[9], x[0], x[7], x[10]);
        lemma_monomial(x[9], x[0], x[6], x[11]);
    }
    assert(x[9] * signed_adjugate(x, 10) == (-(x[3] * x[5] * x[9] * x[12]) + x[3] * x[4] * x[9] * x[13] + x[1] * x[7] * x[9] * x[12] + -(x[1] * x[4] * x[9] * x[15]) + -(x[0] * x[7] * x[9] * x[13]) + x[0] * x[5] * x[9] * x[15])) by {
        lemma_distribute_six(x[9], -(x[3] * x[5] * x[12]), x[3] * x[4] * x[13], x[1] * x[7] * x[12], -(x[1] * x[4] * x[15]), -(x[0] * x[7] * x[13]), x[0] * x[5] * x[15]);
        lemma_monomial(x[9], x[3], x[5], x[12]);
        lemma_monomial(x[9], x[3], x[4], x[13]);
        lemma_monomial(x[9], x[1], x[7], x[12]);
        lemma_monomial(x[9], x[1], x[4], x[15]);
        lemma_monomial(x[9], x[0], x[7], x[13]);
        lemma_monomial(x[9], x[0], x[5], x[15]);
    }
    assert(x[9] * signed_adjugate(x, 14) == (x[2] * x[5] * x[9] * x[12] + -(x[2] * x[4] * x[9] * x[13]) + -(x[1] * x[6] * x[9] * x[12]) + x[1] * x[4] * x[9] * x[14] + x[0] * x[6] * x[9] * x[13] + -(x[0] * x[5] * x[9] * x[14]))) by {
        lemma_distribute_six(x[9], x[2] * x[5] * x[12], -(x[2] * x[4] * x[13]), -(x[1] * x[6] * x[12]), x[1] * x[4] * x[14], x[0] * x[6] * x[13], -(x[0] * x[5] * x[14]));
        lemma_monomial(x[9], x[2], x[5], x[12]);
        lemma_monomial(x[9], x[2], x[4], x[13]);
        lemma_monomial(x[9], x[1], x[6], x[12]);
        lemma_monomial(x[9], x[1], x[4], x[14]);
        lemma_monomial(x[9], x[0], x[6], x[13]);
        lemma_monomial(x[9], x[0], x[5], x[14]);
    }
    assert(x[10] * signed_adjugate(x, 2) == (-(x[3] * x[6] * x[10] * x[13]) + x[3] * x[5] * x[10] * x[14] + x[2] * x[7] * x[10] * x[13] + -(x[2] * x[5] * x[10] * x[15]) + -(x[1] * x[7] * x[10] * x[14]) + x[1] * x[6] * x[10] * x[15])) by {
        lemma_distribute_six(x[10], -(x[3] * x[6] * x[13]), x[3] * x[5] * x[14], x[2] * x[7] * x[13], -(x[2] * x[5] * x[15]), -(x[1] * x[7] * x[14]), x[1] * x[6] * x[15]);
        lemma_monomial(x[10], x[3], x[6], x[13]);
        lemma_monomial(x[10], x[3], x[5], x[14]);
        lemma_monomial(x[10], x[2], x[7], x[13]);
        lemma_monomial(x[10], x[2], x[5], x[15]);
        lemma_monomial(x[10], x[1], x[7], x[14]);
        lemma_monomial(x[10], x[1], x[6], x[15]);
    }
    assert(x[10] * signed_adjugate(x, 6) == (x[3] * x[6] * x[10] * x[12] + -(x[3] * x[4] * x[10] * x[14]) + -(x[2] * x[7] * x[10] * x[12]) + x[2] * x[4] * x[10] * x[15] + x[0] * x[7] * x[10] * x[14] + -(x[0] * x[6] * x[10] * x[15]))) by {
        lemma_distribute_six(x[10], x[3] * x[6] * x[12], -(x[3] * x[4] * x[14]), -(x[2] * x[7] * x[12]), x[2] * x[4] * x[15], x[0] * x[7] * x[14], -(x[0] * x[6] * x[15]));
        lemma_monomial(x[10], x[3], x[6], x[12]);
        lemma_monomial(x[10], x[3], x[4], x[14]);
        lemma_monomial(x[10], x[2], x[7], x[12]);
        lemma_monomial(x[10], x[2], x[4], x[15]);
        lemma_monomial(x[10], x[0], x[7], x[14]);
        lemma_monomial(x[10], x[0], x[6], x[15]);
    }
    assert(x[10] * signed_adjugate(x, 8) == (-(x[7] * x[9] * x[10] * x[12]) + x[7] * x[8] * x[10] * x[13] + x[5] * x[10] * x[11] * x[12] + -(x[5] * x[8] * x[10] * x[15]) + -(x[4] * x[10] * x[11] * x[13]) + x[4] * x[9] * x[10] * x[15])) by {
        lemma_distribute_six(x[10], -(x[7] * x[9] * x[12]), x[7] * x[8] * x[13], x[5] * x[11] * x[12], -(x[5] * x[8] * x[15]), -(x[4] * x[11] * x[13]), x[4] * x[9] * x[15]);
        lemma_monomial(x[10], x[7], x[9], x[12]);
        lemma_monomial(x[10], x[7], x[8], x[13]);
        lemma_monomial(x[10], x[5], x[11], x[12]);
        lemma_monomial(x[10], x[5], x[8], x[15]);
        lemma_monomial(x[10], x[4], x[11], x[13]);
        lemma_monomial(x[10], x[4], x[9], x[15]);
    }
    assert(x[10] * signed_adjugate(x, 9) == (x[3] * x[9] * x[10] * x[12] + -(x[3] * x[8] * x[10] * x[13]) + -(x[1] * x[10] * x[11] * x[12]) + x[1] * x[8] * x[10] * x[15] + x[0] * x[10] * x[11] * x[13] + -(x[0] * x[9] * x[10] * x[15]))) by {
        lemma_distribute_six(x[10], x[3] * x[9] * x[12], -(x[3] * x[8] * x[13]), -(x[1] * x[11] * x[12]), x[1] * x[8] * x[15], x[0] * x[11] * x[13], -(x[0] * x[9] * x[15]));
        lemma_monomial(x[10], x[3], x[9], x[12]);
        lemma_monomial(x[10], x[3], x[8], x[13]);
        lemma_monomial(x[10], x[1], x[11], x[12]);
        lemma_monomial(x[10], x[1], x[8], x[15]);
        lemma_monomial(x[10], x[0], x[11], x[13]);
        lemma_monomial(x[10], x[0], x[9], x[15]);
    }
    assert(x[10] * signed_adjugate(x, 10) == (-(x[3] * x[5] * x[10] * x[12]) + x[3] * x[4] * x[10] * x[13] + x[1] * x[7] * x[10] * x[12] + -(x[1] * x[4] * x[10] * x[15]) + -(x[0] * x[7] * x[10] * x[13]) + x[0] * x[5] * x[10] * x[15])) by {
        lemma_distribute_six(x[10], -(x[3] * x[5] * x[12]), x[3] * x[4] * x[13], x[1] * x[7] * x[12], -(x[1] * x[4] * x[15]), -(x[0] * x[7] * x[13]), x[0] * x[5] * x[15]);
        lemma_monomial(x[10], x[3], x[5], x[12]);
        lemma_monomial(x[10], x[3], x[4], x[13]);
        lemma_monomial(x[10], x[1], x[7], x[12]);
        lemma_monomial(x[10], x[1], x[4], x[15]);
        lemma_monomial(x[10], x[0], x[7], x[13]);
        lemma_monomial(x[10], x[0], x[5], x[15]);
    }
    assert(x[10] * signed_adjugate(x, 11) == (x[3] * x[5] * x[8] * x[10] + -(x[3] * x[4] * x[9] * x[10]) + -(x[1] * x[7] * x[8] * x[10]) + x[1] * x[4] * x[10] * x[11] + x[0] * x[7] * x[9] * x[10] + -(x[0] * x[5] * x[10] * x[11]))) by {
        lemma_distribute_six(x[10], x[3] * x[5] * x[8], -(x[3] * x[4] * x[9]), -(x[1] * x[7] * x[8]), x[1] * x[4] * x[11], x[0] * x[7] * x[9], -(x[0] * x[5] * x[11]));
        lemma_monomial(x[10], x[3], x[5], x[8]);
        lemma_monomial(x[10], x[3], x[4], x[9]);
        lemma_monomial(x[10], x[1], x[7], x[8]);
        lemma_monomial(x[10], x[1], x[4], x[11]);
        lemma_monomial(x[10], x[0], x[7], x[9]);
        lemma_monomial(x[10], x[0], x[5], x[11]);
    }
    assert(x[10] * signed_adjugate(x, 14) == (x[2] * x[5] * x[10] * x[12] + -(x[2] * x[4] * x[10] * x[13]) + -(x[1] * x[6] * x[10] * x[12]) + x[1] * x[4] * x[10] * x[14] + x[0] * x[6] * x[10] * x[13] + -(x[0] * x[5] * x[10] * x[14]))) by {
        lemma_distribute_six(x[10], x[2] * x[5] * x[12], -(x[2] * x[4] * x[13]), -(x[1] * x[6] * x[12]), x[1] * x[4] * x[14], x[0] * x[6] * x[13], -(x[0] * x[5] * x[14]));
        lemma_monomial(x[10], x[2], x[5], x[12]);
        lemma_monomial(x[10], x[2], x[4], x[13]);
        lemma_monomial(x[10], x[1], x[6], x[12]);
        lemma_monomial(x[10], x[1], x[4], x[14]);
        lemma_monomial(x[10], x[0], x[6], x[13]);
        lemma_monomial(x[10], x[0], x[5], x[14]);
    }
    assert(x[11] * signed_adjugate(x, 2) == (-(x[3] * x[6] * x[11] * x[13]) + x[3] * x[5] * x[11] * x[14] + x[2] * x[7] * x[11] * x[13] + -(x[2] * x[5] * x[11] * x[15]) + -(x[1] * x[7] * x[11] * x[14]) + x[1] * x[6] * x[11] * x[15])) by {
        lemma_distribute_six(x[11], -(x[3] * x[6] * x[13]), x[3] * x[5] * x[14], x[2] * x[7] * x[13], -(x[2] * x[5] * x[15]), -(x[1] * x[7] * x[14]), x[1] * x[6] * x[15]);
        lemma_monomial(x[11], x[3], x[6], x[13]);
        lemma_monomial(x[11], x[3], x[5], x[14]);
        lemma_monomial(x[11], x[2], x[7], x[13]);
        lemma_monomial(x[11], x[2], x[5], x[15]);
        lemma_monomial(x[11], x[1], x[7], x[14]);
        lemma_monomial(x[11], x[1], x[6], x[15]);
    }
    assert(x[11] * signed_adjugate(x, 6) == (x[3] * x[6] * x[11] * x[12] + -(x[3] * x[4] * x[11] * x[14]) + -(x[2] * x[7] * x[11] * x[12]) + x[2] * x[4] * x[11] * x[15] + x[0] * x[7] * x[11] * x[14] + -(x[0] * x[6] * x[11] * x[15]))) by {
        lemma_distribute_six(x[11], x[3] * x[6] * x[12], -(x[3] * x[4] * x[14]), -(x[2] * x[7] * x[12]), x[2] * x[4] * x[15], x[0] * x[7] * x[14], -(x[0] * x[6] * x[15]));
        lemma_monomial(x[11], x[3], x[6], x[12]);
        lemma_monomial(x[11], x[3], x[4], x[14]);
        lemma_monomial(x[11], x[2], x[7], x[12]);
        lemma_monomial(x[11], x[2], x[4], x[15]);
        lemma_monomial(x[11], x[0], x[7], x[14]);
        lemma_monomial(x[11], x[0], x[6], x[15]);
    }
    assert(x[11] * signed_adjugate(x, 10) == (-(x[3] * x[5] * x[11] * x[12]) + x[3] * x[4] * x[11] * x[13] + x[1] * x[7] * x[11] * x[12] + -(x[1] * x[4] * x[11] * x[15]) + -(x[0] * x[7] * x[11] * x[13]) + x[0] * x[5] * x[11] * x[15])) by {
        lemma_distribute_six(x[11], -(x[3] * x[5] * x[12]), x[3] * x[4] * x[13], x[1] * x[7] * x[12], -(x[1] * x[4] * x[15]), -(x[0] * x[7] * x[13]), x[0] * x[5] * x[15]);
        lemma_monomial(x[11], x[3], x[5], x[12]);
        lemma_monomial(x[11], x[3], x[4], x[13]);
        lemma_monomial(x[11], x[1], x[7], x[12]);
        lemma_monomial(x[11], x[1], x[4], x[15]);
        lemma_monomial(x[11], x[0], x[7], x[13]);
        lemma_monomial(x[11], x[0], x[5], x[15]);
    }
    assert(x[11] * signed_adjugate(x, 12) == (x[6] * x[9] * x[11] * x[12] + -(x[6] * x[8] * x[11] * x[13]) + -(x[5] * x[10] * x[11] * x[12]) + x[5] * x[8] * x[11] * x[14] + x[4] * x[10] * x[11] * x[13] + -(x[4] * x[9] * x[11] * x[14]))) by {
        lemma_distribute_six(x[11], x[6] * x[9] * x[12], -(x[6] * x[8] * x[13]), -(x[5] * x[10] * x[12]), x[5] * x[8] * x[14], x[4] * x[10] * x[13], -(x[4] * x[9] * x[14]));
        lemma_monomial(x[11], x[6], x[9], x[12]);
        lemma_monomial(x[11], x[6], x[8], x[13]);
        lemma_monomial(x[11], x[5], x[10], x[12]);
        lemma_monomial(x[11], x[5], x[8], x[14]);
        lemma_monomial(x[11], x[4], x[10], x[13]);
        lemma_monomial(x[11], x[4], x[9], x[14]);
    }
    assert(x[11] * signed_adjugate(x, 13) == (-(x[2] * x[9] * x[11] * x[12]) + x[2] * x[8] * x[11] * x[13] + x[1] * x[10] * x[11] * x[12] + -(x[1] * x[8] * x[11] * x[14]) + -(x[0] * x[10] * x[11] * x[13]) + x[0] * x[9] * x[11] * x[14])) by {
        lemma_distribute_six(x[11], -(x[2] * x[9] * x[12]), x[2] * x[8] * x[13], x[1] * x[10] * x[12], -(x[1] * x[8] * x[14]), -(x[0] * x[10] * x[13]), x[0] * x[9] * x[14]);
        lemma_monomial(x[11], x[2], x[9], x[12]);
        lemma_monomial(x[11], x[2], x[8], x[13]);
        lemma_monomial(x[11], x[1], x[10], x[12]);
        lemma_monomial(x[11], x[1], x[8], x[14]);
        lemma_monomial(x[11], x[0], x[10], x[13]);
        lemma_monomial(x[11], x[0], x[9], x[14]);
    }
    assert(x[11] * signed_adjugate(x, 14) == (x[2] * x[5] * x[11] * x[12] + -(x[2] * x[4] * x[11] * x[13]) + -(x[1] * x[6] * x[11] * x[12]) + x[1] * x[4] * x[11] * x[14] + x[0] * x[6] * x[11] * x[13] + -(x[0] * x[5] * x[11] * x[14]))) by {
        lemma_distribute_six(x[11], x[2] * x[5] * x[12], -(x[2] * x[4] * x[13]), -(x[1] * x[6] * x[12]), x[1] * x[4] * x[14], x[0] * x[6] * x[13], -(x[0] * x[5] * x[14]));
        lemma_monomial(x[11], x[2], x[5], x[12]);
        lemma_monomial(x[11], x[2], x[4], x[13]);
        lemma_monomial(x[11], x[1], x[6], x[12]);
        lemma_monomial(x[11], x[1], x[4], x[14]);
        lemma_monomial(x[11], x[0], x[6], x[13]);
        lemma_monomial(x[11], x[0], x[5], x[14]);
    }
    assert(x[11] * signed_adjugate(x, 15) == (-(x[2] * x[5] * x[8] * x[11]) + x[2] * x[4] * x[9] * x[11] + x[1] * x[6] * x[8] * x[11] + -(x[1] * x[4] * x[10] * x[11]) + -(x[0] * x[6] * x[9] * x[11]) + x[0] * x[5] * x[10] * x[11])) by {
        lemma_distribute_six(x[11], -(x[2] * x[5] * x[8]), x[2] * x[4] * x[9], x[1] * x[6] * x[8], -(x[1] * x[4] * x[10]), -(x[0] * x[6] * x[9]), x[0] * x[5] * x[10]);
        lemma_monomial(x[11], x[2], x[5], x[8]);
        lemma_monomial(x[11], x[2], x[4], x[9]);
        lemma_monomial(x[11], x[1], x[6], x[8]);
        lemma_monomial(x[11], x[1], x[4], x[10]);
        lemma_monomial(x[11], x[0], x[6], x[9]);
        lemma_monomial(x[11], x[0], x[5], x[10]);
    }
    assert(x[12] * signed_adjugate(x, 0) == (-(x[7] * x[10] * x[12] * x[13]) + x[7] * x[9] * x[12] * x[14] + x[6] * x[11] * x[12] * x[13] + -(x[6] * x[9] * x[12] * x[15]) + -(x[5] * x[11] * x[12] * x[14]) + x[5] * x[10] * x[12] * x[15])) by {
        lemma_distribute_six(x[12], -(x[7] * x[10] * x[13]), x[7] * x[9] * x[14], x[6] * x[11] * x[13], -(x[6] * x[9] * x[15]), -(x[5] * x[11] * x[14]), x[5] * x[10] * x[15]);
        lemma_monomial(x[12], x[7], x[10], x[13]);
        lemma_monomial(x[12], x[7], x[9], x[14]);
        lemma_monomial(x[12], x[6], x[11], x[13]);
        lemma_monomial(x[12], x[6], x[9], x[15]);
        lemma_monomial(x[12], x[5], x[11], x[14]);
        lemma_monomial(x[12], x[5], x[10], x[15]);
    }
    assert(x[12] * signed_adjugate(x, 1) == (x[3] * x[10] * x[12] * x[13] + -(x[3] * x[9] * x[12] * x[14]) + -(x[2] * x[11] * x[12] * x[13]) + x[2] * x[9] * x[12] * x[15] + x[1] * x[11] * x[12] * x[14] + -(x[1] * x[10] * x[12] * x[15]))) by {
        lemma_distribute_six(x[12], x[3] * x[10] * x[13], -(x[3] * x[9] * x[14]), -(x[2] * x[11] * x[13]), x[2] * x[9] * x[15], x[1] * x[11] * x[14], -(x[1] * x[10] * x[15]));
        lemma_monomial(x[12], x[3], x[10], x[13]);
        lemma_monomial(x[12], x[3], x[9], x[14]);
        lemma_monomial(x[12], x[2], x[11], x[13]);
        lemma_monomial(x[12], x[2], x[9], x[15]);
        lemma_monomial(x[12], x[1], x[11], x[14]);
        lemma_monomial(x[12], x[1], x[10], x[15]);
    }
    assert(x[12] * signed_adjugate(x, 2) == (-(x[3] * x[6] * x[12] * x[13]) + x[3] * x[5] * x[12] * x[14] + x[2] * x[7] * x[12] * x[13] + -(x[2] * x[5] * x[12] * x[15]) + -(x[1] * x[7] * x[12] * x[14]) + x[1] * x[6] * x[12] * x[15])) by {
        lemma_distribute_six(x[12], -(x[3] * x[6] * x[13]), x[3] * x[5] * x[14], x[2] * x[7] * x[13], -(x[2] * x[5] * x[15]), -(x[1] * x[7] * x[14]), x[1] * x[6] * x[15]);
        lemma_monomial(x[12], x[3], x[6], x[13]);
        lemma_monomial(x[12], x[3], x[5], x[14]);
        lemma_monomial(x[12], x[2], x[7], x[13]);
        lemma_monomial(x[12], x[2], x[5], x[15]);
        lemma_monomial(x[12], x[1], x[7], x[14]);
        lemma_monomial(x[12], x[1], x[6], x[15]);
    }
    assert(x[12] * signed_adjugate(x, 3) == (x[3] * x[6] * x[9] * x[12] + -(x[3] * x[5] * x[10] * x[12]) + -(x[2] * x[7] * x[9] * x[12]) + x[2] * x[5] * x[11] * x[12] + x[1] * x[7] * x[10] * x[12] + -(x[1] * x[6] * x[11] * x[12]))) by {
        lemma_distribute_six(x[12], x[3] * x[6] * x[9], -(x[3] * x[5] * x[10]), -(x[2] * x[7] * x[9]), x[2] * x[5] * x[11], x[1] * x[7] * x[10], -(x[1] * x[6] * x[11]));
        lemma_monomial(x[12], x[3], x[6], x[9]);
        lemma_monomial(x[12], x[3], x[5], x[10]);
        lemma_monomial(x[12], x[2], x[7], x[9]);
        lemma_monomial(x[12], x[2], x[5], x[11]);
        lemma_monomial(x[12], x[1], x[7], x[10]);
        lemma_monomial(x[12], x[1], x[6], x[11]);
    }
    assert(x[12] * signed_adjugate(x, 7) == (-(x[3] * x[6] * x[8] * x[12]) + x[3] * x[4] * x[10] * x[12] + x[2] * x[7] * x[8] * x[12] + -(x[2] * x[4] * x[11] * x[12]) + -(x[0] * x[7] * x[10] * x[12]) + x[0] * x[6] * x[11] * x[12])) by {
        lemma_distribute_six(x[12], -(x[3] * x[6] * x[8]), x[3] * x[4] * x[10], x[2] * x[7] * x[8], -(x[2] * x[4] * x[11]), -(x[0] * x[7] * x[10]), x[0] * x[6] * x[11]);
        lemma_monomial(x[12], x[3], x[6], x[8]);
        lemma_monomial(x[12], x[3], x[4], x[10]);
        lemma_monomial(x[12], x[2], x[7], x[8]);
        lemma_monomial(x[12], x[2], x[4], x[11]);
        lemma_monomial(x[12], x[0], x[7], x[10]);
        lemma_monomial(x[12], x[0], x[6], x[11]);
    }
    assert(x[12] * signed_adjugate(x, 11) == (x[3] * x[5] * x[8] * x[12] + -(x[3] * x[4] * x[9] * x[12]) + -(x[1] * x[7] * x[8] * x[12]) + x[1] * x[4] * x[11] * x[12] + x[0] * x[7] * x[9] * x[12] + -(x[0] * x[5] * x[11] * x[12]))) by {
        lemma_distribute_six(x[12], x[3] * x[5] * x[8], -(x[3] * x[4] * x[9]), -(x[1] * x[7] * x[8]), x[1] * x[4] * x[11], x[0] * x[7] * x[9], -(x[0] * x[5] * x[11]));
        lemma_monomial(x[12], x[3], x[5], x[8]);
        lemma_monomial(x[12], x[3], x[4], x[9]);
        lemma_monomial(x[12], x[1], x[7], x[8]);
        lemma_monomial(x[12], x[1], x[4], x[11]);
        lemma_monomial(x[12], x[0], x[7], x[9]);
        lemma_monomial(x[12], x[0], x[5], x[11]);
    }
    assert(x[12] * signed_adjugate(x, 15) == (-(x[2] * x[5] * x[8] * x[12]) + x[2] * x[4] * x[9] * x[12] + x[1] * x[6] * x[8] * x[12] + -(x[1] * x[4] * x[10] * x[12]) + -(x[0] * x[6] * x[9] * x[12]) + x[0] * x[5] * x[10] * x[12])) by {
        lemma_distribute_six(x[12], -(x[2] * x[5] * x[8]), x[2] * x[4] * x[9], x[1] * x[6] * x[8], -(x[1] * x[4] * x[10]), -(x[0] * x[6] * x[9]), x[0] * x[5] * x[10]);
        lemma_monomial(x[12], x[2], x[5], x[8]);
        lemma_monomial(x[12], x[2], x[4], x[9]);
        lemma_monomial(x[12], x[1], x[6], x[8]);
        lemma_monomial(x[12], x[1], x[4], x[10]);
        lemma_monomial(x[12], x[0], x[6], x[9]);
        lemma_monomial(x[12], x[0], x[5], x[10]);
    }
    assert(x[13] * signed_adjugate(x, 3) == (x[3] * x[6] * x[9] * x[13] + -(x[3] * x[5] * x[10] * x[13]) + -(x[2] * x[7] * x[9] * x[13]) + x[2] * x[5] * x[11] * x[13] + x[1] * x[7] * x[10] * x[13] + -(x[1] * x[6] * x[11] * x[13]))) by {
        lemma_distribute_six(x[13], x[3] * x[6] * x[9], -(x[3] * x[5] * x[10]), -(x[2] * x[7] * x[9]), x[2] * x[5] * x[11], x[1] * x[7] * x[10], -(x[1] * x[6] * x[11]));
        lemma_monomial(x[13], x[3], x[6], x[9]);
        lemma_monomial(x[13], x[3], x[5], x[10]);
        lemma_monomial(x[13], x[2], x[7], x[9]);
        lemma_monomial(x[13], x[2], x[5], x[11]);
        lemma_monomial(x[13], x[1], x[7], x[10]);
        lemma_monomial(x[13], x[1], x[6], x[11]);
    }
    assert(x[13] * signed_adjugate(x, 4) == (x[7] * x[10] * x[12] * x[13] + -(x[7] * x[8] * x[13] * x[14]) + -(x[6] * x[11] * x[12] * x[13]) + x[6] * x[8] * x[13] * x[15] + x[4] * x[11] * x[13] * x[14] + -(x[4] * x[10] * x[13] * x[15]))) by {
        lemma_distribute_six(x[13], x[7] * x[10] * x[12], -(x[7] * x[8] * x[14]), -(x[6] * x[11] * x[12]), x[6] * x[8] * x[15], x[4] * x[11] * x[14], -(x[4] * x[10] * x[15]));
        lemma_monomial(x[13], x[7], x[10], x[12]);
        lemma_monomial(x[13], x[7], x[8], x[14]);
        lemma_monomial(x[13], x[6], x[11], x[12]);
        lemma_monomial(x[13], x[6], x[8], x[15]);
        lemma_monomial(x[13], x[4], x[11], x[14]);
        lemma_monomial(x[13], x[4], x[10], x[15]);
    }
    assert(x[13] * signed_adjugate(x, 5) == (-(x[3] * x[10] * x[12] * x[13]) + x[3] * x[8] * x[13] * x[14] + x[2] * x[11] * x[12] * x[13] + -(x[2] * x[8] * x[13] * x[15]) + -(x[0] * x[11] * x[13] * x[14]) + x[0] * x[10] * x[13] * x[15])) by {
        lemma_distribute_six(x[13], -(x[3] * x[10] * x[12]), x[3] * x[8] * x[14], x[2] * x[11] * x[12], -(x[2] * x[8] * x[15]), -(x[0] * x[11] * x[14]), x[0] * x[10] * x[15]);
        lemma_monomial(x[13], x[3], x[10], x[12]);
        lemma_monomial(x[13], x[3], x[8], x[14]);
        lemma_monomial(x[13], x[2], x[11], x[12]);
        lemma_monomial(x[13], x[2], x[8], x[15]);
        lemma_monomial(x[13], x[0], x[11], x[14]);
        lemma_monomial(x[13], x[0], x[10], x[15]);
    }
    assert(x[13] * signed_adjugate(x, 6) == (x[3] * x[6] * x[12] * x[13] + -(x[3] * x[4] * x[13] * x[14]) + -(x[2] * x[7] * x[12] * x[13]) + x[2] * x[4] * x[13] * x[15] + x[0] * x[7] * x[13] * x[14] + -(x[0] * x[6] * x[13] * x[15]))) by {
        lemma_distribute_six(x[13], x[3] * x[6] * x[12], -(x[3] * x[4] * x[14]), -(x[2] * x[7] * x[12]), x[2] * x[4] * x[15], x[0] * x[7] * x[14], -(x[0] * x[6] * x[15]));
        lemma_monomial(x[13], x[3], x[6], x[12]);
        lemma_monomial(x[13], x[3], x[4], x[14]);
        lemma_monomial(x[13], x[2], x[7], x[12]);
        lemma_monomial(x[13], x[2], x[4], x[15]);
        lemma_monomial(x[13], x[0], x[7], x[14]);
        lemma_monomial(x[13], x[0], x[6], x[15]);
    }
    assert(x[13] * signed_adjugate(x, 7) == (-(x[3] * x[6] * x[8] * x[13]) + x[3] * x[4] * x[10] * x[13] + x[2] * x[7] * x[8] * x[13] + -(x[2] * x[4] * x[11] * x[13]) + -(x[0] * x[7] * x[10] * x[13]) + x[0] * x[6] * x[11] * x[13])) by {
        lemma_distribute_six(x[13], -(x[3] * x[6] * x[8]), x[3] * x[4] * x[10], x[2] * x[7] * x[8], -(x[2] * x[4] * x[11]), -(x[0] * x[7] * x[10]), x[0] * x[6] * x[11]);
        lemma_monomial(x[13], x[3], x[6], x[8]);
        lemma_monomial(x[13], x[3], x[4], x[10]);
        lemma_monomial(x[13], x[2], x[7], x[8]);
        lemma_monomial(x[13], x[2], x[4], x[11]);
        lemma_monomial(x[13], x[0], x[7], x[10]);
        lemma_monomial(x[13], x[0], x[6], x[11]);
    }
    assert(x[13] * signed_adjugate(x, 11) == (x[3] * x[5] * x[8] * x[13] + -(x[3] * x[4] * x[9] * x[13]) + -(x[1] * x[7] * x[8] * x[13]) + x[1] * x[4] * x[11] * x[13] + x[0] * x[7] * x[9] * x[13] + -(x[0] * x[5] * x[11] * x[13]))) by {
        lemma_distribute_six(x[13], x[3] * x[5] * x[8], -(x[3] * x[4] * x[9]), -(x[1] * x[7] * x[8]), x[1] * x[4] * x[11], x[0] * x[7] * x[9], -(x[0] * x[5] * x[11]));
        lemma_monomial(x[13], x[3], x[5], x[8]);
        lemma_monomial(x[13], x[3], x[4], x[9]);
        lemma_monomial(x[13], x[1], x[7], x[8]);
        lemma_monomial(x[13], x[1], x[4], x[11]);
        lemma_monomial(x[13], x[0], x[7], x[9]);
        lemma_monomial(x[13], x[0], x[5], x[11]);
    }
    assert(x[13] * signed_adjugate(x, 15) == (-(x[2] * x[5] * x[8] * x[13]) + x[2] * x[4] * x[9] * x[13] + x[1] * x[6] * x[8] * x[13] + -(x[1] * x[4] * x[10] * x[13]) + -(x[0] * x[6] * x[9] * x[13]) + x[0] * x[5] * x[10] * x[13])) by {
        lemma_distribute_six(x[13], -(x[2] * x[5] * x[8]), x[2] * x[4] * x[9], x[1] * x[6] * x[8], -(x[1] * x[4] * x[10]), -(x[0] * x[6] * x[9]), x[0] * x[5] * x[10]);
        lemma_monomial(x[13], x[2], x[5], x[8]);
        lemma_monomial(x[13], x[2], x[4], x[9]);
        lemma_monomial(x[13], x[1], x[6], x[8]);
        lemma_monomial(x[13], x[1], x[4], x[10]);
        lemma_monomial(x[13], x[0], x[6], x[9]);
        lemma_monomial(x[13], x[0], x[5], x[10]);
    }
    assert(x[14] * signed_adjugate(x, 3) == (x[3] * x[6] * x[9] * x[14] + -(x[3] * x[5] * x[10] * x[14]) + -(x[2] * x[7] * x[9] * x[14]) + x[2] * x[5] * x[11] * x[14] + x[1] * x[7] * x[10] * x[14] + -(x[1] * x[6] * x[11] * x[14]))) by {
        lemma_distribute_six(x[14], x[3] * x[6] * x[9], -(x[3] * x[5] * x[10]), -(x[2] * x[7] * x[9]), x[2] * x[5] * x[11], x[1] * x[7] * x[10], -(x[1] * x[6] * x[11]));
        lemma_monomial(x[14], x[3], x[6], x[9]);
        lemma_monomial(x[14], x[3], x[5], x[10]);
        lemma_monomial(x[14], x[2], x[7], x[9]);
        lemma_monomial(x[14], x[2], x[5], x[11]);
        lemma_monomial(x[14], x[1], x[7], x[10]);
        lemma_monomial(x[14], x[1], x[6], x[11]);
    }
    assert(x[14] * signed_adjugate(x, 7) == (-(x[3] * x[6] * x[8] * x[14]) + x[3] * x[4] * x[10] * x[14] + x[2] * x[7] * x[8] * x[14] + -(x[2] * x[4] * x[11] * x[14]) + -(x[0] * x[7] * x[10] * x[14]) + x[0] * x[6] * x[11] * x[14])) by {
        lemma_distribute_six(x[14], -(x[3] * x[6] * x[8]), x[3] * x[4] * x[10], x[2] * x[7] * x[8], -(x[2] * x[4] * x[11]), -(x[0] * x[7] * x[10]), x[0] * x[6] * x[11]);
        lemma_monomial(x[14], x[3], x[6], x[8]);
        lemma_monomial(x[14], x[3], x[4], x[10]);
        lemma_monomial(x[14], x[2], x[7], x[8]);
        lemma_monomial(x[14], x[2], x[4], x[11]);
        lemma_monomial(x[14], x[0], x[7], x[10]);
        lemma_monomial(x[14], x[0], x[6], x[11]);
    }
    assert(x[14] * signed_adjugate(x, 8) == (-(x[7] * x[9] * x[12] * x[14]) + x[7] * x[8] * x[13] * x[14] + x[5] * x[11] * x[12] * x[14] + -(x[5] * x[8] * x[14] * x[15]) + -(x[4] * x[11] * x[13] * x[14]) + x[4] * x[9] * x[14] * x[15])) by {
        lemma_distribute_six(x[14], -(x[7] * x[9] * x[12]), x[7] * x[8] * x[13], x[5] * x[11] * x[12], -(x[5] * x[8] * x[15]), -(x[4] * x[11] * x[13]), x[4] * x[9] * x[15]);
        lemma_monomial(x[14], x[7], x[9], x[12]);
        lemma_monomial(x[14], x[7], x[8], x[13]);
        lemma_monomial(x[14], x[5], x[11], x[12]);
        lemma_monomial(x[14], x[5], x[8], x[15]);
        lemma_monomial(x[14], x[4], x[11], x[13]);
        lemma_monomial(x[14], x[4], x[9], x[15]);
    }
    assert(x[14] * signed_adjugate(x, 9) == (x[3] * x[9] * x[12] * x[14] + -(x[3] * x[8] * x[13] * x[14]) + -(x[1] * x[11] * x[12] * x[14]) + x[1] * x[8] * x[14] * x[15] + x[0] * x[11] * x[13] * x[14] + -(x[0] * x[9] * x[14] * x[15]))) by {
        lemma_distribute_six(x[14], x[3] * x[9] * x[12], -(x[3] * x[8] * x[13]), -(x[1] * x[11] * x[12]), x[1] * x[8] * x[15], x[0] * x[11] * x[13], -(x[0] * x[9] * x[15]));
        lemma_monomial(x[14], x[3], x[9], x[12]);
        lemma_monomial(x[14], x[3], x[8], x[13]);
        lemma_monomial(x[14], x[1], x[11], x[12]);
        lemma_monomial(x[14], x[1], x[8], x[15]);
        lemma_monomial(x[14], x[0], x[11], x[13]);
        lemma_monomial(x[14], x[0], x[9], x[15]);
    }
    assert(x[14] * signed_adjugate(x, 10) == (-(x[3] * x[5] * x[12] * x[14]) + x[3] * x[4] * x[13] * x[14] + x[1] * x[7] * x[12] * x[14] + -(x[1] * x[4] * x[14] * x[15]) + -(x[0] * x[7] * x[13] * x[14]) + x[0] * x[5] * x[14] * x[15])) by {
        lemma_distribute_six(x[14], -(x[3] * x[5] * x[12]), x[3] * x[4] * x[13], x[1] * x[7] * x[12], -(x[1] * x[4] * x[15]), -(x[0] * x[7] * x[13]), x[0] * x[5] * x[15]);
        lemma_monomial(x[14], x[3], x[5], x[12]);
        lemma_monomial(x[14], x[3], x[4], x[13]);
        lemma_monomial(x[14], x[1], x[7], x[12]);
        lemma_monomial(x[14], x[1], x[4], x[15]);
        lemma_monomial(x[14], x[0], x[7], x[13]);
        lemma_monomial(x[14], x[0], x[5], x[15]);
    }
    assert(x[14] * signed_adjugate(x, 11) == (x[3] * x[5] * x[8] * x[14] + -(x[3] * x[4] * x[9] * x[14]) + -(x[1] * x[7] * x[8] * x[14]) + x[1] * x[4] * x[11] * x[14] + x[0] * x[7] * x[9] * x[14] + -(x[0] * x[5] * x[11] * x[14]))) by {
        lemma_distribute_six(x[14], x[3] * x[5] * x[8], -(x[3] * x[4] * x[9]), -(x[1] * x[7] * x[8]), x[1] * x[4] * x[11], x[0] * x[7] * x[9], -(x[0] * x[5] * x[11]));
        lemma_monomial(x[14], x[3], x[5], x[8]);
        lemma_monomial(x[14], x[3], x[4], x[9]);
        lemma_monomial(x[14], x[1], x[7], x[8]);
        lemma_monomial(x[14], x[1], x[4], x[11]);
        lemma_monomial(x[14], x[0], x[7], x[9]);
        lemma_monomial(x[14], x[0], x[5], x[11]);
    }
    assert(x[14] * signed_adjugate(x, 15) == (-(x[2] * x[5] * x[8] * x[14]) + x[2] * x[4] * x[9] * x[14] + x[1] * x[6] * x[8] * x[14] + -(x[1] * x[4] * x[10] * x[14]) + -(x[0] * x[6] * x[9] * x[14]) + x[0] * x[5] * x[10] * x[14])) by {
        lemma_distribute_six(x[14], -(x[2] * x[5] * x[8]), x[2] * x[4] * x[9], x[1] * x[6] * x[8], -(x[1] * x[4] * x[10]), -(x[0] * x[6] * x[9]), x[0] * x[5] * x[10]);
        lemma_monomial(x[14], x[2], x[5], x[8]);
        lemma_monomial(x[14], x[2], x[4], x[9]);
        lemma_monomial(x[14], x[1], x[6], x[8]);
        lemma_monomial(x[14], x[1], x[4], x[10]);
        lemma_monomial(x[14], x[0], x[6], x[9]);
        lemma_monomial(x[14], x[0], x[5], x[10]);
    }
    assert(x[15] * signed_adjugate(x, 3) == (x[3] * x[6] * x[9] * x[15] + -(x[3] * x[5] * x[10] * x[15]) + -(x[2] * x[7] * x[9] * x[15]) + x[2] * x[5] * x[11] * x[15] + x[1] * x[7] * x[10] * x[15] + -(x[1] * x[6] * x[11] * x[15]))) by {
        lemma_distribute_six(x[15], x[3] * x[6] * x[9], -(x[3] * x[5] * x[10]), -(x[2] * x[7] * x[9]), x[2] * x[5] * x[11], x[1] * x[7] * x[10], -(x[1] * x[6] * x[11]));
        lemma_monomial(x[15], x[3], x[6], x[9]);
        lemma_monomial(x[15], x[3], x[5], x[10]);
        lemma_monomial(x[15], x[2], x[7], x[9]);
        lemma_monomial(x[15], x[2], x[5], x[11]);
        lemma_monomial(x[15], x[1], x[7], x[10]);
        lemma_monomial(x[15], x[1], x[6], x[11]);
    }
    assert(x[15] * signed_adjugate(x, 7) == (-(x[3] * x[6] * x[8] * x[15]) + x[3] * x[4] * x[10] * x[15] + x[2] * x[7] * x[8] * x[15] + -(x[2] * x[4] * x[11] * x[15]) + -(x[0] * x[7] * x[10] * x[15]) + x[0] * x[6] * x[11] * x[15])) by {
        lemma_distribute_six(x[15], -(x[3] * x[6] * x[8]), x[3] * x[4] * x[10], x[2] * x[7] * x[8], -(x[2] * x[4] * x[11]), -(x[0] * x[7] * x[10]), x[0] * x[6] * x[11]);
        lemma_monomial(x[15], x[3], x[6], x[8]);
        lemma_monomial(x[15], x[3], x[4], x[10]);
        lemma_monomial(x[15], x[2], x[7], x[8]);
        lemma_monomial(x[15], x[2], x[4], x[11]);
        lemma_monomial(x[15], x[0], x[7], x[10]);
        lemma_monomial(x[15], x[0], x[6], x[11]);
    }
    assert(x[15] * signed_adjugate(x, 11) == (x[3] * x[5] * x[8] * x[15] + -(x[3] * x[4] * x[9] * x[15]) + -(x[1] * x[7] * x[8] * x[15]) + x[1] * x[4] * x[11] * x[15] + x[0] * x[7] * x[9] * x[15] + -(x[0] * x[5] * x[11] * x[15]))) by {
        lemma_distribute_six(x[15], x[3] * x[5] * x[8], -(x[3] * x[4] * x[9]), -(x[1] * x[7] * x[8]), x[1] * x[4] * x[11], x[0] * x[7] * x[9], -(x[0] * x[5] * x[11]));
        lemma_monomial(x[15], x[3], x[5], x[8]);
        lemma_monomial(x[15], x[3], x[4], x[9]);
        lemma_monomial(x[15], x[1], x[7], x[8]);
        lemma_monomial(x[15], x[1], x[4], x[11]);
        lemma_monomial(x[15], x[0], x[7], x[9]);
        lemma_monomial(x[15], x[0], x[5], x[11]);
    }
    assert(x[15] * signed_adjugate(x, 12) == (x[6] * x[9] * x[12] * x[15] + -(x[6] * x[8] * x[13] * x[15]) + -(x[5] * x[10] * x[12] * x[15]) + x[5] * x[8] * x[14] * x[15] + x[4] * x[10] * x[13] * x[15] + -(x[4] * x[9] * x[14] * x[15]))) by {
        lemma_distribute_six(x[15], x[6] * x[9] * x[12], -(x[6] * x[8] * x[13]), -(x[5] * x[10] * x[12]), x[5] * x[8] * x[14], x[4] * x[10] * x[13], -(x[4] * x[9] * x[14]));
        lemma_monomial(x[15], x[6], x[9], x[12]);
        lemma_monomial(x[15], x[6], x[8], x[13]);
        lemma_monomial(x[15], x[5], x[10], x[12]);
        lemma_monomial(x[15], x[5], x[8], x[14]);
        lemma_monomial(x[15], x[4], x[10], x[13]);
        lemma_monomial(x[15], x[4], x[9], x[14]);
    }
    assert(x[15] * signed_adjugate(x, 13) == (-(x[2] * x[9] * x[12] * x[15]) + x[2] * x[8] * x[13] * x[15] + x[1] * x[10] * x[12] * x[15] + -(x[1] * x[8] * x[14] * x[15]) + -(x[0] * x[10] * x[13] * x[15]) + x[0] * x[9] * x[14] * x[15])) by {
        lemma_distribute_six(x[15], -(x[2] * x[9] * x[12]), x[2] * x[8] * x[13], x[1] * x[10] * x[12], -(x[1] * x[8] * x[14]), -(x[0] * x[10] * x[13]), x[0] * x[9] * x[14]);
        lemma_monomial(x[15], x[2], x[9], x[12]);
        lemma_monomial(x[15], x[2], x[8], x[13]);
        lemma_monomial(x[15], x[1], x[10], x[12]);
        lemma_monomial(x[15], x[1], x[8], x[14]);
        lemma_monomial(x[15], x[0], x[10], x[13]);
        lemma_monomial(x[15], x[0], x[9], x[14]);
    }
    assert(x[15] * signed_adjugate(x, 14) == (x[2] * x[5] * x[12] * x[15] + -(x[2] * x[4] * x[13] * x[15]) + -(x[1] * x[6] * x[12] * x[15]) + x[1] * x[4] * x[14] * x[15] + x[0] * x[6] * x[13] * x[15] + -(x[0] * x[5] * x[14] * x[15]))) by {
        lemma_distribute_six(x[15], x[2] * x[5] * x[12], -(x[2] * x[4] * x[13]), -(x[1] * x[6] * x[12]), x[1] * x[4] * x[14], x[0] * x[6] * x[13], -(x[0] * x[5] * x[14]));
        lemma_monomial(x[15], x[2], x[5], x[12]);
        lemma_monomial(x[15], x[2], x[4], x[13]);
        lemma_monomial(x[15], x[1], x[6], x[12]);
        lemma_monomial(x[15], x[1], x[4], x[14]);
        lemma_monomial(x[15], x[0], x[6], x[13]);
        lemma_monomial(x[15], x[0], x[5], x[14]);
    }
    assert(x[15] * signed_adjugate(x, 15) == (-(x[2] * x[5] * x[8] * x[15]) + x[2] * x[4] * x[9] * x[15] + x[1] * x[6] * x[8] * x[15] + -(x[1] * x[4] * x[10] * x[15]) + -(x[0] * x[6] * x[9] * x[15]) + x[0] * x[5] * x[10] * x[15])) by {
        lemma_distribute_six(x[15], -(x[2] * x[5] * x[8]), x[2] * x[4] * x[9], x[1] * x[6] * x[8], -(x[1] * x[4] * x[10]), -(x[0] * x[6] * x[9]), x[0] * x[5] * x[10]);
        lemma_monomial(x[15], x[2], x[5], x[8]);
        lemma_monomial(x[15], x[2], x[4], x[9]);
        lemma_monomial(x[15], x[1], x[6], x[8]);
        lemma_monomial(x[15], x[1], x[4], x[10]);
        lemma_monomial(x[15], x[0], x[6], x[9]);
        lemma_monomial(x[15], x[0], x[5], x[10]);
    }
    assert(x[0] * int_adjugate(x, 0) == (-(x[0] * x[7] * x[10] * x[13]) + x[0] * x[7] * x[9] * x[14] + x[0] * x[6] * x[11] * x[13] + -(x[0] * x[6] * x[9] * x[15]) + -(x[0] * x[5] * x[11] * x[14]) + x[0] * x[5] * x[10] * x[15])) by {
        lemma_distribute_six(x[0], -(x[7] * x[10] * x[13]), x[7] * x[9] * x[14], x[6] * x[11] * x[13], -(x[6] * x[9] * x[15]), -(x[5] * x[11] * x[14]), x[5] * x[10] * x[15]);
        lemma_monomial(x[0], x[7], x[10], x[13]);
        lemma_monomial(x[0], x[7], x[9], x[14]);
        lemma_monomial(x[0], x[6], x[11], x[13]);
        lemma_monomial(x[0], x[6], x[9], x[15]);
        lemma_monomial(x[0], x[5], x[11], x[14]);
        lemma_monomial(x[0], x[5], x[10], x[15]);
    }
    assert(x[1] * int_adjugate(x, 4) == (-(x[1] * x[7] * x[10] * x[12]) + x[1] * x[7] * x[8] * x[14] + x[1] * x[6] * x[11] * x[12] + -(x[1] * x[6] * x[8] * x[15]) + -(x[1] * x[4] * x[11] * x[14]) + x[1] * x[4] * x[10] * x[15])) by {
        lemma_distribute_six(x[1], -(x[7] * x[10] * x[12]), x[7] * x[8] * x[14], x[6] * x[11] * x[12], -(x[6] * x[8] * x[15]), -(x[4] * x[11] * x[14]), x[4] * x[10] * x[15]);
        lemma_monomial(x[1], x[7], x[10], x[12]);
        lemma_monomial(x[1], x[7], x[8], x[14]);
        lemma_monomial(x[1], x[6], x[11], x[12]);
        lemma_monomial(x[1], x[6], x[8], x[15]);
        lemma_monomial(x[1], x[4], x[11], x[14]);
        lemma_monomial(x[1], x[4], x[10], x[15]);
    }
    assert(x[2] * int_adjugate(x, 8) == (-(x[2] * x[7] * x[9] * x[12]) + x[2] * x[7] * x[8] * x[13] + x[2] * x[5] * x[11] * x[12] + -(x[2] * x[5] * x[8] * x[15]) + -(x[2] * x[4] * x[11] * x[13]) + x[2] * x[4] * x[9] * x[15])) by {
        lemma_distribute_six(x[2], -(x[7] * x[9] * x[12]), x[7] * x[8] * x[13], x[5] * x[11] * x[12], -(x[5] * x[8] * x[15]), -(x[4] * x[11] * x[13]), x[4] * x[9] * x[15]);
        lemma_monomial(x[2], x[7], x[9], x[12]);
        lemma_monomial(x[2], x[7], x[8], x[13]);
        lemma_monomial(x[2], x[5], x[11], x[12]);
        lemma_monomial(x[2], x[5], x[8], x[15]);
        lemma_monomial(x[2], x[4], x[11], x[13]);
        lemma_monomial(x[2], x[4], x[9], x[15]);
    }
    assert(x[3] * int_adjugate(x, 12) == (-(x[3] * x[6] * x[9] * x[12]) + x[3] * x[6] * x[8] * x[13] + x[3] * x[5] * x[10] * x[12] + -(x[3] * x[5] * x[8] * x[14]) + -(x[3] * x[4] * x[10] * x[13]) + x[3] * x[4] * x[9] * x[14])) by {
        lemma_distribute_six(x[3], -(x[6] * x[9] * x[12]), x[6] * x[8] * x[13], x[5] * x[10] * x[12], -(x[5] * x[8] * x[14]), -(x[4] * x[10] * x[13]), x[4] * x[9] * x[14]);
        lemma_monomial(x[3], x[6], x[9], x[12]);
        lemma_monomial(x[3], x[6], x[8], x[13]);
        lemma_monomial(x[3], x[5], x[10], x[12]);
        lemma_monomial(x[3], x[5], x[8], x[14]);
        lemma_monomial(x[3], x[4], x[10], x[13]);
        lemma_monomial(x[3], x[4], x[9], x[14]);
    }
    assert(int_determinant(x) == (x[3] * x[6] * x[9] * x[12] + -(x[3] * x[6] * x[8] * x[13]) + -(x[3] * x[5] * x[10] * x[12]) + x[3] * x[5] * x[8] * x[14] + x[3] * x[4] * x[10] * x[13] + -(x[3] * x[4] * x[9] * x[14]) + -(x[2] * x[7] * x[9] * x[12]) + x[2] * x[7] * x[8] * x[13] + x[2] * x[5] * x[11] * x[12] + -(x[2] * x[5] * x[8] * x[15]) + -(x[2] * x[4] * x[11] * x[13]) + x[2] * x[4] * x[9] * x[15] + x[1] * x[7] * x[10] * x[12] + -(x[1] * x[7] * x[8] * x[14]) + -(x[1] * x[6] * x[11] * x[12]) + x[1] * x[6] * x[8] * x[15] + x[1] * x[4] * x[11] * x[14] + -(x[1] * x[4] * x[10] * x[15]) + -(x[0] * x[7] * x[10] * x[13]) + x[0] * x[7] * x[9] * x[14] + x[0] * x[6] * x[11] * x[13] + -(x[0] * x[6] * x[9] * x[15]) + -(x[0] * x[5] * x[11] * x[14]) + x[0] * x[5] * x[10] * x[15]));
    assert forall|r: int, c: int|
        0 <= r < 4 && 0 <= c < 4 implies #[trigger] row_times_signed_adjugate(x, r, c) == (if r == c {
            int_determinant(x)
        } else {
            0
        }) by {
        if r == 0 && c == 0 {
            assert(row_times_signed_adjugate(x, 0, 0) == x[0] * signed_adjugate(x, 0) + x[1] * signed_adjugate(x, 4) + x[2] * signed_adjugate(x, 8) + x[3] * signed_adjugate(x, 12));
        }
        if r == 0 && c == 1 {
            assert(row_times_signed_adjugate(x, 0, 1) == x[0] * signed_adjugate(x, 1) + x[1] * signed_adjugate(x, 5) + x[2] * signed_adjugate(x, 9) + x[3] * signed_adjugate(x, 13));
        }
        if r == 0 && c == 2 {
            assert(row_times_signed_adjugate(x, 0, 2) == x[0] * signed_adjugate(x, 2) + x[1] * signed_adjugate(x, 6) + x[2] * signed_adjugate(x, 10) + x[3] * signed_adjugate(x, 14));
        }
        if r == 0 && c == 3 {
            assert(row_times_signed_adjugate(x, 0, 3) == x[0] * signed_adjugate(x, 3) + x[1] * signed_adjugate(x, 7) + x[2] * signed_adjugate(x, 11) + x[3] * signed_adjugate(x, 15));
        }
        if r == 1 && c == 0 {
            assert(row_times_signed_adjugate(x, 1, 0) == x[4] * signed_adjugate(x, 0) + x[5] * signed_adjugate(x, 4) + x[6] * signed_adjugate(x, 8) + x[7] * signed_adjugate(x, 12));
        }
        if r == 1 && c == 1 {
            assert(row_times_signed_adjugate(x, 1, 1) == x[4] * signed_adjugate(x, 1) + x[5] * signed_adjugate(x, 5) + x[6] * signed_adjugate(x, 9) + x[7] * signed_adjugate(x, 13));
        }
        if r == 1 && c == 2 {
            assert(row_times_signed_adjugate(x, 1, 2) == x[4] * signed_adjugate(x, 2) + x[5] * signed_adjugate(x, 6) + x[6] * signed_adjugate(x, 10) + x[7] * signed_adjugate(x, 14));
        }
        if r == 1 && c == 3 {
            assert(row_times_signed_adjugate(x, 1, 3) == x[4] * signed_adjugate(x, 3) + x[5] * signed_adjugate(x, 7) + x[6] * signed_adjugate(x, 11) + x[7] * signed_adjugate(x, 15));
        }
        if r == 2 && c == 0 {
            assert(row_times_signed_adjugate(x, 2, 0) == x[8] * signed_adjugate(x, 0) + x[9] * signed_adjugate(x, 4) + x[10] * signed_adjugate(x, 8) + x[11] * signed_adjugate(x, 12));
        }
        if r == 2 && c == 1 {
            assert(row_times_signed_adjugate(x, 2, 1) == x[8] * signed_adjugate(x, 1) + x[9] * signed_adjugate(x, 5) + x[10] * signed_adjugate(x, 9) + x[11] * signed_adjugate(x, 13));
        }
        if r == 2 && c == 2 {
            assert(row_times_signed_adjugate(x, 2, 2) == x[8] * signed_adjugate(x, 2) + x[9] * signed_adjugate(x, 6) + x[10] * signed_adjugate(x, 10) + x[11] * signed_adjugate(x, 14));
        }
        if r == 2 && c == 3 {
            assert(row_times_signed_adjugate(x, 2, 3) == x[8] * signed_adjugate(x, 3) + x[9] * signed_adjugate(x, 7) + x[10] * signed_adjugate(x, 11) + x[11] * signed_adjugate(x, 15));
        }
        if r == 3 && c == 0 {
            assert(row_times_signed_adjugate(x, 3, 0) == x[12] * signed_adjugate(x, 0) + x[13] * signed_adjugate(x, 4) + x[14] * signed_adjugate(x, 8) + x[15] * signed_adjugate(x, 12));
        }
        if r == 3 && c == 1 {
            assert(row_times_signed_adjugate(x, 3, 1) == x[12] * signed_adjugate(x, 1) + x[13] * signed_adjugate(x, 5) + x[14] * signed_adjugate(x, 9) + x[15] * signed_adjugate(x, 13));
        }
        if r == 3 && c == 2 {
            assert(row_times_signed_adjugate(x, 3, 2) == x[12] * signed_adjugate(x, 2) + x[13] * signed_adjugate(x, 6) + x[14] * signed_adjugate(x, 10) + x[15] * signed_adjugate(x, 14));
        }
        if r == 3 && c == 3 {
            assert(row_times_signed_adjugate(x, 3, 3) == x[12] * signed_adjugate(x, 3) + x[13] * signed_adjugate(x, 7) + x[14] * signed_adjugate(x, 11) + x[15] * signed_adjugate(x, 15));
        }
    }
    assert forall|r: int, c: int|
        0 <= r < 4 && 0 <= c < 4 implies #[trigger] signed_adjugate_times_column(x, r, c) == (if r == c {
            int_determinant(x)
        } else {
            0
        }) by {
        if r == 0 && c == 0 {
            assert(signed_adjugate_times_column(x, 0, 0) == x[0] * signed_adjugate(x, 0) + x[4] * signed_adjugate(x, 1) + x[8] * signed_adjugate(x, 2) + x[12] * signed_adjugate(x, 3));
        }
        if r == 0 && c == 1 {
            assert(signed_adjugate_times_column(x, 0, 1) == x[1] * signed_adjugate(x, 0) + x[5] * signed_adjugate(x, 1) + x[9] * signed_adjugate(x, 2) + x[13] * signed_adjugate(x, 3));
        }
        if r == 0 && c == 2 {
            assert(signed_adjugate_times_column(x, 0, 2) == x[2] * signed_adjugate(x, 0) + x[6] * signed_adjugate(x, 1) + x[10] * signed_adjugate(x, 2) + x[14] * signed_adjugate(x, 3));
        }
        if r == 0 && c == 3 {
            assert(signed_adjugate_times_column(x, 0, 3) == x[3] * signed_adjugate(x, 0) + x[7] * signed_adjugate(x, 1) + x[11] * signed_adjugate(x, 2) + x[15] * signed_adjugate(x, 3));
        }
        if r == 1 && c == 0 {
            assert(signed_adjugate_times_column(x, 1, 0) == x[0] * signed_adjugate(x, 4) + x[4] * signed_adjugate(x, 5) + x[8] * signed_adjugate(x, 6) + x[12] * signed_adjugate(x, 7));
        }
        if r == 1 && c == 1 {
            assert(signed_adjugate_times_column(x, 1, 1) == x[1] * signed_adjugate(x, 4) + x[5] * signed_adjugate(x, 5) + x[9] * signed_adjugate(x, 6) + x[13] * signed_adjugate(x, 7));
        }
        if r == 1 && c == 2 {
            assert(signed_adjugate_times_column(x, 1, 2) == x[2] * signed_adjugate(x, 4) + x[6] * signed_adjugate(x, 5) + x[10] * signed_adjugate(x, 6) + x[14] * signed_adjugate(x, 7));
        }
        if r == 1 && c == 3 {
            assert(signed_adjugate_times_column(x, 1, 3) == x[3] * signed_adjugate(x, 4) + x[7] * signed_adjugate(x, 5) + x[11] * signed_adjugate(x, 6) + x[15] * signed_adjugate(x, 7));
        }
        if r == 2 && c == 0 {
            assert(signed_adjugate_times_column(x, 2, 0) == x[0] * signed_adjugate(x, 8) + x[4] * signed_adjugate(x, 9) + x[8] * signed_adjugate(x, 10) + x[12] * signed_adjugate(x, 11));
        }
        if r == 2 && c == 1 {
            assert(signed_adjugate_times_column(x, 2, 1) == x[1] * signed_adjugate(x, 8) + x[5] * signed_adjugate(x, 9) + x[9] * signed_adjugate(x, 10) + x[13] * signed_adjugate(x, 11));
        }
        if r == 2 && c == 2 {
            assert(signed_adjugate_times_column(x, 2, 2) == x[2] * signed_adjugate(x, 8) + x[6] * signed_adjugate(x, 9) + x[10] * signed_adjugate(x, 10) + x[14] * signed_adjugate(x, 11));
        }
        if r == 2 && c == 3 {
            assert(signed_adjugate_times_column(x, 2, 3) == x[3] * signed_adjugate(x, 8) + x[7] * signed_adjugate(x, 9) + x[11] * signed_adjugate(x, 10) + x[15] * signed_adjugate(x, 11));
        }
        if r == 3 && c == 0 {
            assert(signed_adjugate_times_column(x, 3, 0) == x[0] * signed_adjugate(x, 12) + x[4] * signed_adjugate(x, 13) + x[8] * signed_adjugate(x, 14) + x[12] * signed_adjugate(x, 15));
        }
        if r == 3 && c == 1 {
            assert(signed_adjugate_times_column(x, 3, 1) == x[1] * signed_adjugate(x, 12) + x[5] * signed_adjugate(x, 13) + x[9] * signed_adjugate(x, 14) + x[13] * signed_adjugate(x, 15));
        }
        if r == 3 && c == 2 {
            assert(signed_adjugate_times_column(x, 3, 2) == x[2] * signed_adjugate(x, 12) + x[6] * signed_adjugate(x, 13) + x[10] * signed_adjugate(x, 14) + x[14] * signed_adjugate(x, 15));
        }
        if r == 3 && c == 3 {
            assert(signed_adjugate_times_column(x, 3, 3) == x[3] * signed_adjugate(x, 12) + x[7] * signed_adjugate(x, 13) + x[11] * signed_adjugate(x, 14) + x[15] * signed_adjugate(x, 15));
        }
    }
}

/// The product of two row-major 4x4 integer matrices, over the integers.
pub open spec fn int_product(a: Seq<int>, b: Seq<int>) -> Seq<int> {
    Seq::new(
        16,
        |k: int|
            a[4 * (k / 4)] * b[k % 4] + a[4 * (k / 4) + 1] * b[4 + k % 4] + a[4 * (k / 4) + 2] * b[8 + k % 4]
                + a[4 * (k / 4) + 3] * b[12 + k % 4],
    )
}

/// The 4x4 identity matrix over the integers.
pub open spec fn int_identity() -> Seq<int> {
    Seq::new(16, |k: int| if k / 4 == k % 4 { 1 } else { 0 })
}

/// The entries of `m` as integers.
pub open spec fn as_ints(m: Seq<i32>) -> Seq<int> {
    m.map_values(|v: i32| v as int)
}

proof fn lemma_scale_term(a: int, b: int, s: int)
    by (nonlinear_arith)
    ensures
        a * (s * b) == s * (a * b),
        (s * b) * a == s * (a * b),
{
}

proof fn lemma_distribute_four(s: int, t0: int, t1: int, t2: int, t3: int)
    by (nonlinear_arith)
    ensures
        s * (t0 + t1 + t2 + t3) == s * t0 + s * t1 + s * t2 + s * t3,
{
}

proof fn lemma_scaled_sums(a0: int, a1: int, a2: int, a3: int, b0: int, b1: int, b2: int, b3: int, s: int)
    ensures
        a0 * (s * b0) + a1 * (s * b1) + a2 * (s * b2) + a3 * (s * b3) == s * (a0 * b0 + a1 * b1 + a2 * b2 + a3 * b3),
        (s * b0) * a0 + (s * b1) * a1 + (s * b2) * a2 + (s * b3) * a3 == s * (a0 * b0 + a1 * b1 + a2 * b2 + a3 * b3),
{
    lemma_scale_term(a0, b0, s);
    lemma_scale_term(a1, b1, s);
    lemma_scale_term(a2, b2, s);
    lemma_scale_term(a3, b3, s);
    lemma_distribute_four(s, a0 * b0, a1 * b1, a2 * b2, a3 * b3);
}

/// The integer entries of the inverse: one over the determinant times the signed adjugate,
/// where no operation overflows and the determinant is 1 or -1.
proof fn lemma_inverse_entries_as_ints(m: Seq<i32>)
    requires
        m.len() == 16,
        inverse_req(m),
        determinant(m) == 1i32 || determinant(m) == -1i32,
    ensures
        determinant(m) as int == int_determinant(as_ints(m)),
        as_ints(inverse_entries(m)).len() == 16,
        forall|k: int| 0 <= k < 16 ==> #[trigger] as_ints(inverse_entries(m))[k] == (determinant(m) as int) * signed_adjugate(as_ints(m), k),
{
    let x = as_ints(m);
    assert(inverse_minors_req(m));
    assert forall|i: int| 0 <= i < 18 implies #[trigger] inverse_minors(m)[i] as int == int_minors(x)[i] by {
        assert(m[10] as int == x[10]);
    }
    assert forall|k: int| 0 <= k < 16 implies #[trigger] adjugate_term(m, k) as int == int_adjugate(x, k) by {
        assert(adjugate_term_req(m, k));
        let (r, ca, ma, cb, mb, cc, mc) = adjugate_plan(k);
        assert(inverse_minors(m)[ma] as int == int_minors(x)[ma]);
        assert(inverse_minors(m)[mb] as int == int_minors(x)[mb]);
        assert(inverse_minors(m)[mc] as int == int_minors(x)[mc]);
    }
    assert(determinant_req(m));
    assert(adjugate_term(m, 0) as int == int_adjugate(x, 0));
    assert(adjugate_term(m, 4) as int == int_adjugate(x, 4));
    assert(adjugate_term(m, 8) as int == int_adjugate(x, 8));
    assert(adjugate_term(m, 12) as int == int_adjugate(x, 12));
    let det = determinant(m);
    assert(det as int == int_determinant(x));
    let inv = <i32 as One>::spec_one().div_spec(det);
    assert(<i32 as One>::spec_one() == 1i32);
    assert(inv == det);
    assert forall|k: int| 0 <= k < 16 implies #[trigger] as_ints(inverse_entries(m))[k] == (det as int) * signed_adjugate(x, k) by {
        assert(inverse_entry_req(m, inv, k));
        assert(adjugate_term(m, k) as int == int_adjugate(x, k));
        assert(inverse_entries(m)[k] == inverse_entry(m, inv, k));
    }
}

/// Law: for integer entries whose determinant is 1 or -1 (so that the inverse has integer
/// entries) and where no operation overflows, the matrix that `try_inverse` returns is a
/// two-sided inverse: its product with the matrix, in either order, is the identity.
pub proof fn lemma_integer_inverse_is_two_sided(m: Seq<i32>)
    requires
        m.len() == 16,
        inverse_req(m),
        determinant(m) == 1i32 || determinant(m) == -1i32,
    ensures
        int_product(as_ints(m), as_ints(inverse_entries(m))) == int_identity(),
        int_product(as_ints(inverse_entries(m)), as_ints(m)) == int_identity(),
{
    let x = as_ints(m);
    let e = as_ints(inverse_entries(m));
    let d = determinant(m) as int;
    lemma_inverse_entries_as_ints(m);
    lemma_adjugate_identity(x);
    assert(d * d == 1);
    assert forall|k: int| 0 <= k < 16 implies #[trigger] int_product(x, e)[k] == int_identity()[k] by {
        let r = k / 4;
        let c = k % 4;
        lemma_scaled_sums(
            x[4 * r], x[4 * r + 1], x[4 * r + 2], x[4 * r + 3],
            signed_adjugate(x, c), signed_adjugate(x, 4 + c), signed_adjugate(x, 8 + c), signed_adjugate(x, 12 + c),
            d,
        );
        assert(e[c] == d * signed_adjugate(x, c));
        assert(e[4 + c] == d * signed_adjugate(x, 4 + c));
        assert(e[8 + c] == d * signed_adjugate(x, 8 + c));
        assert(e[12 + c] == d * signed_adjugate(x, 12 + c));
        assert(row_times_signed_adjugate(x, r, c) == (if r == c { d } else { 0 }));
        assert(d * (if r == c { d } else { 0 }) == (if r == c { 1int } else { 0 }));
    }
    assert forall|k: int| 0 <= k < 16 implies #[trigger] int_product(e, x)[k] == int_identity()[k] by {
        let r = k / 4;
        let c = k % 4;
        lemma_scaled_sums(
            x[c], x[4 + c], x[8 + c], x[12 + c],
            signed_adjugate(x, 4 * r), signed_adjugate(x, 4 * r + 1), signed_adjugate(x, 4 * r + 2), signed_adjugate(x, 4 * r + 3),
            d,
        );
        assert(e[4 * r] == d * signed_adjugate(x, 4 * r));
        assert(e[4 * r + 1] == d * signed_adjugate(x, 4 * r + 1));
        assert(e[4 * r + 2] == d * signed_adjugate(x, 4 * r + 2));
        assert(e[4 * r + 3] == d * signed_adjugate(x, 4 * r + 3));
        assert(signed_adjugate_times_column(x, r, c) == (if r == c { d } else { 0 }));
        assert(d * (if r == c { d } else { 0 }) == (if r == c { 1int } else { 0 }));
    }
    assert(int_product(x, e) =~= int_identity());
    assert(int_product(e, x) =~= int_identity());
}

} // verus!
