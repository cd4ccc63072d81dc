//! Rules shared by both species, over fixed-point values.
use vstd::prelude::*;

verus! {

/// Thousandths of a weight unit per weight unit.
pub const WEIGHT_SCALE: i64 = 1000;

/// Millionths per unit of fitness or probability.
pub const FITNESS_SCALE: u32 = 1000000;

/// Thousandths per unit of a rate or factor.
pub const RATE_SCALE: i64 = 1000;

/// `a / d` rounded toward zero, for `d > 0`.
pub open spec fn div_toward_zero(a: int, d: int) -> int {
    if a >= 0 {
        a / d
    } else {
        -((-a) / d)
    }
}

/// `weight * rate` where `rate` is in thousandths, rounded toward zero.
pub open spec fn scaled(weight: int, rate: int) -> int {
    div_toward_zero(weight * rate, RATE_SCALE as int)
}

/// Fitness from the two logistic factors (`q_pos` of age, `q_neg` of weight):
/// zero for a non-positive weight, else their product.
pub open spec fn fitness_spec(weight: int, q_pos: int, q_neg: int) -> int {
    if weight <= 0 {
        0
    } else {
        q_pos * q_neg / (FITNESS_SCALE as int)
    }
}

/// A fitness curve: `(age, weight) -> (q_pos, q_neg)`, both in millionths.
pub open spec fn curve_ok<Q: Fn(u32, i64) -> (u32, u32)>(curve: Q) -> bool {
    &&& forall|a: u32, w: i64| #[trigger] curve.requires((a, w))
    &&& forall|a: u32, w: i64, r: (u32, u32)|
        #[trigger] curve.ensures((a, w), r) ==> r.0 <= FITNESS_SCALE && r.1 <= FITNESS_SCALE
}

/// `fitness` is what the curve gives for `age` and `weight`: zero for a
/// non-positive weight, else the product of factors that the curve returned
/// for exactly this age and weight.
pub open spec fn fitness_from_curve<Q: Fn(u32, i64) -> (u32, u32)>(
    curve: Q,
    age: u32,
    weight: i64,
    fitness: u32,
) -> bool {
    if weight <= 0 {
        fitness == 0
    } else {
        exists|r: (u32, u32)|
            #[trigger] curve.ensures((age, weight), r) && fitness == fitness_spec(
                weight as int,
                r.0 as int,
                r.1 as int,
            )
    }
}

/// Fitness lies between zero and one (in millionths) for factors in that range.
/// It is one only if both factors are one, and it is positive for a positive
/// weight whose factors have a product of at least one millionth.
pub proof fn fitness_in_unit_range(weight: int, q_pos: int, q_neg: int)
    requires
        0 <= q_pos <= FITNESS_SCALE,
        0 <= q_neg <= FITNESS_SCALE,
    ensures
        0 <= fitness_spec(weight, q_pos, q_neg) <= FITNESS_SCALE,
        (q_pos < FITNESS_SCALE || q_neg < FITNESS_SCALE) ==> fitness_spec(weight, q_pos, q_neg)
            < FITNESS_SCALE,
        weight > 0 && q_pos * q_neg >= FITNESS_SCALE ==> fitness_spec(weight, q_pos, q_neg) > 0,
{
    assert(0 <= q_pos * q_neg <= 1000000 * 1000000) by (nonlinear_arith)
        requires
            0 <= q_pos <= 1000000,
            0 <= q_neg <= 1000000,
    ;
    assert((q_pos < 1000000 || q_neg < 1000000) ==> q_pos * q_neg < 1000000 * 1000000)
        by (nonlinear_arith)
        requires
            0 <= q_pos <= 1000000,
            0 <= q_neg <= 1000000,
    ;
}

/// For one age factor, fitness never decreases as weight grows, as long as
/// the weight factor does not decrease either (the logistic weight curve is
/// increasing).
pub proof fn fitness_monotone_in_weight(w1: int, w2: int, q_pos: int, q_neg1: int, q_neg2: int)
    requires
        w1 <= w2,
        0 <= q_pos <= FITNESS_SCALE,
        0 <= q_neg1 <= q_neg2 <= FITNESS_SCALE,
    ensures
        fitness_spec(w1, q_pos, q_neg1) <= fitness_spec(w2, q_pos, q_neg2),
{
    assert(0 <= q_pos * q_neg1 <= q_pos * q_neg2) by (nonlinear_arith)
        requires
            0 <= q_pos,
            0 <= q_neg1 <= q_neg2,
    ;
    assert(0 <= (q_pos * q_neg1) / 1000000 <= (q_pos * q_neg2) / 1000000) by (nonlinear_arith)
        requires
            0 <= q_pos * q_neg1 <= q_pos * q_neg2,
    ;
}

/// Fitness from the age factor `q_pos` and the weight factor `q_neg`.
pub fn fitness_value(weight: i64, q_pos: u32, q_neg: u32) -> (r: u32)
    requires
        q_pos <= FITNESS_SCALE,
        q_neg <= FITNESS_SCALE,
    ensures
        r as int == fitness_spec(weight as int, q_pos as int, q_neg as int),
        r <= FITNESS_SCALE,
{
    if weight <= 0 {
        0
    } else {
        proof {
            assert((q_pos as int) * (q_neg as int) <= 1000000 * 1000000) by (nonlinear_arith)
                requires
                    q_pos <= 1000000,
                    q_neg <= 1000000,
            ;
            assert((q_pos as int) * (q_neg as int) >= 0) by (nonlinear_arith);
        }
        let p: u64 = (q_pos as u64) * (q_neg as u64);
        (p / (FITNESS_SCALE as u64)) as u32
    }
}

/// Evaluates the curve at `(age, weight)` and combines its factors; a
/// non-positive weight gives zero without consulting the curve.
pub fn fitness_at<Q: Fn(u32, i64) -> (u32, u32)>(curve: &Q, age: u32, weight: i64) -> (r: u32)
    requires
        curve_ok(*curve),
    ensures
        fitness_from_curve(*curve, age, weight, r),
        r <= FITNESS_SCALE,
{
    if weight <= 0 {
        0
    } else {
        let (q_pos, q_neg) = curve(age, weight);
        fitness_value(weight, q_pos, q_neg)
    }
}

/// `weight * rate`, `rate` in thousandths, rounded toward zero.
pub fn scale_weight(weight: i64, rate: u16) -> (r: i128)
    ensures
        r as int == scaled(weight as int, rate as int),
{
    let m: u128 = if weight >= 0 {
        weight as u128
    } else {
        (-(weight as i128)) as u128
    };
    proof {
        assert((m as int) * (rate as int) <= (m as int) * 65535) by (nonlinear_arith)
            requires
                rate <= 65535,
        ;
        assert((m as int) * (rate as int) >= 0) by (nonlinear_arith);
        assert(weight < 0 ==> (weight as int) * (rate as int) == -((m as int) * (rate as int)))
            by (nonlinear_arith)
            requires
                weight < 0 ==> m == -weight,
        ;
        assert(weight >= 0 ==> (weight as int) * (rate as int) == (m as int) * (rate as int));
    }
    let q: u128 = m * (rate as u128) / (RATE_SCALE as u128);
    if weight >= 0 {
        q as i128
    } else {
        -(q as i128)
    }
}

} // verus!
