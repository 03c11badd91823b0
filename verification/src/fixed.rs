use vstd::prelude::*;

verus! {

/// Number of fixed-point units in one world unit.  All geometry in this crate
/// is carried in these micro-units, so one world unit is 1,000,000 units.
pub const SCALE: i64 = 1_000_000;

/// Division truncating toward zero (the machine's signed division), for a
/// positive divisor.
pub open spec fn trunc_div(a: int, b: int) -> int {
    if a >= 0 {
        a / b
    } else {
        -((-a) / b)
    }
}

/// Clamps `a` into the symmetric interval `[-bound, bound]`.
pub open spec fn clamp_spec(a: int, bound: int) -> int {
    if a > bound {
        bound
    } else if a < -bound {
        -bound
    } else {
        a
    }
}

/// `|a * b| <= am * bm` whenever `|a| <= am` and `|b| <= bm`.
pub proof fn lemma_mul_bound(a: int, b: int, am: int, bm: int)
    by (nonlinear_arith)
    requires
        -am <= a <= am,
        -bm <= b <= bm,
        0 <= am,
        0 <= bm,
    ensures
        -(am * bm) <= a * b <= am * bm,
{
}

/// Truncating division keeps the quotient within `[-m, m]` whenever the
/// dividend lies within `[-m * b, m * b]`.
pub proof fn lemma_trunc_div_mag(a: int, b: int, m: int)
    requires
        b > 0,
        0 <= m,
        -(m * b) <= a <= m * b,
    ensures
        -m <= trunc_div(a, b) <= m,
{
    if a >= 0 {
        assert(0 <= a / b <= m) by (nonlinear_arith)
            requires
                b > 0,
                0 <= m,
                0 <= a <= m * b,
        ;
    } else {
        assert(0 <= (-a) / b <= m) by (nonlinear_arith)
            requires
                b > 0,
                0 <= m,
                0 <= -a <= m * b,
        ;
    }
}

/// Shifting the dividend up by one whole divisor moves a nonnegative
/// truncated quotient up by exactly one.
pub proof fn lemma_trunc_div_shift(a: int, b: int)
    requires
        b > 0,
        a >= 0,
    ensures
        trunc_div(a + b, b) == trunc_div(a, b) + 1,
{
    assert((a + b) / b == a / b + 1) by (nonlinear_arith)
        requires
            b > 0,
            a >= 0,
    ;
}

/// Truncating division on `i128`, for a positive divisor.
pub fn div_trunc(a: i128, b: i128) -> (q: i128)
    requires
        b > 0,
        a != i128::MIN,
    ensures
        q == trunc_div(a as int, b as int),
{
    if a >= 0 {
        let m: u128 = (a as u128) / (b as u128);
        proof {
            assert(0 <= (a as int) / (b as int) <= a) by (nonlinear_arith)
                requires
                    b > 0,
                    a >= 0,
            ;
        }
        m as i128
    } else {
        let m: u128 = ((-a) as u128) / (b as u128);
        proof {
            assert(0 <= (-(a as int)) / (b as int) <= -(a as int)) by (nonlinear_arith)
                requires
                    b > 0,
                    a < 0,
            ;
        }
        -(m as i128)
    }
}

/// Truncating division on `i64`, for a positive divisor.
pub fn div_trunc64(a: i64, b: i64) -> (q: i64)
    requires
        b > 0,
        a != i64::MIN,
    ensures
        q == trunc_div(a as int, b as int),
{
    if a >= 0 {
        let m: u64 = (a as u64) / (b as u64);
        proof {
            assert(0 <= (a as int) / (b as int) <= a) by (nonlinear_arith)
                requires
                    b > 0,
                    a >= 0,
            ;
        }
        m as i64
    } else {
        let m: u64 = ((-a) as u64) / (b as u64);
        proof {
            assert(0 <= (-(a as int)) / (b as int) <= -(a as int)) by (nonlinear_arith)
                requires
                    b > 0,
                    a < 0,
            ;
        }
        -(m as i64)
    }
}

/// The remainder of `|a|` divided by `b`, for a positive divisor.
pub fn abs_rem(a: i128, b: i128) -> (r: i128)
    requires
        b > 0,
        a != i128::MIN,
    ensures
        r == (vstd::math::abs(a as int) as int) % (b as int),
        0 <= r < b,
{
    let m: u128 = if a >= 0 {
        a as u128
    } else {
        (-a) as u128
    };
    let r: u128 = m % (b as u128);
    r as i128
}

/// Clamps `a` into `[-bound, bound]`.
pub fn clamp_i64(a: i64, bound: i64) -> (r: i64)
    requires
        bound > 0,
    ensures
        r == clamp_spec(a as int, bound as int),
{
    if a > bound {
        bound
    } else if a < -bound {
        -bound
    } else {
        a
    }
}

} // verus!
