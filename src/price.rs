use vstd::prelude::*;
use bigdecimal::num_bigint::BigInt;
use bigdecimal::BigDecimal;
use bigdecimal::ToPrimitive;
use crate::error::CrudError;

verus! {

/// An exact decimal number, `mantissa * 10^(-scale)`.
#[derive(Debug, Clone, Copy, PartialEq, Eq, Structural)]
pub struct Decimal {
    pub mantissa: i128,
    pub scale: i64,
}

/// A price with exactly two decimal digits, held as a count of hundredths.
#[derive(Debug, Clone, Copy, PartialEq, Eq, Structural)]
pub struct Price {
    pub cents: i64,
}

pub open spec fn pow10(n: nat) -> int
    decreases n,
{
    if n == 0 {
        1
    } else {
        10 * pow10((n - 1) as nat)
    }
}

/// Integer division that rounds toward zero.
pub open spec fn div_toward_zero(a: int, d: int) -> int {
    if a >= 0 {
        a / d
    } else {
        -((-a) / d)
    }
}

/// The hundredths in `mantissa * 10^(-scale)`; further digits are dropped,
/// toward zero.
pub open spec fn hundredths(mantissa: int, scale: int) -> int {
    if scale <= 2 {
        mantissa * pow10((2 - scale) as nat)
    } else {
        div_toward_zero(mantissa, pow10((scale - 2) as nat))
    }
}

pub open spec fn fits_i64(x: int) -> bool {
    i64::MIN <= x <= i64::MAX
}

/// Relies on bigdecimal's `BigDecimal::with_scale`, here to scale 2: it
/// multiplies the digits by a power of ten when the scale grows and divides
/// them, truncating, when it shrinks; and on `ToPrimitive::to_i64` of
/// num-bigint, which is `None` exactly when the digits do not fit.
#[verifier::external_body]
fn digits_at_scale_two(mantissa: i128, scale: i64) -> (r: Option<i64>)
    requires
        -20 <= scale <= 45,
    ensures
        r == (if fits_i64(hundredths(mantissa as int, scale as int)) {
            Some(hundredths(mantissa as int, scale as int) as i64)
        } else {
            None::<i64>
        }),
{
    let (digits, _) = BigDecimal::new(BigInt::from(mantissa), scale).with_scale(2).into_bigint_and_scale();
    digits.to_i64()
}

proof fn lemma_pow10_positive(n: nat)
    ensures
        pow10(n) >= 1,
    decreases n,
{
    if n > 0 {
        lemma_pow10_positive((n - 1) as nat);
    }
}

proof fn lemma_pow10_monotone(a: nat, b: nat)
    requires
        a <= b,
    ensures
        pow10(a) <= pow10(b),
    decreases b,
{
    if a < b {
        lemma_pow10_monotone(a, (b - 1) as nat);
        lemma_pow10_positive((b - 1) as nat);
    }
}

proof fn lemma_pow10_add(a: nat, b: nat)
    ensures
        pow10(a + b) == pow10(a) * pow10(b),
    decreases a,
{
    if a > 0 {
        lemma_pow10_add((a - 1) as nat, b);
        assert(pow10(a + b) == 10 * pow10((a - 1 + b) as nat));
        assert(10 * (pow10((a - 1) as nat) * pow10(b)) == (10 * pow10((a - 1) as nat)) * pow10(b))
            by (nonlinear_arith);
    }
}

proof fn lemma_pow10_20()
    ensures
        pow10(20) == 100000000000000000000,
{
    reveal_with_fuel(pow10, 21);
}

/// Quantizes a decimal to two digits after the point, dropping further
/// digits toward zero. A value whose hundredths do not fit in an `i64`
/// cannot be stored and is a validation error.
pub fn price_from_decimal(d: Decimal) -> (r: Result<Price, CrudError>)
    ensures
        r is Ok <==> fits_i64(hundredths(d.mantissa as int, d.scale as int)),
        r matches Ok(p) ==> p.cents == hundredths(d.mantissa as int, d.scale as int),
        r matches Err(e) ==> e == CrudError::Validation,
{
    let m = d.mantissa;
    let s = d.scale;
    if s < -20 {
        if m == 0 {
            assert(hundredths(0, s as int) == 0);
            return Ok(Price { cents: 0 });
        }
        proof {
            let n = (2 - s) as nat;
            lemma_pow10_20();
            lemma_pow10_monotone(20, n);
            let p = pow10(n);
            if m > 0 {
                assert(m * p >= p) by (nonlinear_arith) requires m >= 1, p >= 1;
            } else {
                assert(m * p <= -p) by (nonlinear_arith) requires m <= -1, p >= 1;
            }
        }
        return Err(CrudError::Validation);
    }
    if s > 45 {
        proof {
            let n = (s - 2) as nat;
            lemma_pow10_20();
            lemma_pow10_add(20, 20);
            lemma_pow10_monotone(40, n);
            let p = pow10(n);
            assert(p > i128::MAX + 1);
            let a: int = if m < 0 { -m } else { m as int };
            assert(a / p == 0) by (nonlinear_arith) requires 0 <= a < p;
            assert(hundredths(m as int, s as int) == 0);
        }
        return Ok(Price { cents: 0 });
    }
    match digits_at_scale_two(m, s) {
        Some(c) => Ok(Price { cents: c }),
        None => Err(CrudError::Validation),
    }
}

} // verus!
