//! Exact base-10 fixed-point amounts and the rescaling core.
//!
//! A [`FixedDecimal`] is a mantissa together with a scale (the number of
//! fractional digits); it denotes `mantissa / 10^scale`. The representation
//! mirrors a 96-bit decimal: the mantissa magnitude is capped at
//! `MAX_MANTISSA` and the scale at `MAX_SCALE`, so every value here can be
//! carried losslessly by the wire formats the venue uses.
//!
//! Rescaling never rounds: widening the scale multiplies the mantissa by a
//! power of ten and always preserves the value; narrowing succeeds only when
//! every discarded digit is zero. A raw integer wire amount is normalized by
//! attaching the target scale to it unchanged (the integer is the mantissa).

use vstd::prelude::*;

use crate::FTXDerivativesError;

verus! {

/// Largest mantissa magnitude: `2^96 - 1`, the cap of a 96-bit decimal.
pub const MAX_MANTISSA: i128 = 79228162514264337593543950335;

/// Largest representable scale (number of fractional digits).
pub const MAX_SCALE: u32 = 28;

/// `10^e` as a mathematical integer.
pub open spec fn pow10(e: nat) -> int
    decreases e,
{
    if e == 0 {
        1
    } else {
        10 * pow10((e - 1) as nat)
    }
}

pub proof fn lemma_pow10_pos(e: nat)
    ensures
        pow10(e) >= 1,
    decreases e,
{
    if e > 0 {
        lemma_pow10_pos((e - 1) as nat);
    }
}

pub proof fn lemma_pow10_adds(a: nat, b: nat)
    ensures
        pow10(a + b) == pow10(a) * pow10(b),
    decreases a,
{
    if a == 0 {
    } else {
        lemma_pow10_adds((a - 1) as nat, b);
        assert(pow10(a + b) == 10 * pow10((a - 1) as nat + b));
        assert(10 * (pow10((a - 1) as nat) * pow10(b)) == (10 * pow10((a - 1) as nat)) * pow10(b))
            by (nonlinear_arith);
    }
}

pub proof fn lemma_pow10_increases(a: nat, b: nat)
    requires
        a <= b,
    ensures
        pow10(a) <= pow10(b),
    decreases b,
{
    if a < b {
        lemma_pow10_increases(a, (b - 1) as nat);
        lemma_pow10_pos((b - 1) as nat);
    }
}

pub proof fn lemma_pow10_max_scale()
    ensures
        pow10(MAX_SCALE as nat) == 10000000000000000000000000000int,
{
    reveal_with_fuel(pow10, 29);
}

/// Computes `10^e` for scales in range.
pub fn pow10_u128(e: u32) -> (r: u128)
    requires
        e <= MAX_SCALE,
    ensures
        r as int == pow10(e as nat),
{
    let mut r: u128 = 1;
    let mut i: u32 = 0;
    while i < e
        invariant
            i <= e <= MAX_SCALE,
            r as int == pow10(i as nat),
        decreases e - i,
    {
        proof {
            lemma_pow10_increases((i + 1) as nat, MAX_SCALE as nat);
            lemma_pow10_max_scale();
            assert(pow10((i + 1) as nat) == 10 * pow10(i as nat));
        }
        r = r * 10;
        i = i + 1;
    }
    r
}

/// An exact fixed-point decimal: the value `mantissa / 10^scale`.
#[derive(Debug, Clone, Copy, PartialEq, Eq, Structural)]
pub struct FixedDecimal {
    pub mantissa: i128,
    pub scale: u32,
}

impl FixedDecimal {
    /// Representation invariant: the scale and the mantissa magnitude stay
    /// within the 96-bit decimal caps.
    pub open spec fn wf(self) -> bool {
        &&& self.scale <= MAX_SCALE
        &&& -MAX_MANTISSA <= self.mantissa <= MAX_MANTISSA
    }

    /// The value expressed in units of `10^-MAX_SCALE`, a common denominator
    /// for every well-formed amount. Two amounts denote the same number
    /// exactly when their units agree.
    pub open spec fn units(self) -> int
        recommends
            self.scale <= MAX_SCALE,
    {
        self.mantissa * pow10((MAX_SCALE - self.scale) as nat)
    }
}

/// A monetary quantity as the wire delivers it: a raw scaled integer
/// (implicit-scale format) or an explicit fixed-point decimal.
#[derive(Debug, Clone, Copy, PartialEq, Eq, Structural)]
pub enum RawAmount {
    Integer(i64),
    Decimal(FixedDecimal),
}

impl RawAmount {
    pub open spec fn wf(self) -> bool {
        match self {
            RawAmount::Integer(_) => true,
            RawAmount::Decimal(d) => d.wf(),
        }
    }
}

/// What rescaling an explicit decimal to `target_scale` returns.
///
/// Widening multiplies the mantissa by a power of ten (lossless; fails only
/// when the widened mantissa would leave the representation). Narrowing
/// divides, and is permitted only when all discarded digits are zero.
pub open spec fn spec_rescale(d: FixedDecimal, target_scale: u32) -> Result<
    FixedDecimal,
    FTXDerivativesError,
> {
    if target_scale > MAX_SCALE {
        Err(FTXDerivativesError::DecimalError)
    } else if target_scale >= d.scale {
        let m = d.mantissa * pow10((target_scale - d.scale) as nat);
        if -MAX_MANTISSA <= m <= MAX_MANTISSA {
            Ok(FixedDecimal { mantissa: m as i128, scale: target_scale })
        } else {
            Err(FTXDerivativesError::DecimalError)
        }
    } else {
        let p = pow10((d.scale - target_scale) as nat);
        if d.mantissa as int % p == 0 {
            Ok(FixedDecimal { mantissa: (d.mantissa as int / p) as i128, scale: target_scale })
        } else {
            Err(FTXDerivativesError::PrecisionLoss)
        }
    }
}

/// For a nonnegative magnitude and a positive divisor, comparing against the
/// divided cap decides whether the product stays under the cap.
proof fn lemma_product_within_cap(mag: int, p: int, cap: int)
    requires
        0 <= mag,
        0 < p,
        0 <= cap,
    ensures
        mag <= cap / p <==> mag * p <= cap,
{
    vstd::arithmetic::div_mod::lemma_fundamental_div_mod(cap, p);
    vstd::arithmetic::div_mod::lemma_mod_division_less_than_divisor(cap, p);
    vstd::arithmetic::div_mod::lemma_div_pos_is_pos(cap, p);
    if mag <= cap / p {
        vstd::arithmetic::mul::lemma_mul_inequality(mag, cap / p, p);
        vstd::arithmetic::mul::lemma_mul_is_commutative(cap / p, p);
    }
    if mag * p <= cap {
        vstd::arithmetic::div_mod::lemma_div_is_ordered(mag * p, cap, p);
        vstd::arithmetic::mul::lemma_mul_is_commutative(p, mag);
        vstd::arithmetic::div_mod::lemma_div_multiples_vanish(mag, p);
    }
}

/// Divisibility and exact quotients are unchanged by negating the dividend.
proof fn lemma_neg_div_mod(x: int, p: int)
    requires
        0 <= x,
        0 < p,
    ensures
        (-x) % p == 0 <==> x % p == 0,
        x % p == 0 ==> (-x) / p == -(x / p) && x == (x / p) * p,
{
    vstd::arithmetic::div_mod::lemma_fundamental_div_mod(x, p);
    vstd::arithmetic::div_mod::lemma_fundamental_div_mod(-x, p);
    if x % p == 0 {
        let q = x / p;
        assert(x == p * q);
        assert(-x == p * (-q)) by (nonlinear_arith)
            requires x == p * q;
        vstd::arithmetic::div_mod::lemma_div_multiples_vanish(-q, p);
        vstd::arithmetic::mul::lemma_mul_is_commutative(p, q);
        vstd::arithmetic::div_mod::lemma_mod_multiples_basic(-q, p);
        vstd::arithmetic::mul::lemma_mul_is_commutative(-q, p);
    }
    if (-x) % p == 0 {
        let q = (-x) / p;
        assert(-x == p * q);
        assert(x == p * (-q)) by (nonlinear_arith)
            requires -x == p * q;
        vstd::arithmetic::div_mod::lemma_mod_multiples_basic(-q, p);
        vstd::arithmetic::mul::lemma_mul_is_commutative(-q, p);
        vstd::arithmetic::mul::lemma_mul_is_commutative(p, -q);
    }
}

/// Rescales an explicit decimal to exactly `target_scale` without ever
/// rounding: widening is lossless, narrowing succeeds only when all the
/// discarded digits are zero.
pub fn rescale(d: FixedDecimal, target_scale: u32) -> (r: Result<
    FixedDecimal,
    FTXDerivativesError,
>)
    requires
        d.wf(),
    ensures
        r == spec_rescale(d, target_scale),
        r matches Ok(n) ==> n.wf() && n.scale == target_scale && n.units() == d.units(),
{
    proof {
        lemma_rescale_preserves_units(d, target_scale);
    }
    if target_scale > MAX_SCALE {
        return Err(FTXDerivativesError::DecimalError);
    }
    let neg = d.mantissa < 0;
    let mag: u128 = if neg {
        (-d.mantissa) as u128
    } else {
        d.mantissa as u128
    };
    assert(mag == if d.mantissa < 0 { -(d.mantissa as int) } else { d.mantissa as int });
    if target_scale >= d.scale {
        let p = pow10_u128(target_scale - d.scale);
        proof {
            lemma_pow10_pos((target_scale - d.scale) as nat);
        }
        let limit = (MAX_MANTISSA as u128) / p;
        proof {
            lemma_product_within_cap(mag as int, p as int, MAX_MANTISSA as int);
            vstd::arithmetic::mul::lemma_mul_unary_negation(mag as int, p as int);
        }
        if mag > limit {
            assert(d.mantissa * pow10((target_scale - d.scale) as nat) > MAX_MANTISSA
                || d.mantissa * pow10((target_scale - d.scale) as nat) < -MAX_MANTISSA);
            Err(FTXDerivativesError::DecimalError)
        } else {
            let wide = mag * p;
            let m: i128 = if neg {
                -(wide as i128)
            } else {
                wide as i128
            };
            assert(m == d.mantissa * pow10((target_scale - d.scale) as nat));
            Ok(FixedDecimal { mantissa: m, scale: target_scale })
        }
    } else {
        let p = pow10_u128(d.scale - target_scale);
        proof {
            lemma_pow10_pos((d.scale - target_scale) as nat);
            lemma_neg_div_mod(mag as int, p as int);
        }
        if mag % p != 0 {
            Err(FTXDerivativesError::PrecisionLoss)
        } else {
            let q = mag / p;
            proof {
                vstd::arithmetic::div_mod::lemma_div_pos_is_pos(mag as int, p as int);
                vstd::arithmetic::mul::lemma_mul_inequality(1, p as int, q as int);
                vstd::arithmetic::mul::lemma_mul_is_commutative(p as int, q as int);
            }
            let m: i128 = if neg {
                -(q as i128)
            } else {
                q as i128
            };
            assert(m == d.mantissa as int / (p as int));
            Ok(FixedDecimal { mantissa: m, scale: target_scale })
        }
    }
}

/// What normalizing a raw wire amount to `target_scale` returns: an integer
/// amount becomes the mantissa with the scale attached unchanged, an explicit
/// decimal is rescaled exactly.
pub open spec fn spec_normalize(amount: RawAmount, target_scale: u32) -> Result<
    FixedDecimal,
    FTXDerivativesError,
> {
    match amount {
        RawAmount::Integer(i) => {
            if target_scale <= MAX_SCALE {
                Ok(FixedDecimal { mantissa: i as i128, scale: target_scale })
            } else {
                Err(FTXDerivativesError::DecimalError)
            }
        },
        RawAmount::Decimal(d) => spec_rescale(d, target_scale),
    }
}

/// Law: whenever rescaling succeeds, the numeric value is unchanged —
/// rescaling adjusts the representation and never rounds.
pub proof fn lemma_rescale_preserves_units(d: FixedDecimal, target_scale: u32)
    requires
        d.wf(),
    ensures
        spec_rescale(d, target_scale) matches Ok(n) ==> n.wf() && n.scale == target_scale
            && n.units() == d.units(),
{
    if target_scale > MAX_SCALE {
    } else if target_scale >= d.scale {
        let k = (target_scale - d.scale) as nat;
        let rest = (MAX_SCALE - target_scale) as nat;
        let m = d.mantissa as int;
        if -MAX_MANTISSA <= m * pow10(k) <= MAX_MANTISSA {
            lemma_pow10_adds(k, rest);
            vstd::arithmetic::mul::lemma_mul_is_associative(m, pow10(k), pow10(rest));
        }
    } else {
        let p = pow10((d.scale - target_scale) as nat);
        let rest = (MAX_SCALE - d.scale) as nat;
        let m = d.mantissa as int;
        lemma_pow10_pos((d.scale - target_scale) as nat);
        if m % p == 0 {
            let q = m / p;
            vstd::arithmetic::div_mod::lemma_fundamental_div_mod(m, p);
            assert(m == p * q);
            assert(-MAX_MANTISSA <= q <= MAX_MANTISSA) by (nonlinear_arith)
                requires
                    m == p * q,
                    p >= 1,
                    -MAX_MANTISSA <= m <= MAX_MANTISSA,
            ;
            lemma_pow10_adds((d.scale - target_scale) as nat, rest);
            assert((p * q) * pow10(rest) == q * (p * pow10(rest))) by (nonlinear_arith);
            assert(p * pow10(rest) == pow10((MAX_SCALE - target_scale) as nat));
        }
    }
}

/// Law: normalizing an integer raw amount never changes its mantissa; the
/// target scale is attached to the integer unchanged.
pub proof fn lemma_normalize_integer_attaches_scale(i: i64, target_scale: u32)
    requires
        target_scale <= MAX_SCALE,
    ensures
        spec_normalize(RawAmount::Integer(i), target_scale) == Ok::<
            FixedDecimal,
            FTXDerivativesError,
        >(FixedDecimal { mantissa: i as i128, scale: target_scale }),
{
}

/// Law: a widening rescale (source scale at most the target scale) succeeds
/// whenever the widened mantissa stays representable, and is a no-op on the
/// value.
pub proof fn lemma_rescale_widening_lossless(d: FixedDecimal, target_scale: u32)
    requires
        d.wf(),
        d.scale <= target_scale <= MAX_SCALE,
        -MAX_MANTISSA <= d.mantissa * pow10((target_scale - d.scale) as nat) <= MAX_MANTISSA,
    ensures
        spec_rescale(d, target_scale) matches Ok(n) && n.scale == target_scale && n.units()
            == d.units(),
{
    lemma_rescale_preserves_units(d, target_scale);
}

/// Law: a narrowing rescale whose discarded trailing digits are all zero
/// succeeds and is exact on the value.
pub proof fn lemma_rescale_narrowing_exact(d: FixedDecimal, target_scale: u32)
    requires
        d.wf(),
        target_scale < d.scale,
        d.mantissa as int % pow10((d.scale - target_scale) as nat) == 0,
    ensures
        spec_rescale(d, target_scale) matches Ok(n) && n.scale == target_scale && n.units()
            == d.units(),
{
    lemma_rescale_preserves_units(d, target_scale);
}

/// Law: a narrowing rescale that would discard a nonzero digit fails with
/// the precision-loss error, never rounding silently.
pub proof fn lemma_rescale_narrowing_lossy(d: FixedDecimal, target_scale: u32)
    requires
        d.scale <= MAX_SCALE,
        target_scale < d.scale,
        d.mantissa as int % pow10((d.scale - target_scale) as nat) != 0,
    ensures
        spec_rescale(d, target_scale) == Err::<FixedDecimal, FTXDerivativesError>(
            FTXDerivativesError::PrecisionLoss,
        ),
{
}

/// Normalizes a raw wire amount to exactly `target_scale`.
pub fn normalize(amount: RawAmount, target_scale: u32) -> (r: Result<
    FixedDecimal,
    FTXDerivativesError,
>)
    requires
        amount.wf(),
    ensures
        r == spec_normalize(amount, target_scale),
        r matches Ok(n) ==> n.wf() && n.scale == target_scale,
        amount matches RawAmount::Decimal(d) ==> (r matches Ok(n) ==> n.units() == d.units()),
{
    match amount {
        RawAmount::Integer(i) => {
            if target_scale <= MAX_SCALE {
                Ok(FixedDecimal { mantissa: i as i128, scale: target_scale })
            } else {
                Err(FTXDerivativesError::DecimalError)
            }
        },
        RawAmount::Decimal(d) => rescale(d, target_scale),
    }
}

} // verus!
