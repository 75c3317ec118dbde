use ftx_derivatives::decimal::{normalize, rescale, FixedDecimal, RawAmount, MAX_MANTISSA};
use ftx_derivatives::FTXDerivativesError;

#[test]
fn integer_amount_keeps_mantissa() {
    // 1234 for a 2-digit currency becomes 12.34: the integer is the mantissa.
    let r = normalize(RawAmount::Integer(1234), 2);
    assert_eq!(r, Ok(FixedDecimal { mantissa: 1234, scale: 2 }));
}

#[test]
fn integer_amount_negative() {
    let r = normalize(RawAmount::Integer(-200), 2);
    assert_eq!(r, Ok(FixedDecimal { mantissa: -200, scale: 2 }));
}

#[test]
fn widening_is_lossless() {
    // 1.5 rescaled to two digits is 1.50.
    let r = rescale(FixedDecimal { mantissa: 15, scale: 1 }, 2);
    assert_eq!(r, Ok(FixedDecimal { mantissa: 150, scale: 2 }));
}

#[test]
fn widening_from_integer_scale() {
    // 7 at scale 0 widened to scale 2 is 7.00.
    let r = rescale(FixedDecimal { mantissa: 7, scale: 0 }, 2);
    assert_eq!(r, Ok(FixedDecimal { mantissa: 700, scale: 2 }));
}

#[test]
fn narrowing_with_zero_digits_succeeds() {
    // 1.500 rescaled to two digits is exactly 1.50.
    let r = rescale(FixedDecimal { mantissa: 1500, scale: 3 }, 2);
    assert_eq!(r, Ok(FixedDecimal { mantissa: 150, scale: 2 }));
}

#[test]
fn narrowing_with_nonzero_digits_fails() {
    // 1.505 cannot be expressed with two digits without rounding.
    let r = rescale(FixedDecimal { mantissa: 1505, scale: 3 }, 2);
    assert_eq!(r, Err(FTXDerivativesError::PrecisionLoss));
}

#[test]
fn narrowing_negative_exact() {
    let r = rescale(FixedDecimal { mantissa: -1500, scale: 3 }, 2);
    assert_eq!(r, Ok(FixedDecimal { mantissa: -150, scale: 2 }));
}

#[test]
fn narrowing_negative_lossy() {
    let r = rescale(FixedDecimal { mantissa: -1505, scale: 3 }, 2);
    assert_eq!(r, Err(FTXDerivativesError::PrecisionLoss));
}

#[test]
fn scale_beyond_maximum_is_a_decimal_error() {
    let r = rescale(FixedDecimal { mantissa: 1, scale: 0 }, 29);
    assert_eq!(r, Err(FTXDerivativesError::DecimalError));
}

#[test]
fn widening_overflow_is_a_decimal_error() {
    // The largest mantissa cannot gain another digit.
    let r = rescale(FixedDecimal { mantissa: MAX_MANTISSA, scale: 0 }, 1);
    assert_eq!(r, Err(FTXDerivativesError::DecimalError));
}

#[test]
fn widening_at_the_cap_succeeds() {
    let r = rescale(FixedDecimal { mantissa: MAX_MANTISSA / 10, scale: 0 }, 1);
    assert_eq!(
        r,
        Ok(FixedDecimal { mantissa: (MAX_MANTISSA / 10) * 10, scale: 1 })
    );
}

#[test]
fn rescale_to_same_scale_is_identity() {
    let d = FixedDecimal { mantissa: 12345, scale: 2 };
    assert_eq!(rescale(d, 2), Ok(d));
}

#[test]
fn zero_narrows_to_any_scale() {
    let r = rescale(FixedDecimal { mantissa: 0, scale: 9 }, 2);
    assert_eq!(r, Ok(FixedDecimal { mantissa: 0, scale: 2 }));
}
