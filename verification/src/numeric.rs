//! Finite double-precision values, carried as their IEEE-754 bit patterns.
//!
//! The feed's numeric fields are double-precision numbers. Verified code
//! never manipulates a floating-point value directly: a number is held as
//! the `u64` bit pattern of the double it denotes. Parsing a decimal string
//! into such a pattern is the one step that needs the platform's
//! floating-point support, and it stands behind a single trusted wrapper;
//! recognising the patterns that denote a small non-negative integer is
//! plain bit arithmetic and is verified here.

use vstd::prelude::*;

use crate::error::DecodeError;
use crate::error::SpecError;
use crate::error::res_view;
use crate::wire::WireValue;

verus! {

/// The IEEE-754 bit pattern of the finite double that the string denotes
/// when read as a decimal number, or `None` when the string is not a plain
/// decimal number (no surrounding garbage is tolerated) or denotes an
/// infinity or a NaN. The result depends on the characters alone.
pub uninterp spec fn finite_f64_bits(s: Seq<char>) -> Option<u64>;

/// Relies on `serde_json::from_str::<serde_json::Number>` to read a decimal
/// number and on `serde_json::Number::as_f64` to take its double value,
/// whose bit pattern is returned. Both are functions of the characters
/// alone; a string that is not a decimal number yields `None`, and the
/// number grammar admits no non-finite value.
#[verifier::external_body]
pub fn parse_finite_f64(s: &str) -> (r: Option<u64>)
    ensures
        r == finite_f64_bits(s@),
{
    match serde_json::from_str::<serde_json::Number>(s) {
        Ok(n) => n.as_f64().map(|v| v.to_bits()),
        Err(_) => None,
    }
}

/// `Some(n)` when the double with the given bit pattern is exactly the
/// integer `n` in `0..=u16::MAX`, read off the IEEE-754 fields: the
/// all-zero pattern denotes 0, a pattern with the sign bit set (the
/// negative zero among them) denotes none, and a positive pattern with
/// unbiased exponent `k <= 15` and no fraction bits below position
/// `52 - k` denotes the integer `2^k + (fraction >> (52 - k))`.
pub open spec fn u16_of_bits(bits: u64) -> Option<u16> {
    if bits == 0 {
        Some(0u16)
    } else if bits >> 63 != 0 {
        None
    } else {
        let biased = (bits >> 52) & 0x7ff;
        if biased < 1023 || biased > 1038 {
            None
        } else {
            let k = (biased - 1023) as u64;
            let shift = (52 - k) as u64;
            let frac = bits & 0xf_ffff_ffff_ffff;
            let low_mask = ((1u64 << shift) - 1) as u64;
            if frac & low_mask != 0 {
                None
            } else {
                Some(((1u64 << k) | (frac >> shift)) as u16)
            }
        }
    }
}

/// The integer a double denotes, when it denotes one in `0..=u16::MAX`.
pub fn extract_u16(bits: u64) -> (r: Option<u16>)
    ensures
        r == u16_of_bits(bits),
{
    if bits == 0 {
        Some(0u16)
    } else if bits >> 63u64 != 0 {
        None
    } else {
        let biased: u64 = (bits >> 52u64) & 0x7ff;
        if biased < 1023 || biased > 1038 {
            None
        } else {
            let k: u64 = biased - 1023;
            let shift: u64 = 52 - k;
            let frac: u64 = bits & 0xf_ffff_ffff_ffff;
            assert(1u64 << shift >= 1) by (bit_vector)
                requires
                    shift <= 52u64,
            ;
            assert(frac <= 0xf_ffff_ffff_ffffu64) by (bit_vector)
                requires
                    frac == bits & 0xf_ffff_ffff_ffffu64,
            ;
            if frac & ((1u64 << shift) - 1) != 0 {
                None
            } else {
                let n: u64 = (1u64 << k) | (frac >> shift);
                assert(n <= 0xffff) by (bit_vector)
                    requires
                        n == (1u64 << k) | (frac >> shift),
                        k <= 15u64,
                        k + shift == 52u64,
                        frac <= 0xf_ffff_ffff_ffffu64,
                ;
                Some(n as u16)
            }
        }
    }
}

/// What decoding a numeric-as-string field yields: the double a string
/// holds (`InvalidNumber` when its content does not read as a finite
/// double), the value a string-rendered number node carries, and
/// `TypeMismatch` for every other wire shape — a bare number among them.
pub open spec fn spec_decode_numeric_string(w: WireValue) -> Result<u64, SpecError> {
    match w {
        WireValue::Text(s) => match finite_f64_bits(s@) {
            Some(b) => Ok(b),
            Option::None => Err(SpecError::InvalidNumber),
        },
        WireValue::NumStr(b) => Ok(b),
        _ => Err(SpecError::TypeMismatch),
    }
}

/// Decodes a numeric value that the wire carries as a JSON string.
pub fn decode_numeric_string(w: &WireValue) -> (r: Result<u64, DecodeError>)
    ensures
        res_view(r) == spec_decode_numeric_string(*w),
{
    match w {
        WireValue::Text(s) => match parse_finite_f64(s.as_str()) {
            Some(b) => Ok(b),
            Option::None => Err(DecodeError::InvalidNumber),
        },
        WireValue::NumStr(b) => Ok(*b),
        _ => Err(DecodeError::TypeMismatch),
    }
}

/// Encodes a numeric value into its canonical wire form: a JSON string
/// holding the decimal rendering of the double.
pub fn encode_numeric_string(bits: u64) -> (r: WireValue)
    ensures
        r == WireValue::NumStr(bits),
{
    WireValue::NumStr(bits)
}

} // verus!
