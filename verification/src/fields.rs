//! Field-level decode rules shared by the record assemblers.
//!
//! Every rule scans the record's pairs for one key. A key that appears
//! twice is `DuplicateField`; a mandatory key that is absent is
//! `MissingField`; an optional key that is absent yields `None`. The value
//! found decodes by the field's own codec, and the error of that codec
//! passes through unchanged.

use vstd::prelude::*;

use crate::coordinates::Coordinates;
use crate::coordinates::decode_vector;
use crate::coordinates::spec_decode_vector;
use crate::error::DecodeError;
use crate::error::SpecError;
use crate::error::res_view;
use crate::numeric::decode_numeric_string;
use crate::numeric::extract_u16;
use crate::numeric::spec_decode_numeric_string;
use crate::numeric::u16_of_bits;
use crate::wire::FieldSpec;
use crate::wire::Lookup;
use crate::wire::WireValue;
use crate::wire::field_of;
use crate::wire::lookup_field;

verus! {

/// A mandatory plain string field.
pub open spec fn str_field(pairs: Seq<(String, WireValue)>, k: Seq<char>) -> Result<
    String,
    SpecError,
> {
    match field_of(pairs, k) {
        FieldSpec::Repeated => Err(SpecError::DuplicateField(k)),
        FieldSpec::Absent => Err(SpecError::MissingField(k)),
        FieldSpec::Present(v) => match v {
            WireValue::Text(s) => Ok(s),
            _ => Err(SpecError::TypeMismatch),
        },
    }
}

/// Decodes a mandatory plain string field.
pub fn get_str_field(pairs: &Vec<(String, WireValue)>, k: &str) -> (r: Result<String, DecodeError>)
    ensures
        res_view(r) == str_field(pairs@, k@),
{
    match lookup_field(pairs, k) {
        Lookup::Repeated => Err(DecodeError::DuplicateField(String::from_str(k))),
        Lookup::Absent => Err(DecodeError::MissingField(String::from_str(k))),
        Lookup::At(i) => match &pairs[i].1 {
            WireValue::Text(s) => Ok(s.clone()),
            _ => Err(DecodeError::TypeMismatch),
        },
    }
}

/// A mandatory numeric-as-string field.
pub open spec fn num_str_field(pairs: Seq<(String, WireValue)>, k: Seq<char>) -> Result<
    u64,
    SpecError,
> {
    match field_of(pairs, k) {
        FieldSpec::Repeated => Err(SpecError::DuplicateField(k)),
        FieldSpec::Absent => Err(SpecError::MissingField(k)),
        FieldSpec::Present(v) => spec_decode_numeric_string(v),
    }
}

/// Decodes a mandatory numeric-as-string field.
pub fn get_num_str_field(pairs: &Vec<(String, WireValue)>, k: &str) -> (r: Result<
    u64,
    DecodeError,
>)
    ensures
        res_view(r) == num_str_field(pairs@, k@),
{
    match lookup_field(pairs, k) {
        Lookup::Repeated => Err(DecodeError::DuplicateField(String::from_str(k))),
        Lookup::Absent => Err(DecodeError::MissingField(String::from_str(k))),
        Lookup::At(i) => decode_numeric_string(&pairs[i].1),
    }
}

/// An optional numeric-as-string field.
pub open spec fn opt_num_str_field(pairs: Seq<(String, WireValue)>, k: Seq<char>) -> Result<
    Option<u64>,
    SpecError,
> {
    match field_of(pairs, k) {
        FieldSpec::Repeated => Err(SpecError::DuplicateField(k)),
        FieldSpec::Absent => Ok(Option::None),
        FieldSpec::Present(v) => match v {
            WireValue::Null => Ok(Option::None),
            _ => match spec_decode_numeric_string(v) {
                Ok(b) => Ok(Some(b)),
                Err(e) => Err(e),
            },
        },
    }
}

/// Decodes an optional numeric-as-string field.
pub fn get_opt_num_str_field(pairs: &Vec<(String, WireValue)>, k: &str) -> (r: Result<
    Option<u64>,
    DecodeError,
>)
    ensures
        res_view(r) == opt_num_str_field(pairs@, k@),
{
    match lookup_field(pairs, k) {
        Lookup::Repeated => Err(DecodeError::DuplicateField(String::from_str(k))),
        Lookup::Absent => Ok(None),
        Lookup::At(i) => match &pairs[i].1 {
            WireValue::Null => Ok(None),
            v => match decode_numeric_string(v) {
                Ok(b) => Ok(Some(b)),
                Err(e) => Err(e),
            },
        },
    }
}

/// An optional small-integer field: the wire value must be a number that
/// is exactly an integer in `0..=u16::MAX`.
pub open spec fn opt_u16_field(pairs: Seq<(String, WireValue)>, k: Seq<char>) -> Result<
    Option<u16>,
    SpecError,
> {
    match field_of(pairs, k) {
        FieldSpec::Repeated => Err(SpecError::DuplicateField(k)),
        FieldSpec::Absent => Ok(Option::None),
        FieldSpec::Present(v) => match v {
            WireValue::Null => Ok(Option::None),
            WireValue::Num(b) => match u16_of_bits(b) {
                Some(n) => Ok(Some(n)),
                Option::None => Err(SpecError::TypeMismatch),
            },
            WireValue::IntNum(n) => if n <= 0xffff {
                Ok(Some(n as u16))
            } else {
                Err(SpecError::TypeMismatch)
            },
            _ => Err(SpecError::TypeMismatch),
        },
    }
}

/// Decodes an optional small-integer field.
pub fn get_opt_u16_field(pairs: &Vec<(String, WireValue)>, k: &str) -> (r: Result<
    Option<u16>,
    DecodeError,
>)
    ensures
        res_view(r) == opt_u16_field(pairs@, k@),
{
    match lookup_field(pairs, k) {
        Lookup::Repeated => Err(DecodeError::DuplicateField(String::from_str(k))),
        Lookup::Absent => Ok(None),
        Lookup::At(i) => match &pairs[i].1 {
            WireValue::Null => Ok(None),
            WireValue::Num(b) => match extract_u16(*b) {
                Some(n) => Ok(Some(n)),
                Option::None => Err(DecodeError::TypeMismatch),
            },
            WireValue::IntNum(n) => if *n <= 0xffff {
                Ok(Some(*n as u16))
            } else {
                Err(DecodeError::TypeMismatch)
            },
            _ => Err(DecodeError::TypeMismatch),
        },
    }
}

/// An optional vector field.
pub open spec fn opt_vector_field(pairs: Seq<(String, WireValue)>, k: Seq<char>) -> Result<
    Option<Coordinates>,
    SpecError,
> {
    match field_of(pairs, k) {
        FieldSpec::Repeated => Err(SpecError::DuplicateField(k)),
        FieldSpec::Absent => Ok(Option::None),
        FieldSpec::Present(v) => match v {
            WireValue::Null => Ok(Option::None),
            _ => match spec_decode_vector(v) {
                Ok(c) => Ok(Some(c)),
                Err(e) => Err(e),
            },
        },
    }
}

/// Decodes an optional vector field.
pub fn get_opt_vector_field(pairs: &Vec<(String, WireValue)>, k: &str) -> (r: Result<
    Option<Coordinates>,
    DecodeError,
>)
    ensures
        res_view(r) == opt_vector_field(pairs@, k@),
{
    match lookup_field(pairs, k) {
        Lookup::Repeated => Err(DecodeError::DuplicateField(String::from_str(k))),
        Lookup::Absent => Ok(None),
        Lookup::At(i) => match &pairs[i].1 {
            WireValue::Null => Ok(None),
            v => match decode_vector(v) {
                Ok(c) => Ok(Some(c)),
                Err(e) => Err(e),
            },
        },
    }
}

} // verus!
