//! The decode-time error taxonomy.
//!
//! Every failure of a decode surfaces as one of these values; nothing is
//! recovered silently except the documented ignore-unknown-field and
//! fallback-classification behaviours. Encoding never fails, so there is no
//! encode-time counterpart.

use vstd::prelude::*;

verus! {

/// Why a decode failed.
#[derive(Debug, Clone, PartialEq, Eq)]
pub enum DecodeError {
    /// A vector field had the wrong shape or the wrong token count.
    InvalidVector,
    /// Numeric content did not read as a finite double.
    InvalidNumber,
    /// The wire value's type does not match what the field's codec expects.
    TypeMismatch,
    /// A wire shape no codec accepts (an array or a bare scalar where a
    /// vector was expected).
    UnsupportedShape,
    /// A key that must appear at most once appeared twice in a keyed
    /// structure.
    DuplicateField(String),
    /// A mandatory field is absent.
    MissingField(String),
    /// A closed-vocabulary or tagged-union value is not in the recognised
    /// set.
    UnknownVariant(String),
}

/// The mathematical image of a `DecodeError`: the same taxonomy with field
/// names as character sequences, so that specification functions can state
/// the exact error a decode yields.
pub enum SpecError {
    InvalidVector,
    InvalidNumber,
    TypeMismatch,
    UnsupportedShape,
    DuplicateField(Seq<char>),
    MissingField(Seq<char>),
    UnknownVariant(Seq<char>),
}

impl View for DecodeError {
    type V = SpecError;

    open spec fn view(&self) -> SpecError {
        match self {
            DecodeError::InvalidVector => SpecError::InvalidVector,
            DecodeError::InvalidNumber => SpecError::InvalidNumber,
            DecodeError::TypeMismatch => SpecError::TypeMismatch,
            DecodeError::UnsupportedShape => SpecError::UnsupportedShape,
            DecodeError::DuplicateField(name) => SpecError::DuplicateField(name@),
            DecodeError::MissingField(name) => SpecError::MissingField(name@),
            DecodeError::UnknownVariant(tag) => SpecError::UnknownVariant(tag@),
        }
    }
}

/// The mathematical image of a decode result: the payload as it stands,
/// the error through its view.
pub open spec fn res_view<T>(r: Result<T, DecodeError>) -> Result<T, SpecError> {
    match r {
        Ok(t) => Ok(t),
        Err(e) => Err(e@),
    }
}

} // verus!
