//! The vector codec: a 3-component position or velocity.
//!
//! On decode two wire shapes are accepted: a delimited string `"x,y,z"`
//! whose trimmed tokens each read as a finite double, or an object with the
//! keys `x`, `y`, `z` (each at most once, all mandatory, any order, other
//! keys ignored). Encoding always emits the object shape.

use vstd::prelude::*;

use crate::error::DecodeError;
use crate::error::SpecError;
use crate::error::res_view;
use crate::numeric::finite_f64_bits;
use crate::numeric::parse_finite_f64;
use crate::text::split_commas;
use crate::text::split_commas_str;
use crate::text::trim_spaces;
use crate::text::trimmed;
use crate::wire::FieldSpec;
use crate::wire::Lookup;
use crate::wire::WireValue;
use crate::wire::field_of;
use crate::wire::first_value;
use crate::wire::key_count;
use crate::wire::lemma_field_insert_other;
use crate::wire::lookup_field;

verus! {

/// The sign-clearing mask for a double's bit pattern.
pub const SIGN_CLEAR: u64 = 0x7fff_ffff_ffff_ffff;

/// The bit pattern of the machine epsilon for doubles, 2^-52.
pub const EPSILON_BITS: u64 = 0x3cb0_0000_0000_0000;

/// The bit pattern of the double's absolute value.
pub open spec fn abs_bits(b: u64) -> u64 {
    b & SIGN_CLEAR
}

/// Whether the double with this bit pattern lies strictly within the
/// machine epsilon of zero. Clearing the sign bit gives the pattern of the
/// absolute value, and on patterns with the sign bit clear the unsigned
/// order of the bits is the order of the doubles they denote, so the
/// comparison coincides with `|v| < epsilon` for every pattern, NaNs and
/// infinities (for which it is false) included.
pub open spec fn approx_zero(b: u64) -> bool {
    abs_bits(b) < EPSILON_BITS
}

/// A fully-populated 3-component vector; each component is the IEEE-754
/// bit pattern of a finite double.
#[derive(Debug, Clone, Copy, PartialEq, Eq, Structural)]
pub struct Coordinates {
    pub x: u64,
    pub y: u64,
    pub z: u64,
}

impl Coordinates {
    /// Whether every component lies strictly within the machine epsilon of
    /// zero.
    pub open spec fn spec_is_zero(self) -> bool {
        approx_zero(self.x) && approx_zero(self.y) && approx_zero(self.z)
    }

    /// Reports whether the vector is approximately zero: every component
    /// strictly within the machine epsilon of zero. A component at exactly
    /// the epsilon or beyond makes the answer false.
    pub fn is_zero(&self) -> (r: bool)
        ensures
            r == self.spec_is_zero(),
    {
        (self.x & SIGN_CLEAR) < EPSILON_BITS && (self.y & SIGN_CLEAR) < EPSILON_BITS && (self.z
            & SIGN_CLEAR) < EPSILON_BITS
    }
}

/// What decoding a vector from the delimited-string shape yields: exactly
/// three comma-separated tokens, each reading as a finite double once
/// trimmed; a wrong token count is `InvalidVector` and a token that does
/// not read as a finite double is `InvalidNumber`.
pub open spec fn spec_decode_vector_text(s: Seq<char>) -> Result<Coordinates, SpecError> {
    let toks = split_commas(s);
    if toks.len() != 3 {
        Err(SpecError::InvalidVector)
    } else {
        match (finite_f64_bits(trimmed(toks[0])), finite_f64_bits(trimmed(toks[1])),
        finite_f64_bits(trimmed(toks[2]))) {
            (Some(x), Some(y), Some(z)) => Ok(Coordinates { x, y, z }),
            _ => Err(SpecError::InvalidNumber),
        }
    }
}

/// What decoding a vector from the keyed-object shape yields: the keys
/// `x`, `y` and `z` each at most once (else `DuplicateField`), all three
/// present (else `MissingField`), each a number (else `TypeMismatch`);
/// every other key is ignored.
pub open spec fn spec_decode_vector_object(pairs: Seq<(String, WireValue)>) -> Result<
    Coordinates,
    SpecError,
> {
    if field_of(pairs, "x"@) == FieldSpec::Repeated {
        Err(SpecError::DuplicateField("x"@))
    } else if field_of(pairs, "y"@) == FieldSpec::Repeated {
        Err(SpecError::DuplicateField("y"@))
    } else if field_of(pairs, "z"@) == FieldSpec::Repeated {
        Err(SpecError::DuplicateField("z"@))
    } else if field_of(pairs, "x"@) == FieldSpec::Absent {
        Err(SpecError::MissingField("x"@))
    } else if field_of(pairs, "y"@) == FieldSpec::Absent {
        Err(SpecError::MissingField("y"@))
    } else if field_of(pairs, "z"@) == FieldSpec::Absent {
        Err(SpecError::MissingField("z"@))
    } else {
        match (first_value(pairs, "x"@), first_value(pairs, "y"@), first_value(pairs, "z"@)) {
            (WireValue::Num(x), WireValue::Num(y), WireValue::Num(z)) => Ok(
                Coordinates { x, y, z },
            ),
            _ => Err(SpecError::TypeMismatch),
        }
    }
}

/// What decoding a vector yields for every wire shape: the two accepted
/// shapes decode by their own rules and every other shape is
/// `UnsupportedShape`.
pub open spec fn spec_decode_vector(w: WireValue) -> Result<Coordinates, SpecError> {
    match w {
        WireValue::Text(s) => spec_decode_vector_text(s@),
        WireValue::Object(pairs) => spec_decode_vector_object(pairs@),
        _ => Err(SpecError::UnsupportedShape),
    }
}

fn decode_vector_text(s: &str) -> (r: Result<Coordinates, DecodeError>)
    ensures
        res_view(r) == spec_decode_vector_text(s@),
{
    let toks = split_commas_str(s);
    if toks.len() != 3 {
        return Err(DecodeError::InvalidVector);
    }
    let t0 = trim_spaces(toks[0].as_str());
    let t1 = trim_spaces(toks[1].as_str());
    let t2 = trim_spaces(toks[2].as_str());
    let x = parse_finite_f64(t0.as_str());
    let y = parse_finite_f64(t1.as_str());
    let z = parse_finite_f64(t2.as_str());
    match (x, y, z) {
        (Some(xb), Some(yb), Some(zb)) => Ok(Coordinates { x: xb, y: yb, z: zb }),
        _ => Err(DecodeError::InvalidNumber),
    }
}

fn decode_vector_object(pairs: &Vec<(String, WireValue)>) -> (r: Result<Coordinates, DecodeError>)
    ensures
        res_view(r) == spec_decode_vector_object(pairs@),
{
    let ix = match lookup_field(pairs, "x") {
        Lookup::Repeated => {
            return Err(DecodeError::DuplicateField(String::from_str("x")));
        },
        Lookup::Absent => None,
        Lookup::At(i) => Some(i),
    };
    let iy = match lookup_field(pairs, "y") {
        Lookup::Repeated => {
            return Err(DecodeError::DuplicateField(String::from_str("y")));
        },
        Lookup::Absent => None,
        Lookup::At(i) => Some(i),
    };
    let iz = match lookup_field(pairs, "z") {
        Lookup::Repeated => {
            return Err(DecodeError::DuplicateField(String::from_str("z")));
        },
        Lookup::Absent => None,
        Lookup::At(i) => Some(i),
    };
    let ix = match ix {
        Some(i) => i,
        None => {
            return Err(DecodeError::MissingField(String::from_str("x")));
        },
    };
    let iy = match iy {
        Some(i) => i,
        None => {
            return Err(DecodeError::MissingField(String::from_str("y")));
        },
    };
    let iz = match iz {
        Some(i) => i,
        None => {
            return Err(DecodeError::MissingField(String::from_str("z")));
        },
    };
    match (&pairs[ix].1, &pairs[iy].1, &pairs[iz].1) {
        (WireValue::Num(x), WireValue::Num(y), WireValue::Num(z)) => Ok(
            Coordinates { x: *x, y: *y, z: *z },
        ),
        _ => Err(DecodeError::TypeMismatch),
    }
}

/// Decodes a vector from either accepted wire shape.
pub fn decode_vector(w: &WireValue) -> (r: Result<Coordinates, DecodeError>)
    ensures
        res_view(r) == spec_decode_vector(*w),
{
    match w {
        WireValue::Text(s) => decode_vector_text(s.as_str()),
        WireValue::Object(pairs) => decode_vector_object(pairs),
        _ => Err(DecodeError::UnsupportedShape),
    }
}

/// The canonical wire shape of a vector: the object with the keys `x`,
/// `y`, `z` in that order, each holding the component as a number.
pub open spec fn is_vector_object_form(w: WireValue, c: Coordinates) -> bool {
    match w {
        WireValue::Object(pairs) => pairs@.len() == 3 && pairs@[0].0@ == "x"@ && pairs@[0].1
            == WireValue::Num(c.x) && pairs@[1].0@ == "y"@ && pairs@[1].1 == WireValue::Num(c.y)
            && pairs@[2].0@ == "z"@ && pairs@[2].1 == WireValue::Num(c.z),
        _ => false,
    }
}

/// Encodes a vector; the output is always the keyed-object shape,
/// whichever shape was decoded.
pub fn encode_vector(c: &Coordinates) -> (r: WireValue)
    ensures
        is_vector_object_form(r, *c),
{
    let mut pairs: Vec<(String, WireValue)> = Vec::new();
    pairs.push((String::from_str("x"), WireValue::Num(c.x)));
    pairs.push((String::from_str("y"), WireValue::Num(c.y)));
    pairs.push((String::from_str("z"), WireValue::Num(c.z)));
    WireValue::Object(pairs)
}

/// A key's count and first value in a three-pair object, written out.
proof fn lemma_key_scan3(pairs: Seq<(String, WireValue)>, k: Seq<char>)
    requires
        pairs.len() == 3,
    ensures
        key_count(pairs, k) == (if pairs[0].0@ == k {
            1nat
        } else {
            0nat
        }) + (if pairs[1].0@ == k {
            1nat
        } else {
            0nat
        }) + (if pairs[2].0@ == k {
            1nat
        } else {
            0nat
        }),
        first_value(pairs, k) == (if pairs[0].0@ == k {
            pairs[0].1
        } else if pairs[1].0@ == k {
            pairs[1].1
        } else if pairs[2].0@ == k {
            pairs[2].1
        } else {
            WireValue::Null
        }),
{
    reveal_with_fuel(key_count, 5);
    reveal_with_fuel(first_value, 5);
    assert(pairs.drop_first()[0] == pairs[1]);
    assert(pairs.drop_first().drop_first()[0] == pairs[2]);
    assert(pairs.drop_first().drop_first().drop_first().len() == 0);
}

/// Round-trip law: decoding the canonical object encoding of any vector
/// yields that vector back.
pub proof fn lemma_vector_round_trip(w: WireValue, c: Coordinates)
    requires
        is_vector_object_form(w, c),
    ensures
        spec_decode_vector(w) == Ok::<Coordinates, SpecError>(c),
{
    reveal_strlit("x");
    reveal_strlit("y");
    reveal_strlit("z");
    let pairs = w.obj_pairs();
    assert("x"@[0] == 'x' && "y"@[0] == 'y' && "z"@[0] == 'z');
    assert("x"@ != "y"@ && "x"@ != "z"@ && "y"@ != "z"@);
    lemma_key_scan3(pairs, "x"@);
    lemma_key_scan3(pairs, "y"@);
    lemma_key_scan3(pairs, "z"@);
    assert(spec_decode_vector(w) == Ok::<Coordinates, SpecError>(Coordinates { x: c.x, y: c.y, z: c.z }));
}

/// Forward-compatibility law: a pair under any key other than `x`, `y` and
/// `z`, inserted anywhere into the object shape, leaves the decode of a
/// vector unchanged.
pub proof fn lemma_vector_ignores_unknown_key(
    w1: WireValue,
    w2: WireValue,
    i: int,
    q: (String, WireValue),
)
    requires
        w1 is Object,
        w2 is Object,
        0 <= i <= w1.obj_pairs().len(),
        w2.obj_pairs() == w1.obj_pairs().insert(i, q),
        q.0@ != "x"@,
        q.0@ != "y"@,
        q.0@ != "z"@,
    ensures
        spec_decode_vector(w2) == spec_decode_vector(w1),
{
    lemma_field_insert_other(w1.obj_pairs(), i, q, "x"@);
    lemma_field_insert_other(w1.obj_pairs(), i, q, "y"@);
    lemma_field_insert_other(w1.obj_pairs(), i, q, "z"@);
}

} // verus!
