//! The wire model: a JSON-like value as it reaches or leaves the codecs.
//!
//! Numbers are carried as the IEEE-754 bit pattern of the finite double
//! they denote. An object is an ordered list of key/value pairs, so that a
//! key arriving twice is still visible to the codecs and can be rejected.
//! `NumStr` is a number that travels as the decimal string rendering of its
//! value: the canonical output shape of a numeric-as-string field. The
//! transport glue turns real JSON text into these values and back.

use vstd::prelude::*;

use crate::text::str_eq;

verus! {

/// One JSON-like wire value.
#[derive(Debug, PartialEq)]
pub enum WireValue {
    Null,
    Bool(bool),
    /// A JSON number, as the bit pattern of the finite double it denotes.
    Num(u64),
    /// A non-negative integer number node, serialized by the transport as
    /// a plain integer JSON number; the canonical encoding of an integer
    /// field.
    IntNum(u64),
    /// A number that travels as a JSON string holding its decimal
    /// rendering; the canonical encoding of a numeric-as-string field.
    NumStr(u64),
    /// A JSON string.
    Text(String),
    /// A JSON array.
    List(Vec<WireValue>),
    /// A JSON object: its key/value pairs in wire order, duplicates kept.
    Object(Vec<(String, WireValue)>),
}

impl WireValue {
    /// The pairs of an object value; empty for any other shape.
    pub open spec fn obj_pairs(self) -> Seq<(String, WireValue)> {
        match self {
            WireValue::Object(pairs) => pairs@,
            _ => Seq::empty(),
        }
    }
}

/// How often the key occurs among the pairs.
pub open spec fn key_count(pairs: Seq<(String, WireValue)>, k: Seq<char>) -> nat
    decreases pairs.len(),
{
    if pairs.len() == 0 {
        0
    } else {
        (if pairs[0].0@ == k {
            1nat
        } else {
            0nat
        }) + key_count(pairs.drop_first(), k)
    }
}

/// The value of the key's first occurrence; `Null` when the key is absent.
pub open spec fn first_value(pairs: Seq<(String, WireValue)>, k: Seq<char>) -> WireValue
    decreases pairs.len(),
{
    if pairs.len() == 0 {
        WireValue::Null
    } else if pairs[0].0@ == k {
        pairs[0].1
    } else {
        first_value(pairs.drop_first(), k)
    }
}

/// What an object holds under one key: nothing, exactly one value, or a
/// repeated key.
pub enum FieldSpec {
    Absent,
    Present(WireValue),
    Repeated,
}

/// The key's standing among the pairs.
pub open spec fn field_of(pairs: Seq<(String, WireValue)>, k: Seq<char>) -> FieldSpec {
    if key_count(pairs, k) >= 2 {
        FieldSpec::Repeated
    } else if key_count(pairs, k) == 1 {
        FieldSpec::Present(first_value(pairs, k))
    } else {
        FieldSpec::Absent
    }
}

/// The outcome of an executable key lookup: the index found points at the
/// key's only occurrence.
pub enum Lookup {
    Absent,
    At(usize),
    Repeated,
}

/// Scans the pairs for a key that must appear at most once.
pub fn lookup_field(pairs: &Vec<(String, WireValue)>, k: &str) -> (r: Lookup)
    ensures
        (r == Lookup::Absent) <==> (field_of(pairs@, k@) == FieldSpec::Absent),
        (r == Lookup::Repeated) <==> (field_of(pairs@, k@) == FieldSpec::Repeated),
        r matches Lookup::At(i) ==> i < pairs@.len() && field_of(pairs@, k@)
            == FieldSpec::Present(pairs@[i as int].1),
{
    let ghost all = pairs@;
    proof {
        assert(all.skip(0) =~= all);
    }
    let mut i: usize = 0;
    let mut found: Option<usize> = None;
    while i < pairs.len()
        invariant
            0 <= i <= all.len(),
            all == pairs@,
            key_count(all, k@) == (match found {
                Option::None => 0nat,
                Option::Some(_) => 1nat,
            }) + key_count(all.skip(i as int), k@),
            found matches Option::Some(j) ==> j < i && all[j as int].0@ == k@ && all[j as int].1
                == first_value(all, k@),
            found is None ==> first_value(all, k@) == first_value(all.skip(i as int), k@),
        decreases all.len() - i,
    {
        proof {
            assert(all.skip(i as int).len() > 0);
            assert(all.skip(i as int)[0] == all[i as int]);
            assert(all.skip(i as int).drop_first() =~= all.skip(i as int + 1));
        }
        if str_eq(pairs[i].0.as_str(), k) {
            if found.is_some() {
                proof {
                    assert(key_count(all.skip(i as int), k@) >= 1);
                }
                return Lookup::Repeated;
            }
            found = Some(i);
        }
        i += 1;
    }
    proof {
        assert(all.skip(all.len() as int) =~= Seq::<(String, WireValue)>::empty());
    }
    match found {
        Option::None => Lookup::Absent,
        Option::Some(j) => Lookup::At(j),
    }
}

/// A key no pair carries is absent.
pub proof fn lemma_field_of_absent(pairs: Seq<(String, WireValue)>, k: Seq<char>)
    requires
        forall|j: int| 0 <= j < pairs.len() ==> (#[trigger] pairs[j].0)@ != k,
    ensures
        key_count(pairs, k) == 0,
        field_of(pairs, k) == FieldSpec::Absent,
    decreases pairs.len(),
{
    if pairs.len() > 0 {
        assert(pairs[0].0@ != k);
        assert(forall|j: int|
            0 <= j < pairs.drop_first().len() ==> (#[trigger] pairs.drop_first()[j].0)@ != k);
        lemma_field_of_absent(pairs.drop_first(), k);
    }
}

/// A key exactly one pair carries is present with that pair's value.
pub proof fn lemma_field_of_unique(pairs: Seq<(String, WireValue)>, k: Seq<char>, i: int)
    requires
        0 <= i < pairs.len(),
        pairs[i].0@ == k,
        forall|j: int| 0 <= j < pairs.len() && j != i ==> (#[trigger] pairs[j].0)@ != k,
    ensures
        key_count(pairs, k) == 1,
        first_value(pairs, k) == pairs[i].1,
        field_of(pairs, k) == FieldSpec::Present(pairs[i].1),
    decreases pairs.len(),
{
    if i == 0 {
        assert(forall|j: int|
            0 <= j < pairs.drop_first().len() ==> (#[trigger] pairs.drop_first()[j].0)@ != k);
        lemma_field_of_absent(pairs.drop_first(), k);
    } else {
        assert(pairs[0].0@ != k);
        assert(pairs.drop_first()[i - 1] == pairs[i]);
        assert(forall|j: int|
            0 <= j < pairs.drop_first().len() && j != i - 1 ==> (#[trigger] pairs.drop_first()[j].0)@
                != k);
        lemma_field_of_unique(pairs.drop_first(), k, i - 1);
    }
}

/// A key's standing and first value are untouched by a pair inserted under
/// a different key, at any position.
pub proof fn lemma_field_insert_other(
    pairs: Seq<(String, WireValue)>,
    i: int,
    q: (String, WireValue),
    k: Seq<char>,
)
    requires
        0 <= i <= pairs.len(),
        q.0@ != k,
    ensures
        key_count(pairs.insert(i, q), k) == key_count(pairs, k),
        first_value(pairs.insert(i, q), k) == first_value(pairs, k),
        field_of(pairs.insert(i, q), k) == field_of(pairs, k),
    decreases pairs.len(),
{
    let bigger = pairs.insert(i, q);
    if i == 0 {
        assert(bigger[0] == q);
        assert(bigger.drop_first() =~= pairs);
    } else {
        assert(bigger[0] == pairs[0]);
        assert(bigger.drop_first() =~= pairs.drop_first().insert(i - 1, q));
        lemma_field_insert_other(pairs.drop_first(), i - 1, q, k);
    }
}

} // verus!
