//! The grenade record: a thrown grenade's owner, lifetime, optional
//! position and velocity vectors, category, optional effect time, and the
//! optional map from flame identifiers to flame positions.

use vstd::prelude::*;

use crate::coordinates::Coordinates;
use crate::coordinates::decode_vector;
use crate::coordinates::encode_vector;
use crate::coordinates::is_vector_object_form;
use crate::coordinates::spec_decode_vector;
use crate::error::DecodeError;
use crate::error::SpecError;
use crate::error::res_view;
use crate::fields::get_opt_num_str_field;
use crate::fields::get_opt_vector_field;
use crate::fields::get_num_str_field;
use crate::fields::get_str_field;
use crate::fields::num_str_field;
use crate::fields::opt_num_str_field;
use crate::fields::opt_vector_field;
use crate::fields::str_field;
use crate::text::str_eq;
use crate::wire::FieldSpec;
use crate::wire::Lookup;
use crate::wire::WireValue;
use crate::wire::field_of;
use crate::wire::lemma_field_insert_other;
use crate::wire::lookup_field;

verus! {

/// The grenade category vocabulary; closed, with no fallback.
#[derive(Debug, Clone, Copy, PartialEq, Eq, Structural)]
pub enum GrenadeType {
    Frag,
    Smoke,
    Decoy,
    Inferno,
    Firebomb,
    Flashbang,
}

impl GrenadeType {
    /// The display string of each category on the wire.
    pub open spec fn wire_name(self) -> Seq<char> {
        match self {
            GrenadeType::Frag => "frag"@,
            GrenadeType::Smoke => "smoke"@,
            GrenadeType::Decoy => "decoy"@,
            GrenadeType::Inferno => "inferno"@,
            GrenadeType::Firebomb => "firebomb"@,
            GrenadeType::Flashbang => "flashbang"@,
        }
    }

    /// The category a wire token names, if any.
    pub open spec fn from_wire(s: Seq<char>) -> Option<GrenadeType> {
        if s == "frag"@ {
            Some(GrenadeType::Frag)
        } else if s == "smoke"@ {
            Some(GrenadeType::Smoke)
        } else if s == "decoy"@ {
            Some(GrenadeType::Decoy)
        } else if s == "inferno"@ {
            Some(GrenadeType::Inferno)
        } else if s == "firebomb"@ {
            Some(GrenadeType::Firebomb)
        } else if s == "flashbang"@ {
            Some(GrenadeType::Flashbang)
        } else {
            Option::None
        }
    }

    /// Reads a category token.
    pub fn parse_wire(s: &str) -> (r: Option<GrenadeType>)
        ensures
            r == GrenadeType::from_wire(s@),
    {
        if str_eq(s, "frag") {
            Some(GrenadeType::Frag)
        } else if str_eq(s, "smoke") {
            Some(GrenadeType::Smoke)
        } else if str_eq(s, "decoy") {
            Some(GrenadeType::Decoy)
        } else if str_eq(s, "inferno") {
            Some(GrenadeType::Inferno)
        } else if str_eq(s, "firebomb") {
            Some(GrenadeType::Firebomb)
        } else if str_eq(s, "flashbang") {
            Some(GrenadeType::Flashbang)
        } else {
            None
        }
    }

    /// Renders the category's display string.
    pub fn to_wire(&self) -> (r: String)
        ensures
            r@ == self.wire_name(),
    {
        match self {
            GrenadeType::Frag => String::from_str("frag"),
            GrenadeType::Smoke => String::from_str("smoke"),
            GrenadeType::Decoy => String::from_str("decoy"),
            GrenadeType::Inferno => String::from_str("inferno"),
            GrenadeType::Firebomb => String::from_str("firebomb"),
            GrenadeType::Flashbang => String::from_str("flashbang"),
        }
    }

    /// Vocabulary round trip: reading back a rendered display string
    /// yields the same category.
    pub proof fn lemma_wire_round_trip(v: GrenadeType)
        ensures
            GrenadeType::from_wire(v.wire_name()) == Some(v),
    {
        reveal_strlit("frag");
        reveal_strlit("smoke");
        reveal_strlit("decoy");
        reveal_strlit("inferno");
        reveal_strlit("firebomb");
        reveal_strlit("flashbang");
        assert("frag"@.len() == 4 && "frag"@[0] == 'f');
        assert("smoke"@.len() == 5 && "smoke"@[0] == 's');
        assert("decoy"@.len() == 5 && "decoy"@[0] == 'd');
        assert("inferno"@.len() == 7 && "inferno"@[0] == 'i');
        assert("firebomb"@.len() == 8 && "firebomb"@[0] == 'f');
        assert("flashbang"@.len() == 9 && "flashbang"@[0] == 'f');
    }
}

/// Information about a thrown grenade.
#[derive(Debug, Clone, PartialEq)]
pub struct Grenade {
    /// SteamID64 of the player that threw the grenade.
    pub owner: String,
    /// Seconds since the throw; numeric-as-string on the wire.
    pub lifetime: u64,
    pub position: Option<Coordinates>,
    pub velocity: Option<Coordinates>,
    /// Grenade category; the wire key is `type`.
    pub grenade_type: GrenadeType,
    /// Seconds the effect has run; the wire key is `effecttime`.
    pub effect_time: Option<u64>,
    /// Flame positions of an inferno, keyed by flame identifier; keys are
    /// unique.
    pub flames: Option<Vec<(String, Coordinates)>>,
}

/// The mathematical image of a grenade record, with the owner as a
/// character sequence and the flame map as a sequence of key/position
/// pairs.
pub struct GrenadeSpec {
    pub owner: Seq<char>,
    pub lifetime: u64,
    pub position: Option<Coordinates>,
    pub velocity: Option<Coordinates>,
    pub grenade_type: GrenadeType,
    pub effect_time: Option<u64>,
    pub flames: Option<Seq<(Seq<char>, Coordinates)>>,
}

impl View for Grenade {
    type V = GrenadeSpec;

    open spec fn view(&self) -> GrenadeSpec {
        GrenadeSpec {
            owner: self.owner@,
            lifetime: self.lifetime,
            position: self.position,
            velocity: self.velocity,
            grenade_type: self.grenade_type,
            effect_time: self.effect_time,
            flames: match self.flames {
                Some(v) => Some(v@.map_values(|pr: (String, Coordinates)| (pr.0@, pr.1))),
                Option::None => Option::None,
            },
        }
    }
}

/// The category field: mandatory, closed vocabulary, no fallback.
pub open spec fn grenade_type_field(pairs: Seq<(String, WireValue)>, k: Seq<char>) -> Result<
    GrenadeType,
    SpecError,
> {
    match field_of(pairs, k) {
        FieldSpec::Repeated => Err(SpecError::DuplicateField(k)),
        FieldSpec::Absent => Err(SpecError::MissingField(k)),
        FieldSpec::Present(v) => match v {
            WireValue::Text(s) => match GrenadeType::from_wire(s@) {
                Some(t) => Ok(t),
                Option::None => Err(SpecError::UnknownVariant(s@)),
            },
            _ => Err(SpecError::TypeMismatch),
        },
    }
}

fn get_grenade_type_field(pairs: &Vec<(String, WireValue)>, k: &str) -> (r: Result<
    GrenadeType,
    DecodeError,
>)
    ensures
        res_view(r) == grenade_type_field(pairs@, k@),
{
    match lookup_field(pairs, k) {
        Lookup::Repeated => Err(DecodeError::DuplicateField(String::from_str(k))),
        Lookup::Absent => Err(DecodeError::MissingField(String::from_str(k))),
        Lookup::At(i) => match &pairs[i].1 {
            WireValue::Text(s) => match GrenadeType::parse_wire(s.as_str()) {
                Some(t) => Ok(t),
                None => Err(DecodeError::UnknownVariant(s.clone())),
            },
            _ => Err(DecodeError::TypeMismatch),
        },
    }
}

/// What decoding the flame map's pairs yields, scanning in wire order
/// with the entries read so far at hand: a key seen before is
/// `DuplicateField`, and every value must decode as a vector.
pub open spec fn spec_decode_flames_from(
    pairs: Seq<(String, WireValue)>,
    acc: Seq<(String, Coordinates)>,
) -> Result<Seq<(String, Coordinates)>, SpecError>
    decreases pairs.len(),
{
    if pairs.len() == 0 {
        Ok(acc)
    } else if exists|j: int| 0 <= j < acc.len() && acc[j].0@ == pairs[0].0@ {
        Err(SpecError::DuplicateField(pairs[0].0@))
    } else {
        match spec_decode_vector(pairs[0].1) {
            Ok(c) => spec_decode_flames_from(pairs.drop_first(), acc.push((pairs[0].0, c))),
            Err(e) => Err(e),
        }
    }
}

fn flames_key_seen(acc: &Vec<(String, Coordinates)>, k: &str) -> (r: bool)
    ensures
        r == exists|j: int| 0 <= j < acc@.len() && acc@[j].0@ == k@,
{
    let mut i: usize = 0;
    while i < acc.len()
        invariant
            0 <= i <= acc@.len(),
            forall|j: int| 0 <= j < i ==> acc@[j].0@ != k@,
        decreases acc@.len() - i,
    {
        if str_eq(acc[i].0.as_str(), k) {
            return true;
        }
        i += 1;
    }
    false
}

fn decode_flames(pairs: &Vec<(String, WireValue)>) -> (r: Result<
    Vec<(String, Coordinates)>,
    DecodeError,
>)
    ensures
        (match r {
            Ok(v) => spec_decode_flames_from(pairs@, Seq::empty()) == Ok::<
                Seq<(String, Coordinates)>,
                SpecError,
            >(v@),
            Err(e) => spec_decode_flames_from(pairs@, Seq::empty()) == Err::<
                Seq<(String, Coordinates)>,
                SpecError,
            >(e@),
        }),
{
    let mut acc: Vec<(String, Coordinates)> = Vec::new();
    proof {
        assert(pairs@.skip(0) =~= pairs@);
        assert(acc@ =~= Seq::<(String, Coordinates)>::empty());
    }
    let mut i: usize = 0;
    while i < pairs.len()
        invariant
            0 <= i <= pairs@.len(),
            spec_decode_flames_from(pairs@, Seq::empty()) == spec_decode_flames_from(
                pairs@.skip(i as int),
                acc@,
            ),
        decreases pairs@.len() - i,
    {
        proof {
            assert(pairs@.skip(i as int)[0] == pairs@[i as int]);
            assert(pairs@.skip(i as int).drop_first() =~= pairs@.skip(i as int + 1));
        }
        if flames_key_seen(&acc, pairs[i].0.as_str()) {
            return Err(DecodeError::DuplicateField(pairs[i].0.clone()));
        }
        match decode_vector(&pairs[i].1) {
            Ok(c) => {
                acc.push((pairs[i].0.clone(), c));
            },
            Err(e) => {
                return Err(e);
            },
        }
        i += 1;
    }
    proof {
        assert(pairs@.skip(pairs@.len() as int) =~= Seq::<(String, WireValue)>::empty());
    }
    Ok(acc)
}

/// The optional flame-map field: absent yields nothing, an object decodes
/// entry by entry, and any other shape is `TypeMismatch`.
pub open spec fn opt_flames_field(pairs: Seq<(String, WireValue)>, k: Seq<char>) -> Result<
    Option<Seq<(Seq<char>, Coordinates)>>,
    SpecError,
> {
    match field_of(pairs, k) {
        FieldSpec::Repeated => Err(SpecError::DuplicateField(k)),
        FieldSpec::Absent => Ok(Option::None),
        FieldSpec::Present(v) => match v {
            WireValue::Null => Ok(Option::None),
            WireValue::Object(pp) => match spec_decode_flames_from(pp@, Seq::empty()) {
                Ok(fl) => Ok(Some(fl.map_values(|pr: (String, Coordinates)| (pr.0@, pr.1)))),
                Err(e) => Err(e),
            },
            _ => Err(SpecError::TypeMismatch),
        },
    }
}

fn get_opt_flames_field(pairs: &Vec<(String, WireValue)>, k: &str) -> (r: Result<
    Option<Vec<(String, Coordinates)>>,
    DecodeError,
>)
    ensures
        (match r {
            Ok(v) => opt_flames_field(pairs@, k@) == Ok::<
                Option<Seq<(Seq<char>, Coordinates)>>,
                SpecError,
            >(
                match v {
                    Some(fl) => Some(fl@.map_values(|pr: (String, Coordinates)| (pr.0@, pr.1))),
                    Option::None => Option::None,
                },
            ),
            Err(e) => opt_flames_field(pairs@, k@) == Err::<
                Option<Seq<(Seq<char>, Coordinates)>>,
                SpecError,
            >(e@),
        }),
{
    match lookup_field(pairs, k) {
        Lookup::Repeated => Err(DecodeError::DuplicateField(String::from_str(k))),
        Lookup::Absent => Ok(None),
        Lookup::At(i) => match &pairs[i].1 {
            WireValue::Null => Ok(None),
            WireValue::Object(pp) => match decode_flames(pp) {
                Ok(fl) => Ok(Some(fl)),
                Err(e) => Err(e),
            },
            _ => Err(DecodeError::TypeMismatch),
        },
    }
}

/// What decoding a grenade record yields, field by field in a fixed
/// order: `owner` as a mandatory string, `lifetime` as a mandatory
/// numeric-as-string, optional `position` and `velocity` vectors, the
/// mandatory `type` category, the optional `effecttime`, and the optional
/// `flames` map. Unknown keys are ignored.
pub open spec fn spec_decode_grenade(w: WireValue) -> Result<GrenadeSpec, SpecError> {
    match w {
        WireValue::Object(pairs) => {
            let p = pairs@;
            match str_field(p, "owner"@) {
                Err(e) => Err(e),
                Ok(owner) => match num_str_field(p, "lifetime"@) {
                    Err(e) => Err(e),
                    Ok(lifetime) => match opt_vector_field(p, "position"@) {
                        Err(e) => Err(e),
                        Ok(position) => match opt_vector_field(p, "velocity"@) {
                            Err(e) => Err(e),
                            Ok(velocity) => match grenade_type_field(p, "type"@) {
                                Err(e) => Err(e),
                                Ok(grenade_type) => match opt_num_str_field(p, "effecttime"@) {
                                    Err(e) => Err(e),
                                    Ok(effect_time) => match opt_flames_field(p, "flames"@) {
                                        Err(e) => Err(e),
                                        Ok(flames) => Ok(
                                            GrenadeSpec {
                                                owner: owner@,
                                                lifetime,
                                                position,
                                                velocity,
                                                grenade_type,
                                                effect_time,
                                                flames,
                                            },
                                        ),
                                    },
                                },
                            },
                        },
                    },
                },
            }
        },
        _ => Err(SpecError::TypeMismatch),
    }
}

/// Decodes a grenade record.
pub fn decode_grenade(w: &WireValue) -> (r: Result<Grenade, DecodeError>)
    ensures
        (match r {
            Ok(g) => spec_decode_grenade(*w) == Ok::<GrenadeSpec, SpecError>(g@),
            Err(e) => spec_decode_grenade(*w) == Err::<GrenadeSpec, SpecError>(e@),
        }),
{
    let pairs = match w {
        WireValue::Object(pairs) => pairs,
        _ => {
            return Err(DecodeError::TypeMismatch);
        },
    };
    let owner = match get_str_field(pairs, "owner") {
        Ok(v) => v,
        Err(e) => {
            return Err(e);
        },
    };
    let lifetime = match get_num_str_field(pairs, "lifetime") {
        Ok(v) => v,
        Err(e) => {
            return Err(e);
        },
    };
    let position = match get_opt_vector_field(pairs, "position") {
        Ok(v) => v,
        Err(e) => {
            return Err(e);
        },
    };
    let velocity = match get_opt_vector_field(pairs, "velocity") {
        Ok(v) => v,
        Err(e) => {
            return Err(e);
        },
    };
    let grenade_type = match get_grenade_type_field(pairs, "type") {
        Ok(v) => v,
        Err(e) => {
            return Err(e);
        },
    };
    let effect_time = match get_opt_num_str_field(pairs, "effecttime") {
        Ok(v) => v,
        Err(e) => {
            return Err(e);
        },
    };
    let flames = match get_opt_flames_field(pairs, "flames") {
        Ok(v) => v,
        Err(e) => {
            return Err(e);
        },
    };
    Ok(Grenade { owner, lifetime, position, velocity, grenade_type, effect_time, flames })
}

/// The canonical wire shape of a grenade record: one object with its
/// seven fields in a fixed order; absent optional values are carried as
/// `Null`, vectors in their object shape, and the flame map as an object
/// of vector objects in its stored order.
pub open spec fn is_grenade_wire_form(w: WireValue, g: Grenade) -> bool {
    match w {
        WireValue::Object(pairs) => {
            let p = pairs@;
            p.len() == 7 && p[0].0@ == "owner"@ && p[0].1 == WireValue::Text(g.owner) && p[1].0@
                == "lifetime"@ && p[1].1 == WireValue::NumStr(g.lifetime) && p[2].0@ == "position"@
                && opt_vector_wire(p[2].1, g.position) && p[3].0@ == "velocity"@ && opt_vector_wire(
                p[3].1,
                g.velocity,
            ) && p[4].0@ == "type"@ && (p[4].1 matches WireValue::Text(s) && s@
                == g.grenade_type.wire_name()) && p[5].0@ == "effecttime"@ && p[5].1 == (match g
                .effect_time {
                Some(b) => WireValue::NumStr(b),
                Option::None => WireValue::Null,
            }) && p[6].0@ == "flames"@ && (match g.flames {
                Some(fl) => flames_wire(p[6].1, fl@),
                Option::None => p[6].1 == WireValue::Null,
            })
        },
        _ => false,
    }
}

/// An optional vector as it stands in canonical output.
pub open spec fn opt_vector_wire(v: WireValue, o: Option<Coordinates>) -> bool {
    match o {
        Some(c) => is_vector_object_form(v, c),
        Option::None => v == WireValue::Null,
    }
}

/// The flame map as it stands in canonical output: one object pair per
/// entry, in order, each holding the position's vector object.
pub open spec fn flames_wire(v: WireValue, fl: Seq<(String, Coordinates)>) -> bool {
    match v {
        WireValue::Object(pp) => pp@.len() == fl.len() && forall|j: int|
            0 <= j < fl.len() ==> #[trigger] pp@[j].0@ == fl[j].0@ && is_vector_object_form(
                pp@[j].1,
                fl[j].1,
            ),
        _ => false,
    }
}

fn encode_opt_vector(o: &Option<Coordinates>) -> (r: WireValue)
    ensures
        opt_vector_wire(r, *o),
{
    match o {
        Some(c) => encode_vector(c),
        None => WireValue::Null,
    }
}

fn encode_flames(fl: &Vec<(String, Coordinates)>) -> (r: WireValue)
    ensures
        flames_wire(r, fl@),
{
    let mut pp: Vec<(String, WireValue)> = Vec::new();
    let mut i: usize = 0;
    while i < fl.len()
        invariant
            0 <= i <= fl@.len(),
            pp@.len() == i,
            forall|j: int|
                0 <= j < i ==> #[trigger] pp@[j].0@ == fl@[j].0@ && is_vector_object_form(
                    pp@[j].1,
                    fl@[j].1,
                ),
        decreases fl@.len() - i,
    {
        pp.push((fl[i].0.clone(), encode_vector(&fl[i].1)));
        i += 1;
    }
    WireValue::Object(pp)
}

/// Encodes a grenade record into its canonical wire shape.
pub fn encode_grenade(g: &Grenade) -> (r: WireValue)
    ensures
        is_grenade_wire_form(r, *g),
{
    let mut pairs: Vec<(String, WireValue)> = Vec::new();
    pairs.push((String::from_str("owner"), WireValue::Text(g.owner.clone())));
    pairs.push((String::from_str("lifetime"), WireValue::NumStr(g.lifetime)));
    pairs.push((String::from_str("position"), encode_opt_vector(&g.position)));
    pairs.push((String::from_str("velocity"), encode_opt_vector(&g.velocity)));
    pairs.push((String::from_str("type"), WireValue::Text(g.grenade_type.to_wire())));
    let effect = match &g.effect_time {
        Some(b) => WireValue::NumStr(*b),
        None => WireValue::Null,
    };
    pairs.push((String::from_str("effecttime"), effect));
    let flames = match &g.flames {
        Some(fl) => encode_flames(fl),
        None => WireValue::Null,
    };
    pairs.push((String::from_str("flames"), flames));
    WireValue::Object(pairs)
}

/// Forward-compatibility law: a pair under any key other than the grenade
/// record's seven, inserted anywhere, leaves the decode unchanged.
pub proof fn lemma_grenade_ignores_unknown_key(
    w1: WireValue,
    w2: WireValue,
    i: int,
    q: (String, WireValue),
)
    requires
        w1 is Object,
        w2 is Object,
        0 <= i <= w1.obj_pairs().len(),
        w2.obj_pairs() == w1.obj_pairs().insert(i, q),
        q.0@ != "owner"@,
        q.0@ != "lifetime"@,
        q.0@ != "position"@,
        q.0@ != "velocity"@,
        q.0@ != "type"@,
        q.0@ != "effecttime"@,
        q.0@ != "flames"@,
    ensures
        spec_decode_grenade(w2) == spec_decode_grenade(w1),
{
    lemma_field_insert_other(w1.obj_pairs(), i, q, "owner"@);
    lemma_field_insert_other(w1.obj_pairs(), i, q, "lifetime"@);
    lemma_field_insert_other(w1.obj_pairs(), i, q, "position"@);
    lemma_field_insert_other(w1.obj_pairs(), i, q, "velocity"@);
    lemma_field_insert_other(w1.obj_pairs(), i, q, "type"@);
    lemma_field_insert_other(w1.obj_pairs(), i, q, "effecttime"@);
    lemma_field_insert_other(w1.obj_pairs(), i, q, "flames"@);
}


/// Flame-map keys are pairwise distinct: the invariant every decoded
/// flame map satisfies.
pub open spec fn flames_keys_unique(fl: Seq<(String, Coordinates)>) -> bool {
    forall|j1: int, j2: int|
        #![trigger fl[j1], fl[j2]]
        0 <= j1 < j2 < fl.len() ==> fl[j1].0@ != fl[j2].0@
}

proof fn lemma_flames_decode_round_trip(
    pp: Seq<(String, WireValue)>,
    fl: Seq<(String, Coordinates)>,
    acc: Seq<(String, Coordinates)>,
)
    requires
        pp.len() == fl.len(),
        forall|j: int|
            #![trigger pp[j]]
            0 <= j < fl.len() ==> pp[j].0@ == fl[j].0@ && is_vector_object_form(pp[j].1, fl[j].1),
        flames_keys_unique(fl),
        forall|i: int, j: int|
            #![trigger acc[i], fl[j]]
            0 <= i < acc.len() && 0 <= j < fl.len() ==> acc[i].0@ != fl[j].0@,
    ensures
        spec_decode_flames_from(pp, acc) matches Ok(res) && res.map_values(
            |pr: (String, Coordinates)| (pr.0@, pr.1),
        ) == acc.map_values(|pr: (String, Coordinates)| (pr.0@, pr.1)) + fl.map_values(
            |pr: (String, Coordinates)| (pr.0@, pr.1),
        ),
    decreases pp.len(),
{
    let f = |pr: (String, Coordinates)| (pr.0@, pr.1);
    if pp.len() == 0 {
        assert(acc.map_values(f) + fl.map_values(f) =~= acc.map_values(f));
    } else {
        assert(forall|i: int| 0 <= i < acc.len() ==> (#[trigger] acc[i]).0@ != fl[0].0@);
        assert(pp[0].0@ == fl[0].0@);
        assert(!(exists|j: int| 0 <= j < acc.len() && acc[j].0@ == pp[0].0@));
        crate::coordinates::lemma_vector_round_trip(pp[0].1, fl[0].1);
        let acc2 = acc.push((pp[0].0, fl[0].1));
        let pp2 = pp.drop_first();
        let fl2 = fl.drop_first();
        assert(forall|j: int|
            0 <= j < fl2.len() ==> #[trigger] pp2[j] == pp[j + 1] && fl2[j] == fl[j + 1]);
        assert(flames_keys_unique(fl2)) by {
            assert(forall|j1: int, j2: int|
                #![trigger fl2[j1], fl2[j2]]
                0 <= j1 < j2 < fl2.len() ==> fl[j1 + 1].0@ != fl[j2 + 1].0@);
        }
        assert(forall|i: int, j: int|
            #![trigger acc2[i], fl2[j]]
            0 <= i < acc2.len() && 0 <= j < fl2.len() ==> acc2[i].0@ != fl2[j].0@) by {
            assert(forall|j: int| 0 <= j < fl2.len() ==> #[trigger] fl2[j] == fl[j + 1]);
            assert(forall|j: int| 0 <= j < fl2.len() ==> fl[0].0@ != (#[trigger] fl2[j]).0@);
        }
        lemma_flames_decode_round_trip(pp2, fl2, acc2);
        assert(acc2.map_values(f) =~= acc.map_values(f).push((fl[0].0@, fl[0].1)));
        assert(fl.map_values(f) =~= seq![(fl[0].0@, fl[0].1)] + fl2.map_values(f));
        assert(acc.map_values(f) + fl.map_values(f) =~= acc2.map_values(f) + fl2.map_values(f));
    }
}

/// Round-trip law: decoding the canonical encoding of any grenade record
/// whose flame-map keys are distinct yields that record back.
pub proof fn lemma_grenade_round_trip(w: WireValue, g: Grenade)
    requires
        is_grenade_wire_form(w, g),
        g.flames matches Some(fl) ==> flames_keys_unique(fl@),
    ensures
        spec_decode_grenade(w) == Ok::<GrenadeSpec, SpecError>(g@),
{
    reveal_strlit("owner");
    reveal_strlit("lifetime");
    reveal_strlit("position");
    reveal_strlit("velocity");
    reveal_strlit("type");
    reveal_strlit("effecttime");
    reveal_strlit("flames");
    assert("owner"@.len() == 5 && "owner"@[0] == 'o');
    assert("lifetime"@.len() == 8 && "lifetime"@[0] == 'l');
    assert("position"@.len() == 8 && "position"@[0] == 'p');
    assert("velocity"@.len() == 8 && "velocity"@[0] == 'v');
    assert("type"@.len() == 4 && "type"@[0] == 't');
    assert("effecttime"@.len() == 10 && "effecttime"@[0] == 'e');
    assert("flames"@.len() == 6 && "flames"@[0] == 'f');
    let p = w.obj_pairs();
    assert(forall|j: int| 0 <= j < p.len() && j != 0 ==> (#[trigger] p[j].0)@ != "owner"@);
    crate::wire::lemma_field_of_unique(p, "owner"@, 0);
    assert(forall|j: int| 0 <= j < p.len() && j != 1 ==> (#[trigger] p[j].0)@ != "lifetime"@);
    crate::wire::lemma_field_of_unique(p, "lifetime"@, 1);
    assert(forall|j: int| 0 <= j < p.len() && j != 2 ==> (#[trigger] p[j].0)@ != "position"@);
    crate::wire::lemma_field_of_unique(p, "position"@, 2);
    assert(forall|j: int| 0 <= j < p.len() && j != 3 ==> (#[trigger] p[j].0)@ != "velocity"@);
    crate::wire::lemma_field_of_unique(p, "velocity"@, 3);
    assert(forall|j: int| 0 <= j < p.len() && j != 4 ==> (#[trigger] p[j].0)@ != "type"@);
    crate::wire::lemma_field_of_unique(p, "type"@, 4);
    assert(forall|j: int| 0 <= j < p.len() && j != 5 ==> (#[trigger] p[j].0)@ != "effecttime"@);
    crate::wire::lemma_field_of_unique(p, "effecttime"@, 5);
    assert(forall|j: int| 0 <= j < p.len() && j != 6 ==> (#[trigger] p[j].0)@ != "flames"@);
    crate::wire::lemma_field_of_unique(p, "flames"@, 6);
    match g.position {
        Some(c) => crate::coordinates::lemma_vector_round_trip(p[2].1, c),
        Option::None => (),
    }
    match g.velocity {
        Some(c) => crate::coordinates::lemma_vector_round_trip(p[3].1, c),
        Option::None => (),
    }
    GrenadeType::lemma_wire_round_trip(g.grenade_type);
    let f = |pr: (String, Coordinates)| (pr.0@, pr.1);
    match g.flames {
        Some(fl) => {
            let pp = match p[6].1 {
                WireValue::Object(pp) => pp@,
                _ => Seq::empty(),
            };
            lemma_flames_decode_round_trip(pp, fl@, Seq::empty());
            assert(Seq::<(String, Coordinates)>::empty().map_values(f) + fl@.map_values(f)
                =~= fl@.map_values(f));
        },
        Option::None => (),
    }
}

} // verus!
