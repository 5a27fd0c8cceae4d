//! The weapon record: plain fields, a closed state vocabulary, optional
//! integer ammo counts, and the one enumerated field with a fallback — an
//! absent or unrecognised weapon classification decodes to `Unknown`
//! instead of failing.

use vstd::prelude::*;

use crate::error::DecodeError;
use crate::error::SpecError;
use crate::error::res_view;
use crate::fields::get_opt_u16_field;
use crate::fields::get_str_field;
use crate::fields::opt_u16_field;
use crate::fields::str_field;
use crate::text::str_eq;
use crate::wire::FieldSpec;
use crate::wire::Lookup;
use crate::wire::WireValue;
use crate::wire::field_of;
use crate::wire::lemma_field_insert_other;
use crate::wire::lookup_field;

verus! {

/// The weapon classification vocabulary. `Unknown` is the fallback: the
/// wire may omit the classification or send an unrecognised token, and
/// either decodes to `Unknown` rather than failing.
#[derive(Debug, Clone, Copy, PartialEq, Eq, Structural)]
pub enum WeaponType {
    Knife,
    Pistol,
    Rifle,
    SniperRifle,
    SubmachineGun,
    MachineGun,
    Shotgun,
    Grenade,
    C4,
    Fists,
    Melee,
    Tablet,
    BreachCharge,
    BumpMine,
    Unknown,
}

impl WeaponType {
    /// The display string of each classification on the wire.
    pub open spec fn wire_name(self) -> Seq<char> {
        match self {
            WeaponType::Knife => "Knife"@,
            WeaponType::Pistol => "Pistol"@,
            WeaponType::Rifle => "Rifle"@,
            WeaponType::SniperRifle => "SniperRifle"@,
            WeaponType::SubmachineGun => "Submachine Gun"@,
            WeaponType::MachineGun => "Machine Gun"@,
            WeaponType::Shotgun => "Shotgun"@,
            WeaponType::Grenade => "Grenade"@,
            WeaponType::C4 => "C4"@,
            WeaponType::Fists => "Fists"@,
            WeaponType::Melee => "Melee"@,
            WeaponType::Tablet => "Tablet"@,
            WeaponType::BreachCharge => "Breach Charge"@,
            WeaponType::BumpMine => "Bump Mine"@,
            WeaponType::Unknown => "Unknown"@,
        }
    }

    /// The classification a wire token names, if any; case- and
    /// spelling-exact, no aliases.
    pub open spec fn from_wire(s: Seq<char>) -> Option<WeaponType> {
        if s == "Knife"@ {
            Some(WeaponType::Knife)
        } else if s == "Pistol"@ {
            Some(WeaponType::Pistol)
        } else if s == "Rifle"@ {
            Some(WeaponType::Rifle)
        } else if s == "SniperRifle"@ {
            Some(WeaponType::SniperRifle)
        } else if s == "Submachine Gun"@ {
            Some(WeaponType::SubmachineGun)
        } else if s == "Machine Gun"@ {
            Some(WeaponType::MachineGun)
        } else if s == "Shotgun"@ {
            Some(WeaponType::Shotgun)
        } else if s == "Grenade"@ {
            Some(WeaponType::Grenade)
        } else if s == "C4"@ {
            Some(WeaponType::C4)
        } else if s == "Fists"@ {
            Some(WeaponType::Fists)
        } else if s == "Melee"@ {
            Some(WeaponType::Melee)
        } else if s == "Tablet"@ {
            Some(WeaponType::Tablet)
        } else if s == "Breach Charge"@ {
            Some(WeaponType::BreachCharge)
        } else if s == "Bump Mine"@ {
            Some(WeaponType::BumpMine)
        } else if s == "Unknown"@ {
            Some(WeaponType::Unknown)
        } else {
            Option::None
        }
    }

    /// Reads a classification token.
    pub fn parse_wire(s: &str) -> (r: Option<WeaponType>)
        ensures
            r == WeaponType::from_wire(s@),
    {
        if str_eq(s, "Knife") {
            Some(WeaponType::Knife)
        } else if str_eq(s, "Pistol") {
            Some(WeaponType::Pistol)
        } else if str_eq(s, "Rifle") {
            Some(WeaponType::Rifle)
        } else if str_eq(s, "SniperRifle") {
            Some(WeaponType::SniperRifle)
        } else if str_eq(s, "Submachine Gun") {
            Some(WeaponType::SubmachineGun)
        } else if str_eq(s, "Machine Gun") {
            Some(WeaponType::MachineGun)
        } else if str_eq(s, "Shotgun") {
            Some(WeaponType::Shotgun)
        } else if str_eq(s, "Grenade") {
            Some(WeaponType::Grenade)
        } else if str_eq(s, "C4") {
            Some(WeaponType::C4)
        } else if str_eq(s, "Fists") {
            Some(WeaponType::Fists)
        } else if str_eq(s, "Melee") {
            Some(WeaponType::Melee)
        } else if str_eq(s, "Tablet") {
            Some(WeaponType::Tablet)
        } else if str_eq(s, "Breach Charge") {
            Some(WeaponType::BreachCharge)
        } else if str_eq(s, "Bump Mine") {
            Some(WeaponType::BumpMine)
        } else if str_eq(s, "Unknown") {
            Some(WeaponType::Unknown)
        } else {
            None
        }
    }

    /// Renders the classification's display string.
    pub fn to_wire(&self) -> (r: String)
        ensures
            r@ == self.wire_name(),
    {
        match self {
            WeaponType::Knife => String::from_str("Knife"),
            WeaponType::Pistol => String::from_str("Pistol"),
            WeaponType::Rifle => String::from_str("Rifle"),
            WeaponType::SniperRifle => String::from_str("SniperRifle"),
            WeaponType::SubmachineGun => String::from_str("Submachine Gun"),
            WeaponType::MachineGun => String::from_str("Machine Gun"),
            WeaponType::Shotgun => String::from_str("Shotgun"),
            WeaponType::Grenade => String::from_str("Grenade"),
            WeaponType::C4 => String::from_str("C4"),
            WeaponType::Fists => String::from_str("Fists"),
            WeaponType::Melee => String::from_str("Melee"),
            WeaponType::Tablet => String::from_str("Tablet"),
            WeaponType::BreachCharge => String::from_str("Breach Charge"),
            WeaponType::BumpMine => String::from_str("Bump Mine"),
            WeaponType::Unknown => String::from_str("Unknown"),
        }
    }

    /// Vocabulary round trip: reading back a rendered display string
    /// yields the same classification.
    pub proof fn lemma_wire_round_trip(v: WeaponType)
        ensures
            WeaponType::from_wire(v.wire_name()) == Some(v),
    {
        reveal_strlit("Knife");
        reveal_strlit("Pistol");
        reveal_strlit("Rifle");
        reveal_strlit("SniperRifle");
        reveal_strlit("Submachine Gun");
        reveal_strlit("Machine Gun");
        reveal_strlit("Shotgun");
        reveal_strlit("Grenade");
        reveal_strlit("C4");
        reveal_strlit("Fists");
        reveal_strlit("Melee");
        reveal_strlit("Tablet");
        reveal_strlit("Breach Charge");
        reveal_strlit("Bump Mine");
        reveal_strlit("Unknown");
        assert("Knife"@.len() == 5 && "Knife"@[0] == 'K');
        assert("Pistol"@.len() == 6 && "Pistol"@[0] == 'P');
        assert("Rifle"@.len() == 5 && "Rifle"@[0] == 'R');
        assert("SniperRifle"@.len() == 11 && "SniperRifle"@[0] == 'S');
        assert("Submachine Gun"@.len() == 14 && "Submachine Gun"@[0] == 'S');
        assert("Machine Gun"@.len() == 11 && "Machine Gun"@[0] == 'M');
        assert("Shotgun"@.len() == 7 && "Shotgun"@[0] == 'S');
        assert("Grenade"@.len() == 7 && "Grenade"@[0] == 'G');
        assert("C4"@.len() == 2 && "C4"@[0] == 'C');
        assert("Fists"@.len() == 5 && "Fists"@[0] == 'F');
        assert("Melee"@.len() == 5 && "Melee"@[0] == 'M');
        assert("Tablet"@.len() == 6 && "Tablet"@[0] == 'T');
        assert("Breach Charge"@.len() == 13 && "Breach Charge"@[0] == 'B');
        assert("Bump Mine"@.len() == 9 && "Bump Mine"@[0] == 'B');
        assert("Unknown"@.len() == 7 && "Unknown"@[0] == 'U');
    }
}

impl Default for WeaponType {
    /// The fallback classification.
    fn default() -> (r: Self)
        ensures
            r == WeaponType::Unknown,
    {
        WeaponType::Unknown
    }
}

/// The weapon's arming state; a closed vocabulary with no fallback.
#[derive(Debug, Clone, Copy, PartialEq, Eq, Structural)]
pub enum WeaponState {
    Holstered,
    Active,
    Reloading,
}

impl WeaponState {
    /// The display string of each state on the wire.
    pub open spec fn wire_name(self) -> Seq<char> {
        match self {
            WeaponState::Holstered => "holstered"@,
            WeaponState::Active => "active"@,
            WeaponState::Reloading => "reloading"@,
        }
    }

    /// The state a wire token names, if any.
    pub open spec fn from_wire(s: Seq<char>) -> Option<WeaponState> {
        if s == "holstered"@ {
            Some(WeaponState::Holstered)
        } else if s == "active"@ {
            Some(WeaponState::Active)
        } else if s == "reloading"@ {
            Some(WeaponState::Reloading)
        } else {
            Option::None
        }
    }

    /// Reads a state token.
    pub fn parse_wire(s: &str) -> (r: Option<WeaponState>)
        ensures
            r == WeaponState::from_wire(s@),
    {
        if str_eq(s, "holstered") {
            Some(WeaponState::Holstered)
        } else if str_eq(s, "active") {
            Some(WeaponState::Active)
        } else if str_eq(s, "reloading") {
            Some(WeaponState::Reloading)
        } else {
            None
        }
    }

    /// Renders the state's display string.
    pub fn to_wire(&self) -> (r: String)
        ensures
            r@ == self.wire_name(),
    {
        match self {
            WeaponState::Holstered => String::from_str("holstered"),
            WeaponState::Active => String::from_str("active"),
            WeaponState::Reloading => String::from_str("reloading"),
        }
    }

    /// Vocabulary round trip: reading back a rendered display string
    /// yields the same state.
    pub proof fn lemma_wire_round_trip(v: WeaponState)
        ensures
            WeaponState::from_wire(v.wire_name()) == Some(v),
    {
        reveal_strlit("holstered");
        reveal_strlit("active");
        reveal_strlit("reloading");
        assert("holstered"@.len() == 9 && "holstered"@[0] == 'h');
        assert("active"@.len() == 6 && "active"@[0] == 'a');
        assert("reloading"@.len() == 9 && "reloading"@[0] == 'r');
    }
}

/// A weapon carried by a player.
#[derive(Debug, Clone, PartialEq)]
pub struct Weapon {
    /// Weapon name.
    pub name: String,
    /// Weapon skin name; the wire key is `paintkit`.
    pub paint_kit: String,
    /// Weapon classification; the wire key is `type`, and an absent or
    /// unrecognised value falls back to `Unknown`.
    pub weapon_type: WeaponType,
    /// Arming state.
    pub state: WeaponState,
    pub ammo_clip: Option<u16>,
    pub ammo_clip_max: Option<u16>,
    pub ammo_reserve: Option<u16>,
}

/// The classification field: repeated keys are rejected, and an absent or
/// unrecognised value — a non-string value among them — yields the
/// fallback instead of failing.
pub open spec fn weapon_type_field(pairs: Seq<(String, WireValue)>, k: Seq<char>) -> Result<
    WeaponType,
    SpecError,
> {
    match field_of(pairs, k) {
        FieldSpec::Repeated => Err(SpecError::DuplicateField(k)),
        FieldSpec::Absent => Ok(WeaponType::Unknown),
        FieldSpec::Present(v) => match v {
            WireValue::Text(s) => match WeaponType::from_wire(s@) {
                Some(t) => Ok(t),
                Option::None => Ok(WeaponType::Unknown),
            },
            _ => Ok(WeaponType::Unknown),
        },
    }
}

fn get_weapon_type_field(pairs: &Vec<(String, WireValue)>, k: &str) -> (r: Result<
    WeaponType,
    DecodeError,
>)
    ensures
        res_view(r) == weapon_type_field(pairs@, k@),
{
    match lookup_field(pairs, k) {
        Lookup::Repeated => Err(DecodeError::DuplicateField(String::from_str(k))),
        Lookup::Absent => Ok(WeaponType::Unknown),
        Lookup::At(i) => match &pairs[i].1 {
            WireValue::Text(s) => match WeaponType::parse_wire(s.as_str()) {
                Some(t) => Ok(t),
                None => Ok(WeaponType::Unknown),
            },
            _ => Ok(WeaponType::Unknown),
        },
    }
}

/// The arming-state field: mandatory, closed vocabulary, no fallback.
pub open spec fn weapon_state_field(pairs: Seq<(String, WireValue)>, k: Seq<char>) -> Result<
    WeaponState,
    SpecError,
> {
    match field_of(pairs, k) {
        FieldSpec::Repeated => Err(SpecError::DuplicateField(k)),
        FieldSpec::Absent => Err(SpecError::MissingField(k)),
        FieldSpec::Present(v) => match v {
            WireValue::Text(s) => match WeaponState::from_wire(s@) {
                Some(t) => Ok(t),
                Option::None => Err(SpecError::UnknownVariant(s@)),
            },
            _ => Err(SpecError::TypeMismatch),
        },
    }
}

fn get_weapon_state_field(pairs: &Vec<(String, WireValue)>, k: &str) -> (r: Result<
    WeaponState,
    DecodeError,
>)
    ensures
        res_view(r) == weapon_state_field(pairs@, k@),
{
    match lookup_field(pairs, k) {
        Lookup::Repeated => Err(DecodeError::DuplicateField(String::from_str(k))),
        Lookup::Absent => Err(DecodeError::MissingField(String::from_str(k))),
        Lookup::At(i) => match &pairs[i].1 {
            WireValue::Text(s) => match WeaponState::parse_wire(s.as_str()) {
                Some(t) => Ok(t),
                None => Err(DecodeError::UnknownVariant(s.clone())),
            },
            _ => Err(DecodeError::TypeMismatch),
        },
    }
}

/// What decoding a weapon record yields, field by field in a fixed order:
/// `name` and `paintkit` as mandatory strings, `type` with the fallback,
/// `state` as a mandatory closed vocabulary, and the three ammo counts as
/// optional small integers. Unknown keys are ignored.
pub open spec fn spec_decode_weapon_fields(p: Seq<(String, WireValue)>) -> Result<
    Weapon,
    SpecError,
> {
    match str_field(p, "name"@) {
        Err(e) => Err(e),
        Ok(name) => match str_field(p, "paintkit"@) {
            Err(e) => Err(e),
            Ok(paint_kit) => match weapon_type_field(p, "type"@) {
                Err(e) => Err(e),
                Ok(weapon_type) => match weapon_state_field(p, "state"@) {
                    Err(e) => Err(e),
                    Ok(state) => match opt_u16_field(p, "ammo_clip"@) {
                        Err(e) => Err(e),
                        Ok(ammo_clip) => match opt_u16_field(p, "ammo_clip_max"@) {
                            Err(e) => Err(e),
                            Ok(ammo_clip_max) => match opt_u16_field(p, "ammo_reserve"@) {
                                Err(e) => Err(e),
                                Ok(ammo_reserve) => Ok(
                                    Weapon {
                                        name,
                                        paint_kit,
                                        weapon_type,
                                        state,
                                        ammo_clip,
                                        ammo_clip_max,
                                        ammo_reserve,
                                    },
                                ),
                            },
                        },
                    },
                },
            },
        },
    }
}

/// What decoding a weapon record yields for every wire shape.
pub open spec fn spec_decode_weapon(w: WireValue) -> Result<Weapon, SpecError> {
    match w {
        WireValue::Object(pairs) => spec_decode_weapon_fields(pairs@),
        _ => Err(SpecError::TypeMismatch),
    }
}

/// Decodes a weapon record.
pub fn decode_weapon(w: &WireValue) -> (r: Result<Weapon, DecodeError>)
    ensures
        res_view(r) == spec_decode_weapon(*w),
{
    let pairs = match w {
        WireValue::Object(pairs) => pairs,
        _ => {
            return Err(DecodeError::TypeMismatch);
        },
    };
    let name = match get_str_field(pairs, "name") {
        Ok(v) => v,
        Err(e) => {
            return Err(e);
        },
    };
    let paint_kit = match get_str_field(pairs, "paintkit") {
        Ok(v) => v,
        Err(e) => {
            return Err(e);
        },
    };
    let weapon_type = match get_weapon_type_field(pairs, "type") {
        Ok(v) => v,
        Err(e) => {
            return Err(e);
        },
    };
    let state = match get_weapon_state_field(pairs, "state") {
        Ok(v) => v,
        Err(e) => {
            return Err(e);
        },
    };
    let ammo_clip = match get_opt_u16_field(pairs, "ammo_clip") {
        Ok(v) => v,
        Err(e) => {
            return Err(e);
        },
    };
    let ammo_clip_max = match get_opt_u16_field(pairs, "ammo_clip_max") {
        Ok(v) => v,
        Err(e) => {
            return Err(e);
        },
    };
    let ammo_reserve = match get_opt_u16_field(pairs, "ammo_reserve") {
        Ok(v) => v,
        Err(e) => {
            return Err(e);
        },
    };
    Ok(Weapon { name, paint_kit, weapon_type, state, ammo_clip, ammo_clip_max, ammo_reserve })
}

/// An optional integer as it stands in canonical output: absent counts are
/// carried as `Null`, present ones as a plain integer number.
pub open spec fn opt_u16_wire(o: Option<u16>) -> WireValue {
    match o {
        Some(n) => WireValue::IntNum(n as u64),
        Option::None => WireValue::Null,
    }
}

/// The canonical wire shape of a weapon record: one object with its seven
/// fields in a fixed order.
pub open spec fn is_weapon_wire_form(w: WireValue, wp: Weapon) -> bool {
    match w {
        WireValue::Object(pairs) => {
            let p = pairs@;
            p.len() == 7 && p[0].0@ == "name"@ && p[0].1 == WireValue::Text(wp.name) && p[1].0@
                == "paintkit"@ && p[1].1 == WireValue::Text(wp.paint_kit) && p[2].0@ == "type"@ && (
            p[2].1 matches WireValue::Text(s) && s@ == wp.weapon_type.wire_name()) && p[3].0@
                == "state"@ && (p[3].1 matches WireValue::Text(s) && s@ == wp.state.wire_name())
                && p[4].0@ == "ammo_clip"@ && p[4].1 == opt_u16_wire(wp.ammo_clip) && p[5].0@
                == "ammo_clip_max"@ && p[5].1 == opt_u16_wire(wp.ammo_clip_max) && p[6].0@
                == "ammo_reserve"@ && p[6].1 == opt_u16_wire(wp.ammo_reserve)
        },
        _ => false,
    }
}

fn opt_u16_to_wire(o: &Option<u16>) -> (r: WireValue)
    ensures
        r == opt_u16_wire(*o),
{
    match o {
        Some(n) => WireValue::IntNum(*n as u64),
        None => WireValue::Null,
    }
}

/// Encodes a weapon record into its canonical wire shape.
pub fn encode_weapon(wp: &Weapon) -> (r: WireValue)
    ensures
        is_weapon_wire_form(r, *wp),
{
    let mut pairs: Vec<(String, WireValue)> = Vec::new();
    pairs.push((String::from_str("name"), WireValue::Text(wp.name.clone())));
    pairs.push((String::from_str("paintkit"), WireValue::Text(wp.paint_kit.clone())));
    pairs.push((String::from_str("type"), WireValue::Text(wp.weapon_type.to_wire())));
    pairs.push((String::from_str("state"), WireValue::Text(wp.state.to_wire())));
    pairs.push((String::from_str("ammo_clip"), opt_u16_to_wire(&wp.ammo_clip)));
    pairs.push((String::from_str("ammo_clip_max"), opt_u16_to_wire(&wp.ammo_clip_max)));
    pairs.push((String::from_str("ammo_reserve"), opt_u16_to_wire(&wp.ammo_reserve)));
    WireValue::Object(pairs)
}

/// Forward-compatibility law: a pair under any key other than the weapon
/// record's seven, inserted anywhere, leaves the decode unchanged.
pub proof fn lemma_weapon_ignores_unknown_key(
    w1: WireValue,
    w2: WireValue,
    i: int,
    q: (String, WireValue),
)
    requires
        w1 is Object,
        w2 is Object,
        0 <= i <= w1.obj_pairs().len(),
        w2.obj_pairs() == w1.obj_pairs().insert(i, q),
        q.0@ != "name"@,
        q.0@ != "paintkit"@,
        q.0@ != "type"@,
        q.0@ != "state"@,
        q.0@ != "ammo_clip"@,
        q.0@ != "ammo_clip_max"@,
        q.0@ != "ammo_reserve"@,
    ensures
        spec_decode_weapon(w2) == spec_decode_weapon(w1),
{
    lemma_field_insert_other(w1.obj_pairs(), i, q, "name"@);
    lemma_field_insert_other(w1.obj_pairs(), i, q, "paintkit"@);
    lemma_field_insert_other(w1.obj_pairs(), i, q, "type"@);
    lemma_field_insert_other(w1.obj_pairs(), i, q, "state"@);
    lemma_field_insert_other(w1.obj_pairs(), i, q, "ammo_clip"@);
    lemma_field_insert_other(w1.obj_pairs(), i, q, "ammo_clip_max"@);
    lemma_field_insert_other(w1.obj_pairs(), i, q, "ammo_reserve"@);
}


/// Round-trip law: decoding the canonical encoding of any weapon record
/// yields that record back.
pub proof fn lemma_weapon_round_trip(w: WireValue, wp: Weapon)
    requires
        is_weapon_wire_form(w, wp),
    ensures
        spec_decode_weapon(w) == Ok::<Weapon, SpecError>(wp),
{
    reveal_strlit("name");
    reveal_strlit("paintkit");
    reveal_strlit("type");
    reveal_strlit("state");
    reveal_strlit("ammo_clip");
    reveal_strlit("ammo_clip_max");
    reveal_strlit("ammo_reserve");
    assert("name"@.len() == 4 && "name"@[0] == 'n');
    assert("paintkit"@.len() == 8 && "paintkit"@[0] == 'p');
    assert("type"@.len() == 4 && "type"@[0] == 't');
    assert("state"@.len() == 5 && "state"@[0] == 's');
    assert("ammo_clip"@.len() == 9 && "ammo_clip_max"@.len() == 13 && "ammo_reserve"@.len() == 12);
    let p = w.obj_pairs();
    assert(forall|j: int| 0 <= j < p.len() && j != 0 ==> (#[trigger] p[j].0)@ != "name"@);
    crate::wire::lemma_field_of_unique(p, "name"@, 0);
    assert(forall|j: int| 0 <= j < p.len() && j != 1 ==> (#[trigger] p[j].0)@ != "paintkit"@);
    crate::wire::lemma_field_of_unique(p, "paintkit"@, 1);
    assert(forall|j: int| 0 <= j < p.len() && j != 2 ==> (#[trigger] p[j].0)@ != "type"@);
    crate::wire::lemma_field_of_unique(p, "type"@, 2);
    assert(forall|j: int| 0 <= j < p.len() && j != 3 ==> (#[trigger] p[j].0)@ != "state"@);
    crate::wire::lemma_field_of_unique(p, "state"@, 3);
    assert(forall|j: int| 0 <= j < p.len() && j != 4 ==> (#[trigger] p[j].0)@ != "ammo_clip"@);
    crate::wire::lemma_field_of_unique(p, "ammo_clip"@, 4);
    assert(forall|j: int| 0 <= j < p.len() && j != 5 ==> (#[trigger] p[j].0)@ != "ammo_clip_max"@);
    crate::wire::lemma_field_of_unique(p, "ammo_clip_max"@, 5);
    assert(forall|j: int| 0 <= j < p.len() && j != 6 ==> (#[trigger] p[j].0)@ != "ammo_reserve"@);
    crate::wire::lemma_field_of_unique(p, "ammo_reserve"@, 6);
    WeaponType::lemma_wire_round_trip(wp.weapon_type);
    WeaponState::lemma_wire_round_trip(wp.state);
}

} // verus!
