//! The phase-countdown record: a closed phase vocabulary and a remaining
//! time that the wire carries as a numeric-as-string field.

use vstd::prelude::*;

use crate::error::DecodeError;
use crate::error::SpecError;
use crate::error::res_view;
use crate::fields::get_num_str_field;
use crate::fields::num_str_field;
use crate::text::str_eq;
use crate::wire::FieldSpec;
use crate::wire::Lookup;
use crate::wire::WireValue;
use crate::wire::field_of;
use crate::wire::lemma_field_insert_other;
use crate::wire::lookup_field;

verus! {

/// The phase vocabulary; closed, with no fallback.
#[derive(Debug, Clone, Copy, PartialEq, Eq, Structural)]
pub enum Phase {
    Over,
    Live,
    Bomb,
    Defuse,
    Warmup,
    FreezeTime,
    TimeoutT,
    TimeoutCT,
}

impl Phase {
    /// The display string of each phase on the wire.
    pub open spec fn wire_name(self) -> Seq<char> {
        match self {
            Phase::Over => "over"@,
            Phase::Live => "live"@,
            Phase::Bomb => "bomb"@,
            Phase::Defuse => "defuse"@,
            Phase::Warmup => "warmup"@,
            Phase::FreezeTime => "freezetime"@,
            Phase::TimeoutT => "timeout_t"@,
            Phase::TimeoutCT => "timeout_ct"@,
        }
    }

    /// The phase a wire token names, if any.
    pub open spec fn from_wire(s: Seq<char>) -> Option<Phase> {
        if s == "over"@ {
            Some(Phase::Over)
        } else if s == "live"@ {
            Some(Phase::Live)
        } else if s == "bomb"@ {
            Some(Phase::Bomb)
        } else if s == "defuse"@ {
            Some(Phase::Defuse)
        } else if s == "warmup"@ {
            Some(Phase::Warmup)
        } else if s == "freezetime"@ {
            Some(Phase::FreezeTime)
        } else if s == "timeout_t"@ {
            Some(Phase::TimeoutT)
        } else if s == "timeout_ct"@ {
            Some(Phase::TimeoutCT)
        } else {
            Option::None
        }
    }

    /// Reads a phase token.
    pub fn parse_wire(s: &str) -> (r: Option<Phase>)
        ensures
            r == Phase::from_wire(s@),
    {
        if str_eq(s, "over") {
            Some(Phase::Over)
        } else if str_eq(s, "live") {
            Some(Phase::Live)
        } else if str_eq(s, "bomb") {
            Some(Phase::Bomb)
        } else if str_eq(s, "defuse") {
            Some(Phase::Defuse)
        } else if str_eq(s, "warmup") {
            Some(Phase::Warmup)
        } else if str_eq(s, "freezetime") {
            Some(Phase::FreezeTime)
        } else if str_eq(s, "timeout_t") {
            Some(Phase::TimeoutT)
        } else if str_eq(s, "timeout_ct") {
            Some(Phase::TimeoutCT)
        } else {
            None
        }
    }

    /// Renders the phase's display string.
    pub fn to_wire(&self) -> (r: String)
        ensures
            r@ == self.wire_name(),
    {
        match self {
            Phase::Over => String::from_str("over"),
            Phase::Live => String::from_str("live"),
            Phase::Bomb => String::from_str("bomb"),
            Phase::Defuse => String::from_str("defuse"),
            Phase::Warmup => String::from_str("warmup"),
            Phase::FreezeTime => String::from_str("freezetime"),
            Phase::TimeoutT => String::from_str("timeout_t"),
            Phase::TimeoutCT => String::from_str("timeout_ct"),
        }
    }

    /// Vocabulary round trip: reading back a rendered display string
    /// yields the same phase.
    pub proof fn lemma_wire_round_trip(v: Phase)
        ensures
            Phase::from_wire(v.wire_name()) == Some(v),
    {
        reveal_strlit("over");
        reveal_strlit("live");
        reveal_strlit("bomb");
        reveal_strlit("defuse");
        reveal_strlit("warmup");
        reveal_strlit("freezetime");
        reveal_strlit("timeout_t");
        reveal_strlit("timeout_ct");
        assert("over"@.len() == 4 && "over"@[0] == 'o');
        assert("live"@.len() == 4 && "live"@[0] == 'l');
        assert("bomb"@.len() == 4 && "bomb"@[0] == 'b');
        assert("defuse"@.len() == 6 && "defuse"@[0] == 'd');
        assert("warmup"@.len() == 6 && "warmup"@[0] == 'w');
        assert("freezetime"@.len() == 10 && "freezetime"@[0] == 'f');
        assert("timeout_t"@.len() == 9 && "timeout_t"@[0] == 't');
        assert("timeout_ct"@.len() == 10 && "timeout_ct"@[0] == 't');
    }
}

/// The countdown of the current phase; the remaining time is the bit
/// pattern of a finite double, carried on the wire as a string.
#[derive(Debug, Clone, Copy, PartialEq, Eq, Structural)]
pub struct PhaseCountdowns {
    pub phase: Phase,
    pub phase_ends_in: u64,
}

/// The phase field: mandatory, closed vocabulary, no fallback.
pub open spec fn phase_field(pairs: Seq<(String, WireValue)>, k: Seq<char>) -> Result<
    Phase,
    SpecError,
> {
    match field_of(pairs, k) {
        FieldSpec::Repeated => Err(SpecError::DuplicateField(k)),
        FieldSpec::Absent => Err(SpecError::MissingField(k)),
        FieldSpec::Present(v) => match v {
            WireValue::Text(s) => match Phase::from_wire(s@) {
                Some(p) => Ok(p),
                Option::None => Err(SpecError::UnknownVariant(s@)),
            },
            _ => Err(SpecError::TypeMismatch),
        },
    }
}

fn get_phase_field(pairs: &Vec<(String, WireValue)>, k: &str) -> (r: Result<Phase, DecodeError>)
    ensures
        res_view(r) == phase_field(pairs@, k@),
{
    match lookup_field(pairs, k) {
        Lookup::Repeated => Err(DecodeError::DuplicateField(String::from_str(k))),
        Lookup::Absent => Err(DecodeError::MissingField(String::from_str(k))),
        Lookup::At(i) => match &pairs[i].1 {
            WireValue::Text(s) => match Phase::parse_wire(s.as_str()) {
                Some(p) => Ok(p),
                None => Err(DecodeError::UnknownVariant(s.clone())),
            },
            _ => Err(DecodeError::TypeMismatch),
        },
    }
}

/// What decoding a phase-countdown record yields: the mandatory `phase`
/// vocabulary field, then the mandatory `phase_ends_in` numeric-as-string
/// field. Unknown keys are ignored.
pub open spec fn spec_decode_phase_countdowns(w: WireValue) -> Result<PhaseCountdowns, SpecError> {
    match w {
        WireValue::Object(pairs) => {
            let p = pairs@;
            match phase_field(p, "phase"@) {
                Err(e) => Err(e),
                Ok(phase) => match num_str_field(p, "phase_ends_in"@) {
                    Err(e) => Err(e),
                    Ok(phase_ends_in) => Ok(PhaseCountdowns { phase, phase_ends_in }),
                },
            }
        },
        _ => Err(SpecError::TypeMismatch),
    }
}

/// Decodes a phase-countdown record.
pub fn decode_phase_countdowns(w: &WireValue) -> (r: Result<PhaseCountdowns, DecodeError>)
    ensures
        res_view(r) == spec_decode_phase_countdowns(*w),
{
    let pairs = match w {
        WireValue::Object(pairs) => pairs,
        _ => {
            return Err(DecodeError::TypeMismatch);
        },
    };
    let phase = match get_phase_field(pairs, "phase") {
        Ok(v) => v,
        Err(e) => {
            return Err(e);
        },
    };
    let phase_ends_in = match get_num_str_field(pairs, "phase_ends_in") {
        Ok(v) => v,
        Err(e) => {
            return Err(e);
        },
    };
    Ok(PhaseCountdowns { phase, phase_ends_in })
}

/// The canonical wire shape of a phase-countdown record: the phase's
/// display string, then the remaining time as a string-rendered number.
pub open spec fn is_phase_countdowns_wire_form(w: WireValue, pc: PhaseCountdowns) -> bool {
    match w {
        WireValue::Object(pairs) => {
            let p = pairs@;
            p.len() == 2 && p[0].0@ == "phase"@ && (p[0].1 matches WireValue::Text(s) && s@
                == pc.phase.wire_name()) && p[1].0@ == "phase_ends_in"@ && p[1].1
                == WireValue::NumStr(pc.phase_ends_in)
        },
        _ => false,
    }
}

/// Encodes a phase-countdown record into its canonical wire shape.
pub fn encode_phase_countdowns(pc: &PhaseCountdowns) -> (r: WireValue)
    ensures
        is_phase_countdowns_wire_form(r, *pc),
{
    let mut pairs: Vec<(String, WireValue)> = Vec::new();
    pairs.push((String::from_str("phase"), WireValue::Text(pc.phase.to_wire())));
    pairs.push((String::from_str("phase_ends_in"), WireValue::NumStr(pc.phase_ends_in)));
    WireValue::Object(pairs)
}

/// Forward-compatibility law: a pair under any key other than `phase` and
/// `phase_ends_in`, inserted anywhere, leaves the decode unchanged.
pub proof fn lemma_phase_countdowns_ignores_unknown_key(
    w1: WireValue,
    w2: WireValue,
    i: int,
    q: (String, WireValue),
)
    requires
        w1 is Object,
        w2 is Object,
        0 <= i <= w1.obj_pairs().len(),
        w2.obj_pairs() == w1.obj_pairs().insert(i, q),
        q.0@ != "phase"@,
        q.0@ != "phase_ends_in"@,
    ensures
        spec_decode_phase_countdowns(w2) == spec_decode_phase_countdowns(w1),
{
    lemma_field_insert_other(w1.obj_pairs(), i, q, "phase"@);
    lemma_field_insert_other(w1.obj_pairs(), i, q, "phase_ends_in"@);
}


/// Round-trip law: decoding the canonical encoding of any phase-countdown
/// record yields that record back.
pub proof fn lemma_phase_countdowns_round_trip(w: WireValue, pc: PhaseCountdowns)
    requires
        is_phase_countdowns_wire_form(w, pc),
    ensures
        spec_decode_phase_countdowns(w) == Ok::<PhaseCountdowns, SpecError>(pc),
{
    reveal_strlit("phase");
    reveal_strlit("phase_ends_in");
    assert("phase"@.len() == 5 && "phase_ends_in"@.len() == 13);
    let p = w.obj_pairs();
    assert(forall|j: int| 0 <= j < p.len() && j != 0 ==> (#[trigger] p[j].0)@ != "phase"@);
    crate::wire::lemma_field_of_unique(p, "phase"@, 0);
    assert(forall|j: int| 0 <= j < p.len() && j != 1 ==> (#[trigger] p[j].0)@ != "phase_ends_in"@);
    crate::wire::lemma_field_of_unique(p, "phase_ends_in"@, 1);
    Phase::lemma_wire_round_trip(pc.phase);
}

} // verus!
