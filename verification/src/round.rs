//! The round record: a tagged union whose shape follows the `phase`
//! discriminant. Each variant owns its own optional fields; an unknown
//! discriminant is rejected, and a variant's absent optional field means
//! "not applicable", never a default.

use vstd::prelude::*;

use crate::error::DecodeError;
use crate::error::SpecError;
use crate::error::res_view;
use crate::text::str_eq;
use crate::wire::FieldSpec;
use crate::wire::Lookup;
use crate::wire::WireValue;
use crate::wire::field_of;
use crate::wire::lemma_field_insert_other;
use crate::wire::lookup_field;

verus! {

/// The side that won a round.
#[derive(Debug, Clone, Copy, PartialEq, Eq, Structural)]
pub enum Team {
    T,
    CT,
}

impl Team {
    /// The display string of each side on the wire.
    pub open spec fn wire_name(self) -> Seq<char> {
        match self {
            Team::T => "t"@,
            Team::CT => "ct"@,
        }
    }

    /// The side a wire token names, if any.
    pub open spec fn from_wire(s: Seq<char>) -> Option<Team> {
        if s == "t"@ {
            Some(Team::T)
        } else if s == "ct"@ {
            Some(Team::CT)
        } else {
            Option::None
        }
    }

    /// Reads a side token.
    pub fn parse_wire(s: &str) -> (r: Option<Team>)
        ensures
            r == Team::from_wire(s@),
    {
        if str_eq(s, "t") {
            Some(Team::T)
        } else if str_eq(s, "ct") {
            Some(Team::CT)
        } else {
            None
        }
    }

    /// Renders the side's display string.
    pub fn to_wire(&self) -> (r: String)
        ensures
            r@ == self.wire_name(),
    {
        match self {
            Team::T => String::from_str("t"),
            Team::CT => String::from_str("ct"),
        }
    }

    /// Vocabulary round trip: reading back a rendered display string
    /// yields the same side.
    pub proof fn lemma_wire_round_trip(v: Team)
        ensures
            Team::from_wire(v.wire_name()) == Some(v),
    {
        reveal_strlit("t");
        reveal_strlit("ct");
        assert("t"@.len() == 1 && "t"@[0] == 't');
        assert("ct"@.len() == 2 && "ct"@[0] == 'c');
    }
}

/// The bomb's sub-state; a closed vocabulary with no fallback.
#[derive(Debug, Clone, Copy, PartialEq, Eq, Structural)]
pub enum BombState {
    Planted,
    Exploded,
    Defused,
}

impl BombState {
    /// The display string of each bomb state on the wire.
    pub open spec fn wire_name(self) -> Seq<char> {
        match self {
            BombState::Planted => "planted"@,
            BombState::Exploded => "exploded"@,
            BombState::Defused => "defused"@,
        }
    }

    /// The bomb state a wire token names, if any.
    pub open spec fn from_wire(s: Seq<char>) -> Option<BombState> {
        if s == "planted"@ {
            Some(BombState::Planted)
        } else if s == "exploded"@ {
            Some(BombState::Exploded)
        } else if s == "defused"@ {
            Some(BombState::Defused)
        } else {
            Option::None
        }
    }

    /// Reads a bomb-state token.
    pub fn parse_wire(s: &str) -> (r: Option<BombState>)
        ensures
            r == BombState::from_wire(s@),
    {
        if str_eq(s, "planted") {
            Some(BombState::Planted)
        } else if str_eq(s, "exploded") {
            Some(BombState::Exploded)
        } else if str_eq(s, "defused") {
            Some(BombState::Defused)
        } else {
            None
        }
    }

    /// Renders the bomb state's display string.
    pub fn to_wire(&self) -> (r: String)
        ensures
            r@ == self.wire_name(),
    {
        match self {
            BombState::Planted => String::from_str("planted"),
            BombState::Exploded => String::from_str("exploded"),
            BombState::Defused => String::from_str("defused"),
        }
    }

    /// Vocabulary round trip: reading back a rendered display string
    /// yields the same bomb state.
    pub proof fn lemma_wire_round_trip(v: BombState)
        ensures
            BombState::from_wire(v.wire_name()) == Some(v),
    {
        reveal_strlit("planted");
        reveal_strlit("exploded");
        reveal_strlit("defused");
        assert("planted"@.len() == 7 && "planted"@[0] == 'p');
        assert("exploded"@.len() == 8 && "exploded"@[0] == 'e');
        assert("defused"@.len() == 7 && "defused"@[0] == 'd');
    }
}

/// The round's phase: a closed union. Fields a variant does not own cannot
/// be represented for it.
#[derive(Debug, Clone, Copy, PartialEq, Eq, Structural)]
pub enum Round {
    FreezeTime,
    Over { win_team: Option<Team>, bomb: Option<BombState> },
    Live { bomb: Option<BombState> },
}

/// An optional winning-side field.
pub open spec fn opt_team_field(pairs: Seq<(String, WireValue)>, k: Seq<char>) -> Result<
    Option<Team>,
    SpecError,
> {
    match field_of(pairs, k) {
        FieldSpec::Repeated => Err(SpecError::DuplicateField(k)),
        FieldSpec::Absent => Ok(Option::None),
        FieldSpec::Present(v) => match v {
            WireValue::Null => Ok(Option::None),
            WireValue::Text(s) => match Team::from_wire(s@) {
                Some(t) => Ok(Some(t)),
                Option::None => Err(SpecError::UnknownVariant(s@)),
            },
            _ => Err(SpecError::TypeMismatch),
        },
    }
}

fn get_opt_team_field(pairs: &Vec<(String, WireValue)>, k: &str) -> (r: Result<
    Option<Team>,
    DecodeError,
>)
    ensures
        res_view(r) == opt_team_field(pairs@, k@),
{
    match lookup_field(pairs, k) {
        Lookup::Repeated => Err(DecodeError::DuplicateField(String::from_str(k))),
        Lookup::Absent => Ok(None),
        Lookup::At(i) => match &pairs[i].1 {
            WireValue::Null => Ok(None),
            WireValue::Text(s) => match Team::parse_wire(s.as_str()) {
                Some(t) => Ok(Some(t)),
                None => Err(DecodeError::UnknownVariant(s.clone())),
            },
            _ => Err(DecodeError::TypeMismatch),
        },
    }
}

/// An optional bomb-state field.
pub open spec fn opt_bomb_field(pairs: Seq<(String, WireValue)>, k: Seq<char>) -> Result<
    Option<BombState>,
    SpecError,
> {
    match field_of(pairs, k) {
        FieldSpec::Repeated => Err(SpecError::DuplicateField(k)),
        FieldSpec::Absent => Ok(Option::None),
        FieldSpec::Present(v) => match v {
            WireValue::Null => Ok(Option::None),
            WireValue::Text(s) => match BombState::from_wire(s@) {
                Some(b) => Ok(Some(b)),
                Option::None => Err(SpecError::UnknownVariant(s@)),
            },
            _ => Err(SpecError::TypeMismatch),
        },
    }
}

fn get_opt_bomb_field(pairs: &Vec<(String, WireValue)>, k: &str) -> (r: Result<
    Option<BombState>,
    DecodeError,
>)
    ensures
        res_view(r) == opt_bomb_field(pairs@, k@),
{
    match lookup_field(pairs, k) {
        Lookup::Repeated => Err(DecodeError::DuplicateField(String::from_str(k))),
        Lookup::Absent => Ok(None),
        Lookup::At(i) => match &pairs[i].1 {
            WireValue::Null => Ok(None),
            WireValue::Text(s) => match BombState::parse_wire(s.as_str()) {
                Some(b) => Ok(Some(b)),
                None => Err(DecodeError::UnknownVariant(s.clone())),
            },
            _ => Err(DecodeError::TypeMismatch),
        },
    }
}

/// What decoding a round record yields once the discriminant is known to
/// be the given tag: each known tag decodes its own optional fields, and
/// an unknown tag is `UnknownVariant`.
pub open spec fn spec_decode_round_tagged(p: Seq<(String, WireValue)>, tag: Seq<char>) -> Result<
    Round,
    SpecError,
> {
    if tag == "freezetime"@ {
        Ok(Round::FreezeTime)
    } else if tag == "over"@ {
        match opt_team_field(p, "win_team"@) {
            Err(e) => Err(e),
            Ok(win_team) => match opt_bomb_field(p, "bomb"@) {
                Err(e) => Err(e),
                Ok(bomb) => Ok(Round::Over { win_team, bomb }),
            },
        }
    } else if tag == "live"@ {
        match opt_bomb_field(p, "bomb"@) {
            Err(e) => Err(e),
            Ok(bomb) => Ok(Round::Live { bomb }),
        }
    } else {
        Err(SpecError::UnknownVariant(tag))
    }
}

/// What decoding a round record yields: the `phase` discriminant must be
/// present exactly once and hold a string, and the variant it selects
/// decodes its own fields. Keys outside the selected variant's set are
/// ignored.
pub open spec fn spec_decode_round(w: WireValue) -> Result<Round, SpecError> {
    match w {
        WireValue::Object(pairs) => {
            let p = pairs@;
            match field_of(p, "phase"@) {
                FieldSpec::Repeated => Err(SpecError::DuplicateField("phase"@)),
                FieldSpec::Absent => Err(SpecError::MissingField("phase"@)),
                FieldSpec::Present(v) => match v {
                    WireValue::Text(tag) => spec_decode_round_tagged(p, tag@),
                    _ => Err(SpecError::TypeMismatch),
                },
            }
        },
        _ => Err(SpecError::TypeMismatch),
    }
}

/// Decodes a round record.
pub fn decode_round(w: &WireValue) -> (r: Result<Round, DecodeError>)
    ensures
        res_view(r) == spec_decode_round(*w),
{
    let pairs = match w {
        WireValue::Object(pairs) => pairs,
        _ => {
            return Err(DecodeError::TypeMismatch);
        },
    };
    let tag = match lookup_field(pairs, "phase") {
        Lookup::Repeated => {
            return Err(DecodeError::DuplicateField(String::from_str("phase")));
        },
        Lookup::Absent => {
            return Err(DecodeError::MissingField(String::from_str("phase")));
        },
        Lookup::At(i) => match &pairs[i].1 {
            WireValue::Text(tag) => tag,
            _ => {
                return Err(DecodeError::TypeMismatch);
            },
        },
    };
    if str_eq(tag.as_str(), "freezetime") {
        Ok(Round::FreezeTime)
    } else if str_eq(tag.as_str(), "over") {
        let win_team = match get_opt_team_field(pairs, "win_team") {
            Ok(v) => v,
            Err(e) => {
                return Err(e);
            },
        };
        let bomb = match get_opt_bomb_field(pairs, "bomb") {
            Ok(v) => v,
            Err(e) => {
                return Err(e);
            },
        };
        Ok(Round::Over { win_team, bomb })
    } else if str_eq(tag.as_str(), "live") {
        let bomb = match get_opt_bomb_field(pairs, "bomb") {
            Ok(v) => v,
            Err(e) => {
                return Err(e);
            },
        };
        Ok(Round::Live { bomb })
    } else {
        Err(DecodeError::UnknownVariant(tag.clone()))
    }
}

/// One pair holding a string value under a key.
pub open spec fn pair_is_text(pr: (String, WireValue), k: Seq<char>, val: Seq<char>) -> bool {
    pr.0@ == k && (pr.1 matches WireValue::Text(s) && s@ == val)
}

/// The canonical wire shape of a round record: the discriminant first,
/// then exactly the variant's present fields; absent optional fields are
/// omitted, never emitted as null.
pub open spec fn is_round_wire_form(w: WireValue, rd: Round) -> bool {
    match w {
        WireValue::Object(pairs) => {
            let p = pairs@;
            p.len() >= 1 && match rd {
                Round::FreezeTime => p.len() == 1 && pair_is_text(p[0], "phase"@, "freezetime"@),
                Round::Over { win_team, bomb } => pair_is_text(p[0], "phase"@, "over"@) && match (
                win_team,
                bomb,
                ) {
                    (Option::None, Option::None) => p.len() == 1,
                    (Some(t), Option::None) => p.len() == 2 && pair_is_text(
                        p[1],
                        "win_team"@,
                        t.wire_name(),
                    ),
                    (Option::None, Some(b)) => p.len() == 2 && pair_is_text(
                        p[1],
                        "bomb"@,
                        b.wire_name(),
                    ),
                    (Some(t), Some(b)) => p.len() == 3 && pair_is_text(
                        p[1],
                        "win_team"@,
                        t.wire_name(),
                    ) && pair_is_text(p[2], "bomb"@, b.wire_name()),
                },
                Round::Live { bomb } => pair_is_text(p[0], "phase"@, "live"@) && match bomb {
                    Option::None => p.len() == 1,
                    Some(b) => p.len() == 2 && pair_is_text(p[1], "bomb"@, b.wire_name()),
                },
            }
        },
        _ => false,
    }
}

/// Encodes a round record: the discriminant plus exactly the fields the
/// variant owns and holds.
pub fn encode_round(rd: &Round) -> (r: WireValue)
    ensures
        is_round_wire_form(r, *rd),
{
    let mut pairs: Vec<(String, WireValue)> = Vec::new();
    match rd {
        Round::FreezeTime => {
            pairs.push((String::from_str("phase"), WireValue::Text(String::from_str("freezetime"))));
        },
        Round::Over { win_team, bomb } => {
            pairs.push((String::from_str("phase"), WireValue::Text(String::from_str("over"))));
            if let Some(t) = win_team {
                pairs.push((String::from_str("win_team"), WireValue::Text(t.to_wire())));
            }
            if let Some(b) = bomb {
                pairs.push((String::from_str("bomb"), WireValue::Text(b.to_wire())));
            }
        },
        Round::Live { bomb } => {
            pairs.push((String::from_str("phase"), WireValue::Text(String::from_str("live"))));
            if let Some(b) = bomb {
                pairs.push((String::from_str("bomb"), WireValue::Text(b.to_wire())));
            }
        },
    }
    WireValue::Object(pairs)
}

/// Forward-compatibility law: a pair under any key other than `phase`,
/// `win_team` and `bomb`, inserted anywhere, leaves the decode of a round
/// record unchanged.
pub proof fn lemma_round_ignores_unknown_key(
    w1: WireValue,
    w2: WireValue,
    i: int,
    q: (String, WireValue),
)
    requires
        w1 is Object,
        w2 is Object,
        0 <= i <= w1.obj_pairs().len(),
        w2.obj_pairs() == w1.obj_pairs().insert(i, q),
        q.0@ != "phase"@,
        q.0@ != "win_team"@,
        q.0@ != "bomb"@,
    ensures
        spec_decode_round(w2) == spec_decode_round(w1),
{
    lemma_field_insert_other(w1.obj_pairs(), i, q, "phase"@);
    lemma_field_insert_other(w1.obj_pairs(), i, q, "win_team"@);
    lemma_field_insert_other(w1.obj_pairs(), i, q, "bomb"@);
}


/// Round-trip law: decoding the canonical encoding of any round record
/// yields that record back.
pub proof fn lemma_round_round_trip(w: WireValue, rd: Round)
    requires
        is_round_wire_form(w, rd),
    ensures
        spec_decode_round(w) == Ok::<Round, SpecError>(rd),
{
    reveal_strlit("phase");
    reveal_strlit("win_team");
    reveal_strlit("bomb");
    reveal_strlit("freezetime");
    reveal_strlit("over");
    reveal_strlit("live");
    assert("phase"@.len() == 5 && "phase"@[0] == 'p');
    assert("win_team"@.len() == 8 && "win_team"@[0] == 'w');
    assert("bomb"@.len() == 4 && "bomb"@[0] == 'b');
    assert("freezetime"@.len() == 10 && "over"@.len() == 4 && "live"@.len() == 4);
    assert("over"@[0] == 'o' && "live"@[0] == 'l');
    let p = w.obj_pairs();
    assert(forall|j: int| 0 <= j < p.len() && j != 0 ==> (#[trigger] p[j].0)@ != "phase"@);
    crate::wire::lemma_field_of_unique(p, "phase"@, 0);
    match rd {
        Round::FreezeTime => {
        },
        Round::Over { win_team, bomb } => {
            match win_team {
                Some(t) => {
                    assert(forall|j: int|
                        0 <= j < p.len() && j != 1 ==> (#[trigger] p[j].0)@ != "win_team"@);
                    crate::wire::lemma_field_of_unique(p, "win_team"@, 1);
                    Team::lemma_wire_round_trip(t);
                },
                Option::None => {
                    assert(forall|j: int| 0 <= j < p.len() ==> (#[trigger] p[j].0)@ != "win_team"@);
                    crate::wire::lemma_field_of_absent(p, "win_team"@);
                },
            }
            match bomb {
                Some(b) => {
                    let i = if win_team is Some { 2int } else { 1int };
                    assert(forall|j: int|
                        0 <= j < p.len() && j != i ==> (#[trigger] p[j].0)@ != "bomb"@);
                    crate::wire::lemma_field_of_unique(p, "bomb"@, i);
                    BombState::lemma_wire_round_trip(b);
                },
                Option::None => {
                    assert(forall|j: int| 0 <= j < p.len() ==> (#[trigger] p[j].0)@ != "bomb"@);
                    crate::wire::lemma_field_of_absent(p, "bomb"@);
                },
            }
        },
        Round::Live { bomb } => {
            match bomb {
                Some(b) => {
                    assert(forall|j: int|
                        0 <= j < p.len() && j != 1 ==> (#[trigger] p[j].0)@ != "bomb"@);
                    crate::wire::lemma_field_of_unique(p, "bomb"@, 1);
                    BombState::lemma_wire_round_trip(b);
                },
                Option::None => {
                    assert(forall|j: int| 0 <= j < p.len() ==> (#[trigger] p[j].0)@ != "bomb"@);
                    crate::wire::lemma_field_of_absent(p, "bomb"@);
                },
            }
        },
    }
}

} // verus!
