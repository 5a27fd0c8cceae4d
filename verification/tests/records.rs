//! Behavioural tests of the record assemblers: weapon, grenade, round and
//! phase countdowns.

use gsi_codec::coordinates::Coordinates;
use gsi_codec::error::DecodeError;
use gsi_codec::grenade::Grenade;
use gsi_codec::grenade::GrenadeType;
use gsi_codec::grenade::decode_grenade;
use gsi_codec::grenade::encode_grenade;
use gsi_codec::phase_countdowns::Phase;
use gsi_codec::phase_countdowns::PhaseCountdowns;
use gsi_codec::phase_countdowns::decode_phase_countdowns;
use gsi_codec::phase_countdowns::encode_phase_countdowns;
use gsi_codec::round::BombState;
use gsi_codec::round::Round;
use gsi_codec::round::Team;
use gsi_codec::round::decode_round;
use gsi_codec::round::encode_round;
use gsi_codec::weapon::Weapon;
use gsi_codec::weapon::WeaponState;
use gsi_codec::weapon::WeaponType;
use gsi_codec::weapon::decode_weapon;
use gsi_codec::weapon::encode_weapon;
use gsi_codec::wire::WireValue;

fn txt(s: &str) -> WireValue {
    WireValue::Text(s.to_string())
}

fn num(v: f64) -> WireValue {
    WireValue::Num(v.to_bits())
}

fn obj(pairs: Vec<(&str, WireValue)>) -> WireValue {
    WireValue::Object(pairs.into_iter().map(|(k, v)| (k.to_string(), v)).collect())
}

fn coords(x: f64, y: f64, z: f64) -> Coordinates {
    Coordinates { x: x.to_bits(), y: y.to_bits(), z: z.to_bits() }
}

fn full_weapon_wire() -> Vec<(&'static str, WireValue)> {
    vec![
        ("name", txt("weapon_ak47")),
        ("paintkit", txt("default")),
        ("type", txt("Rifle")),
        ("state", txt("active")),
        ("ammo_clip", num(30.0)),
        ("ammo_clip_max", WireValue::IntNum(30)),
        ("ammo_reserve", num(90.0)),
    ]
}

#[test]
fn weapon_decodes_fully() {
    let w = decode_weapon(&obj(full_weapon_wire())).unwrap();
    assert_eq!(
        w,
        Weapon {
            name: "weapon_ak47".to_string(),
            paint_kit: "default".to_string(),
            weapon_type: WeaponType::Rifle,
            state: WeaponState::Active,
            ammo_clip: Some(30),
            ammo_clip_max: Some(30),
            ammo_reserve: Some(90),
        }
    );
}

#[test]
fn weapon_classification_falls_back_when_absent() {
    let mut pairs = full_weapon_wire();
    pairs.retain(|(k, _)| *k != "type");
    let w = decode_weapon(&obj(pairs)).unwrap();
    assert_eq!(w.weapon_type, WeaponType::Unknown);
}

#[test]
fn weapon_classification_falls_back_when_unrecognised() {
    let mut pairs = full_weapon_wire();
    for p in pairs.iter_mut() {
        if p.0 == "type" {
            p.1 = txt("Railgun");
        }
    }
    let w = decode_weapon(&obj(pairs)).unwrap();
    assert_eq!(w.weapon_type, WeaponType::Unknown);
}

#[test]
fn weapon_state_has_no_fallback() {
    let mut pairs = full_weapon_wire();
    pairs.retain(|(k, _)| *k != "state");
    assert_eq!(
        decode_weapon(&obj(pairs)),
        Err(DecodeError::MissingField("state".to_string()))
    );
    let mut pairs = full_weapon_wire();
    for p in pairs.iter_mut() {
        if p.0 == "state" {
            p.1 = txt("jammed");
        }
    }
    assert_eq!(
        decode_weapon(&obj(pairs)),
        Err(DecodeError::UnknownVariant("jammed".to_string()))
    );
}

#[test]
fn weapon_renamed_display_strings() {
    let mut pairs = full_weapon_wire();
    for p in pairs.iter_mut() {
        if p.0 == "type" {
            p.1 = txt("Submachine Gun");
        }
    }
    let w = decode_weapon(&obj(pairs)).unwrap();
    assert_eq!(w.weapon_type, WeaponType::SubmachineGun);
}

#[test]
fn weapon_ammo_accepts_null_and_absent() {
    let mut pairs = full_weapon_wire();
    pairs.retain(|(k, _)| *k != "ammo_reserve");
    for p in pairs.iter_mut() {
        if p.0 == "ammo_clip" {
            p.1 = WireValue::Null;
        }
    }
    let w = decode_weapon(&obj(pairs)).unwrap();
    assert_eq!(w.ammo_clip, None);
    assert_eq!(w.ammo_reserve, None);
    assert_eq!(w.ammo_clip_max, Some(30));
}

#[test]
fn weapon_ammo_rejects_fractional_and_out_of_range() {
    let mut pairs = full_weapon_wire();
    for p in pairs.iter_mut() {
        if p.0 == "ammo_clip" {
            p.1 = num(1.5);
        }
    }
    assert_eq!(decode_weapon(&obj(pairs)), Err(DecodeError::TypeMismatch));
    let mut pairs = full_weapon_wire();
    for p in pairs.iter_mut() {
        if p.0 == "ammo_clip" {
            p.1 = WireValue::IntNum(70000);
        }
    }
    assert_eq!(decode_weapon(&obj(pairs)), Err(DecodeError::TypeMismatch));
}

#[test]
fn weapon_ignores_unknown_top_level_keys() {
    let clean = decode_weapon(&obj(full_weapon_wire())).unwrap();
    let mut pairs = full_weapon_wire();
    pairs.insert(0, ("sticker", txt("holo")));
    pairs.push(("wear", num(0.31)));
    pairs.insert(3, ("owner_slot", WireValue::IntNum(2)));
    assert_eq!(decode_weapon(&obj(pairs)).unwrap(), clean);
}

#[test]
fn weapon_duplicate_field_rejected() {
    let mut pairs = full_weapon_wire();
    pairs.push(("name", txt("weapon_deagle")));
    assert_eq!(
        decode_weapon(&obj(pairs)),
        Err(DecodeError::DuplicateField("name".to_string()))
    );
}

#[test]
fn weapon_encode_decode_round_trip() {
    let w = Weapon {
        name: "weapon_knife".to_string(),
        paint_kit: "crimson_web".to_string(),
        weapon_type: WeaponType::Knife,
        state: WeaponState::Holstered,
        ammo_clip: None,
        ammo_clip_max: None,
        ammo_reserve: Some(0),
    };
    assert_eq!(decode_weapon(&encode_weapon(&w)), Ok(w));
}

#[test]
fn weapon_type_default_is_unknown() {
    assert_eq!(WeaponType::default(), WeaponType::Unknown);
}

#[test]
fn round_over_with_both_fields() {
    let w = obj(vec![("phase", txt("over")), ("win_team", txt("ct")), ("bomb", txt("defused"))]);
    assert_eq!(
        decode_round(&w),
        Ok(Round::Over { win_team: Some(Team::CT), bomb: Some(BombState::Defused) })
    );
}

#[test]
fn round_bare_freezetime() {
    assert_eq!(decode_round(&obj(vec![("phase", txt("freezetime"))])), Ok(Round::FreezeTime));
}

#[test]
fn round_unknown_tag_rejected() {
    assert_eq!(
        decode_round(&obj(vec![("phase", txt("bogus"))])),
        Err(DecodeError::UnknownVariant("bogus".to_string()))
    );
}

#[test]
fn round_missing_tag_rejected() {
    assert_eq!(
        decode_round(&obj(vec![("bomb", txt("planted"))])),
        Err(DecodeError::MissingField("phase".to_string()))
    );
}

#[test]
fn round_live_with_bomb() {
    let w = obj(vec![("phase", txt("live")), ("bomb", txt("planted"))]);
    assert_eq!(decode_round(&w), Ok(Round::Live { bomb: Some(BombState::Planted) }));
}

#[test]
fn round_variant_field_vocabulary_closed() {
    let w = obj(vec![("phase", txt("over")), ("win_team", txt("spectator"))]);
    assert_eq!(decode_round(&w), Err(DecodeError::UnknownVariant("spectator".to_string())));
}

#[test]
fn round_ignores_foreign_and_unknown_keys() {
    let w = obj(vec![("phase", txt("live")), ("win_team", txt("anything")), ("round_no", num(7.0))]);
    assert_eq!(decode_round(&w), Ok(Round::Live { bomb: None }));
}

#[test]
fn round_encode_omits_absent_fields() {
    let w = encode_round(&Round::Over { win_team: None, bomb: Some(BombState::Exploded) });
    match w {
        WireValue::Object(pairs) => {
            assert_eq!(pairs.len(), 2);
            assert_eq!(pairs[0].0, "phase");
            assert_eq!(pairs[0].1, txt("over"));
            assert_eq!(pairs[1].0, "bomb");
            assert_eq!(pairs[1].1, txt("exploded"));
        },
        other => panic!("expected an object, got {:?}", other),
    }
}

#[test]
fn round_encode_decode_round_trip() {
    for r in [
        Round::FreezeTime,
        Round::Over { win_team: Some(Team::T), bomb: None },
        Round::Over { win_team: Some(Team::CT), bomb: Some(BombState::Defused) },
        Round::Live { bomb: None },
        Round::Live { bomb: Some(BombState::Planted) },
    ] {
        assert_eq!(decode_round(&encode_round(&r)), Ok(r));
    }
}

#[test]
fn phase_countdowns_decodes() {
    let w = obj(vec![("phase", txt("bomb")), ("phase_ends_in", txt("20.5"))]);
    assert_eq!(
        decode_phase_countdowns(&w),
        Ok(PhaseCountdowns { phase: Phase::Bomb, phase_ends_in: 20.5f64.to_bits() })
    );
}

#[test]
fn phase_countdowns_rejects_bare_number_time() {
    let w = obj(vec![("phase", txt("live")), ("phase_ends_in", num(20.5))]);
    assert_eq!(decode_phase_countdowns(&w), Err(DecodeError::TypeMismatch));
}

#[test]
fn phase_countdowns_missing_phase() {
    let w = obj(vec![("phase_ends_in", txt("1.0"))]);
    assert_eq!(
        decode_phase_countdowns(&w),
        Err(DecodeError::MissingField("phase".to_string()))
    );
}

#[test]
fn phase_countdowns_timeout_renames() {
    let w = obj(vec![("phase", txt("timeout_ct")), ("phase_ends_in", txt("60"))]);
    assert_eq!(decode_phase_countdowns(&w).unwrap().phase, Phase::TimeoutCT);
    let w = obj(vec![("phase", txt("timeout_t")), ("phase_ends_in", txt("60"))]);
    assert_eq!(decode_phase_countdowns(&w).unwrap().phase, Phase::TimeoutT);
}

#[test]
fn phase_countdowns_encode_decode_round_trip() {
    let pc = PhaseCountdowns { phase: Phase::Warmup, phase_ends_in: 12.25f64.to_bits() };
    assert_eq!(decode_phase_countdowns(&encode_phase_countdowns(&pc)), Ok(pc));
}

fn full_grenade_wire() -> Vec<(&'static str, WireValue)> {
    vec![
        ("owner", txt("76561198000000000")),
        ("lifetime", txt("2.3")),
        ("position", txt("10.0, 20.0, 30.0")),
        ("velocity", obj(vec![("x", num(0.0)), ("y", num(-1.0)), ("z", num(0.5))])),
        ("type", txt("inferno")),
        ("effecttime", txt("1.5")),
        (
            "flames",
            obj(vec![
                ("flame_a", obj(vec![("x", num(1.0)), ("y", num(2.0)), ("z", num(3.0))])),
                ("flame_b", txt("4.0,5.0,6.0")),
            ]),
        ),
    ]
}

#[test]
fn grenade_decodes_fully() {
    let g = decode_grenade(&obj(full_grenade_wire())).unwrap();
    assert_eq!(g.owner, "76561198000000000");
    assert_eq!(g.lifetime, 2.3f64.to_bits());
    assert_eq!(g.position, Some(coords(10.0, 20.0, 30.0)));
    assert_eq!(g.velocity, Some(coords(0.0, -1.0, 0.5)));
    assert_eq!(g.grenade_type, GrenadeType::Inferno);
    assert_eq!(g.effect_time, Some(1.5f64.to_bits()));
    let flames = g.flames.unwrap();
    assert_eq!(flames.len(), 2);
    assert_eq!(flames[0], ("flame_a".to_string(), coords(1.0, 2.0, 3.0)));
    assert_eq!(flames[1], ("flame_b".to_string(), coords(4.0, 5.0, 6.0)));
}

#[test]
fn grenade_optional_fields_absent_or_null() {
    let w = obj(vec![
        ("owner", txt("7656")),
        ("lifetime", txt("0.0")),
        ("position", WireValue::Null),
        ("type", txt("smoke")),
    ]);
    let g = decode_grenade(&w).unwrap();
    assert_eq!(g.position, None);
    assert_eq!(g.velocity, None);
    assert_eq!(g.effect_time, None);
    assert_eq!(g.flames, None);
}

#[test]
fn grenade_category_has_no_fallback() {
    let mut pairs = full_grenade_wire();
    for p in pairs.iter_mut() {
        if p.0 == "type" {
            p.1 = txt("molotov");
        }
    }
    assert_eq!(
        decode_grenade(&obj(pairs)),
        Err(DecodeError::UnknownVariant("molotov".to_string()))
    );
    let mut pairs = full_grenade_wire();
    pairs.retain(|(k, _)| *k != "type");
    assert_eq!(
        decode_grenade(&obj(pairs)),
        Err(DecodeError::MissingField("type".to_string()))
    );
}

#[test]
fn grenade_lifetime_must_be_numeric_string() {
    let mut pairs = full_grenade_wire();
    for p in pairs.iter_mut() {
        if p.0 == "lifetime" {
            p.1 = txt("soon");
        }
    }
    assert_eq!(decode_grenade(&obj(pairs)), Err(DecodeError::InvalidNumber));
}

#[test]
fn grenade_flame_map_rejects_duplicate_keys() {
    let mut pairs = full_grenade_wire();
    for p in pairs.iter_mut() {
        if p.0 == "flames" {
            p.1 = obj(vec![
                ("flame_a", txt("1,2,3")),
                ("flame_a", txt("4,5,6")),
            ]);
        }
    }
    assert_eq!(
        decode_grenade(&obj(pairs)),
        Err(DecodeError::DuplicateField("flame_a".to_string()))
    );
}

#[test]
fn grenade_ignores_unknown_top_level_keys() {
    let clean = decode_grenade(&obj(full_grenade_wire())).unwrap();
    let mut pairs = full_grenade_wire();
    pairs.insert(2, ("thrower_height", num(64.0)));
    pairs.push(("debug", WireValue::Bool(true)));
    assert_eq!(decode_grenade(&obj(pairs)).unwrap(), clean);
}

#[test]
fn grenade_encode_decode_round_trip() {
    let g = Grenade {
        owner: "7656".to_string(),
        lifetime: 3.5f64.to_bits(),
        position: Some(coords(1.0, 2.0, 3.0)),
        velocity: None,
        grenade_type: GrenadeType::Flashbang,
        effect_time: None,
        flames: Some(vec![("f1".to_string(), coords(0.0, 0.0, 0.0))]),
    };
    assert_eq!(decode_grenade(&encode_grenade(&g)), Ok(g));
}

#[test]
fn weapon_encode_emits_null_for_absent_ammo() {
    let w = Weapon {
        name: "weapon_c4".to_string(),
        paint_kit: "default".to_string(),
        weapon_type: WeaponType::C4,
        state: WeaponState::Active,
        ammo_clip: None,
        ammo_clip_max: None,
        ammo_reserve: None,
    };
    match encode_weapon(&w) {
        WireValue::Object(pairs) => {
            assert_eq!(pairs.len(), 7);
            assert_eq!(pairs[2], ("type".to_string(), txt("C4")));
            assert_eq!(pairs[4], ("ammo_clip".to_string(), WireValue::Null));
            assert_eq!(pairs[5], ("ammo_clip_max".to_string(), WireValue::Null));
            assert_eq!(pairs[6], ("ammo_reserve".to_string(), WireValue::Null));
        },
        other => panic!("expected an object, got {:?}", other),
    }
}

#[test]
fn round_null_variant_fields_mean_absent() {
    let w = obj(vec![
        ("phase", txt("over")),
        ("win_team", WireValue::Null),
        ("bomb", WireValue::Null),
    ]);
    assert_eq!(decode_round(&w), Ok(Round::Over { win_team: None, bomb: None }));
}

#[test]
fn record_decode_rejects_non_object_shapes() {
    assert_eq!(decode_weapon(&txt("weapon")), Err(DecodeError::TypeMismatch));
    assert_eq!(decode_round(&num(1.0)), Err(DecodeError::TypeMismatch));
    assert_eq!(decode_grenade(&WireValue::Null), Err(DecodeError::TypeMismatch));
    assert_eq!(
        decode_phase_countdowns(&WireValue::List(vec![])),
        Err(DecodeError::TypeMismatch)
    );
}
