//! Decoding layer for a real-time game-state telemetry feed.
//!
//! The feed emits JSON-like payloads in which numeric fields are sometimes
//! encoded as strings, vector quantities arrive either as a delimited string
//! or as an object with named components, and certain records are tagged
//! unions whose shape depends on a discriminant field. This crate turns such
//! wire values into strongly-typed records and renders records back into one
//! canonical wire form.

pub mod coordinates;
pub mod error;
pub mod fields;
pub mod grenade;
pub mod phase_countdowns;
pub mod numeric;
pub mod round;
pub mod text;
pub mod weapon;
pub mod wire;
