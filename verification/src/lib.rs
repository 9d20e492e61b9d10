//! Decoder for a line-oriented, section-structured game-chart text format.
//!
//! The entry point is [`beatmap::parse_beatmap`], which turns the raw file
//! text into a fully typed [`model::Beatmap`] plus a list of recoverable
//! warnings, or a single fatal error when the mandatory version header is
//! missing. The whole pass is specified exactly by
//! [`beatmap::spec_parse_beatmap`], a spec-level fold over the file's lines.

pub mod beatmap;
pub mod coerce;
pub mod hitobject;
pub mod model;
pub mod num;
pub mod sections;
pub mod text;
pub mod timing;
pub mod typebits;
