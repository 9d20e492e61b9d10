//! Decoding of one content line of the `[TimingPoints]` section.
//!
//! The record shape is `time_offset,beat_length,beats_per_measure,sample_set,
//! sample_index,volume,inherited,kiai_effects`; the first two fields are
//! required, the rest default when absent or empty. The stored flag at
//! position 6 is recorded verbatim in `inherited`: raw 1 marks an uninherited
//! tempo line, whose beat length must be positive.

use vstd::prelude::*;
use crate::coerce::{pos_bool, pos_i32, spec_pos_bool, spec_pos_i32};
use crate::model::{MalformedReason, TimingPoint, TimingPointFault};
use crate::num::{parse_decimal, parse_i32, spec_parse_decimal, spec_parse_i32};
use crate::text::{split_char, spec_split, spec_trim, trim};

verus! {

/// Why a timing-point line was dropped.
#[derive(Clone, Copy, Debug, PartialEq, Eq, Structural)]
pub enum TimingLineError {
    /// The line is structurally malformed.
    Malformed(MalformedReason),
    /// An uninherited tempo line whose beat length is not positive.
    Fault(TimingPointFault),
}

/// The timing point encoded by one content line, or why the line is dropped.
pub open spec fn spec_decode_timing(line: Seq<char>) -> Result<TimingPoint, TimingLineError> {
    let parts = spec_split(line, ',');
    if parts.len() < 2 {
        Err(TimingLineError::Malformed(MalformedReason::FieldCount))
    } else {
        match spec_parse_i32(spec_trim(parts[0])) {
            None => Err(TimingLineError::Malformed(MalformedReason::NonNumeric)),
            Some(time_offset) => match spec_parse_decimal(spec_trim(parts[1])) {
                None => Err(TimingLineError::Malformed(MalformedReason::NonNumeric)),
                Some(beat_length) => match spec_pos_i32(parts, 2, 4) {
                    Err(r) => Err(TimingLineError::Malformed(r)),
                    Ok(beats_per_measure) => match spec_pos_i32(parts, 3, 0) {
                        Err(r) => Err(TimingLineError::Malformed(r)),
                        Ok(sample_set) => match spec_pos_i32(parts, 4, 0) {
                            Err(r) => Err(TimingLineError::Malformed(r)),
                            Ok(sample_index) => match spec_pos_i32(parts, 5, 100) {
                                Err(r) => Err(TimingLineError::Malformed(r)),
                                Ok(volume) => match spec_pos_bool(parts, 6, false) {
                                    Err(r) => Err(TimingLineError::Malformed(r)),
                                    Ok(inherited) => match spec_pos_bool(parts, 7, false) {
                                        Err(r) => Err(TimingLineError::Malformed(r)),
                                        Ok(kiai_effects) => if inherited
                                            && !beat_length.spec_is_positive() {
                                            Err(
                                                TimingLineError::Fault(
                                                    TimingPointFault::NonPositiveBeatLength,
                                                ),
                                            )
                                        } else {
                                            Ok(
                                                TimingPoint {
                                                    time_offset,
                                                    beat_length,
                                                    beats_per_measure,
                                                    sample_set,
                                                    sample_index,
                                                    volume,
                                                    inherited,
                                                    kiai_effects,
                                                },
                                            )
                                        },
                                    },
                                },
                            },
                        },
                    },
                },
            },
        }
    }
}

pub fn decode_timing_line(line: &[char]) -> (r: Result<TimingPoint, TimingLineError>)
    ensures
        r == spec_decode_timing(line@),
{
    let parts = split_char(line, ',');
    let ghost ps = parts@.map_values(|t: Vec<char>| t@);
    if parts.len() < 2 {
        return Err(TimingLineError::Malformed(MalformedReason::FieldCount));
    }
    let time_offset = match parse_i32(trim(parts[0].as_slice())) {
        Some(x) => x,
        None => {
            return Err(TimingLineError::Malformed(MalformedReason::NonNumeric));
        },
    };
    let beat_length = match parse_decimal(trim(parts[1].as_slice())) {
        Some(x) => x,
        None => {
            return Err(TimingLineError::Malformed(MalformedReason::NonNumeric));
        },
    };
    let beats_per_measure = match pos_i32(&parts, 2, 4) {
        Ok(x) => x,
        Err(r) => {
            return Err(TimingLineError::Malformed(r));
        },
    };
    let sample_set = match pos_i32(&parts, 3, 0) {
        Ok(x) => x,
        Err(r) => {
            return Err(TimingLineError::Malformed(r));
        },
    };
    let sample_index = match pos_i32(&parts, 4, 0) {
        Ok(x) => x,
        Err(r) => {
            return Err(TimingLineError::Malformed(r));
        },
    };
    let volume = match pos_i32(&parts, 5, 100) {
        Ok(x) => x,
        Err(r) => {
            return Err(TimingLineError::Malformed(r));
        },
    };
    let inherited = match pos_bool(&parts, 6, false) {
        Ok(x) => x,
        Err(r) => {
            return Err(TimingLineError::Malformed(r));
        },
    };
    let kiai_effects = match pos_bool(&parts, 7, false) {
        Ok(x) => x,
        Err(r) => {
            return Err(TimingLineError::Malformed(r));
        },
    };
    if inherited && !beat_length.is_positive() {
        return Err(TimingLineError::Fault(TimingPointFault::NonPositiveBeatLength));
    }
    Ok(
        TimingPoint {
            time_offset,
            beat_length,
            beats_per_measure,
            sample_set,
            sample_index,
            volume,
            inherited,
            kiai_effects,
        },
    )
}

} // verus!
