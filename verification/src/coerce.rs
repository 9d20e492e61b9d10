//! The field coercion engine: a raw token becomes a typed value, or the
//! field's documented default. An absent or empty token silently yields the
//! default; a present but invalid token yields the default together with the
//! reason, which callers record as a warning or treat as a malformed line.

use vstd::prelude::*;
use crate::model::{GamemodeType, MalformedReason, spec_mode_from_int, mode_from_int};
use crate::num::{Decimal, parse_decimal, parse_i32, spec_parse_decimal, spec_parse_i32};
use crate::text::{spec_trim, trim};

verus! {

/// Coercion of a present token to `i32`: empty falls back to the default.
pub open spec fn spec_coerce_i32(v: Seq<char>, dflt: i32) -> (i32, Option<MalformedReason>) {
    if v.len() == 0 {
        (dflt, None)
    } else {
        match spec_parse_i32(v) {
            Some(x) => (x, None),
            None => (dflt, Some(MalformedReason::NonNumeric)),
        }
    }
}

pub fn coerce_i32(v: &[char], dflt: i32) -> (r: (i32, Option<MalformedReason>))
    ensures
        r == spec_coerce_i32(v@, dflt),
{
    if v.len() == 0 {
        (dflt, None)
    } else {
        match parse_i32(v) {
            Some(x) => (x, None),
            None => (dflt, Some(MalformedReason::NonNumeric)),
        }
    }
}

/// Coercion of a present token to a decimal: empty falls back to the default.
pub open spec fn spec_coerce_decimal(v: Seq<char>, dflt: Decimal) -> (
    Decimal,
    Option<MalformedReason>,
) {
    if v.len() == 0 {
        (dflt, None)
    } else {
        match spec_parse_decimal(v) {
            Some(x) => (x, None),
            None => (dflt, Some(MalformedReason::NonNumeric)),
        }
    }
}

pub fn coerce_decimal(v: &[char], dflt: Decimal) -> (r: (Decimal, Option<MalformedReason>))
    ensures
        r == spec_coerce_decimal(v@, dflt),
{
    if v.len() == 0 {
        (dflt, None)
    } else {
        match parse_decimal(v) {
            Some(x) => (x, None),
            None => (dflt, Some(MalformedReason::NonNumeric)),
        }
    }
}

/// Coercion of a present token to a boolean: only the numbers 0 and 1 are
/// accepted.
pub open spec fn spec_coerce_bool(v: Seq<char>, dflt: bool) -> (bool, Option<MalformedReason>) {
    if v.len() == 0 {
        (dflt, None)
    } else {
        match spec_parse_i32(v) {
            Some(x) => if x == 0 {
                (false, None)
            } else if x == 1 {
                (true, None)
            } else {
                (dflt, Some(MalformedReason::OutOfRange))
            },
            None => (dflt, Some(MalformedReason::NonNumeric)),
        }
    }
}

pub fn coerce_bool(v: &[char], dflt: bool) -> (r: (bool, Option<MalformedReason>))
    ensures
        r == spec_coerce_bool(v@, dflt),
{
    if v.len() == 0 {
        (dflt, None)
    } else {
        match parse_i32(v) {
            Some(0i32) => (false, None),
            Some(1i32) => (true, None),
            Some(_) => (dflt, Some(MalformedReason::OutOfRange)),
            None => (dflt, Some(MalformedReason::NonNumeric)),
        }
    }
}

/// Coercion of a present token to a game mode: an integer naming one of the
/// four modes.
pub open spec fn spec_coerce_mode(v: Seq<char>) -> (GamemodeType, Option<MalformedReason>) {
    if v.len() == 0 {
        (GamemodeType::Osu, None)
    } else {
        match spec_parse_i32(v) {
            Some(x) => match spec_mode_from_int(x) {
                Some(m) => (m, None),
                None => (GamemodeType::Osu, Some(MalformedReason::OutOfRange)),
            },
            None => (GamemodeType::Osu, Some(MalformedReason::NonNumeric)),
        }
    }
}

pub fn coerce_mode(v: &[char]) -> (r: (GamemodeType, Option<MalformedReason>))
    ensures
        r == spec_coerce_mode(v@),
{
    if v.len() == 0 {
        (GamemodeType::Osu, None)
    } else {
        match parse_i32(v) {
            Some(x) => match mode_from_int(x) {
                Some(m) => (m, None),
                None => (GamemodeType::Osu, Some(MalformedReason::OutOfRange)),
            },
            None => (GamemodeType::Osu, Some(MalformedReason::NonNumeric)),
        }
    }
}

/// The trimmed positional field `k`, or the default when the record ends
/// before it or it is empty; a present token that does not parse is the
/// line's fault.
pub open spec fn spec_pos_i32(parts: Seq<Seq<char>>, k: int, dflt: i32) -> Result<
    i32,
    MalformedReason,
> {
    if k >= parts.len() {
        Ok(dflt)
    } else {
        let t = spec_trim(parts[k]);
        if t.len() == 0 {
            Ok(dflt)
        } else {
            match spec_parse_i32(t) {
                Some(x) => Ok(x),
                None => Err(MalformedReason::NonNumeric),
            }
        }
    }
}

pub fn pos_i32(parts: &Vec<Vec<char>>, k: usize, dflt: i32) -> (r: Result<i32, MalformedReason>)
    ensures
        r == spec_pos_i32(parts@.map_values(|t: Vec<char>| t@), k as int, dflt),
{
    if k >= parts.len() {
        Ok(dflt)
    } else {
        let t = trim(parts[k].as_slice());
        if t.len() == 0 {
            Ok(dflt)
        } else {
            match parse_i32(t) {
                Some(x) => Ok(x),
                None => Err(MalformedReason::NonNumeric),
            }
        }
    }
}

/// The trimmed positional field `k` as a boolean, with the same fallback
/// policy as `spec_pos_i32`; only the numbers 0 and 1 name booleans.
pub open spec fn spec_pos_bool(parts: Seq<Seq<char>>, k: int, dflt: bool) -> Result<
    bool,
    MalformedReason,
> {
    if k >= parts.len() {
        Ok(dflt)
    } else {
        let t = spec_trim(parts[k]);
        if t.len() == 0 {
            Ok(dflt)
        } else {
            match spec_parse_i32(t) {
                Some(x) => if x == 0 {
                    Ok(false)
                } else if x == 1 {
                    Ok(true)
                } else {
                    Err(MalformedReason::OutOfRange)
                },
                None => Err(MalformedReason::NonNumeric),
            }
        }
    }
}

pub fn pos_bool(parts: &Vec<Vec<char>>, k: usize, dflt: bool) -> (r: Result<bool, MalformedReason>)
    ensures
        r == spec_pos_bool(parts@.map_values(|t: Vec<char>| t@), k as int, dflt),
{
    if k >= parts.len() {
        Ok(dflt)
    } else {
        let t = trim(parts[k].as_slice());
        if t.len() == 0 {
            Ok(dflt)
        } else {
            match parse_i32(t) {
                Some(0i32) => Ok(false),
                Some(1i32) => Ok(true),
                Some(_) => Err(MalformedReason::OutOfRange),
                None => Err(MalformedReason::NonNumeric),
            }
        }
    }
}

} // verus!
