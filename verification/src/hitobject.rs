//! Decoding of one content line of the `[HitObjects]` section.
//!
//! The first five positional fields are always `x,y,time,type_byte,hitsound`;
//! the packed type byte selects one of the four shapes (see
//! [`crate::typebits`]) and decides which trailing fields follow.

use vstd::prelude::*;
use crate::model::{HitCircle, HitObjectType, HitObjectV, HoldNote, MalformedReason, Slider,
    SliderCurve, Spinner};
use crate::num::{parse_decimal, parse_i32, spec_parse_decimal, spec_parse_i32};
use crate::text::{find_from, split_char, spec_find, spec_split, spec_trim, trim};
use crate::typebits::{Shape, color_skip, new_combo, shape_of, spec_shape_of};
use vstd::slice::slice_subrange;

verus! {

/// Why a hit-object line was dropped.
#[derive(Clone, Copy, Debug, PartialEq, Eq, Structural)]
pub enum HitObjectLineError {
    /// The line is structurally malformed.
    Malformed(MalformedReason),
    /// The masked type byte selects no shape, or several.
    InvalidType(u8),
}

/// The curve type named by a slider's curve letter.
pub open spec fn spec_curve_letter(t: Seq<char>) -> Option<SliderCurve> {
    if t == "B"@ {
        Some(SliderCurve::Bezier)
    } else if t == "C"@ {
        Some(SliderCurve::Catmull)
    } else if t == "L"@ {
        Some(SliderCurve::Linear)
    } else if t == "P"@ {
        Some(SliderCurve::PerfectCircle)
    } else {
        None
    }
}

fn curve_letter(t: &[char]) -> (r: Option<SliderCurve>)
    ensures
        r == spec_curve_letter(t@),
{
    if crate::text::eq_str(t, "B") {
        Some(SliderCurve::Bezier)
    } else if crate::text::eq_str(t, "C") {
        Some(SliderCurve::Catmull)
    } else if crate::text::eq_str(t, "L") {
        Some(SliderCurve::Linear)
    } else if crate::text::eq_str(t, "P") {
        Some(SliderCurve::PerfectCircle)
    } else {
        None
    }
}

/// One `x:y` control-point token as a coordinate pair.
pub open spec fn spec_pair(seg: Seq<char>) -> Option<(i32, i32)> {
    let ps = spec_split(seg, ':');
    if ps.len() == 2 {
        match spec_parse_i32(spec_trim(ps[0])) {
            None => None,
            Some(a) => match spec_parse_i32(spec_trim(ps[1])) {
                None => None,
                Some(b) => Some((a, b)),
            },
        }
    } else {
        None
    }
}

fn parse_pair(seg: &[char]) -> (r: Option<(i32, i32)>)
    ensures
        r == spec_pair(seg@),
{
    let ps = split_char(seg, ':');
    if ps.len() != 2 {
        return None;
    }
    let a = match parse_i32(trim(ps[0].as_slice())) {
        Some(a) => a,
        None => {
            return None;
        },
    };
    let b = match parse_i32(trim(ps[1].as_slice())) {
        Some(b) => b,
        None => {
            return None;
        },
    };
    Some((a, b))
}

/// The control points of a curve token's pieces, past the leading curve
/// letter; one bad pair spoils the list.
pub open spec fn spec_curve_points(segs: Seq<Seq<char>>) -> Option<Seq<(i32, i32)>> {
    if forall|k: int| 1 <= k < segs.len() ==> spec_pair(segs[k]) is Some {
        Some(Seq::new((segs.len() - 1) as nat, |k: int| spec_pair(segs[k + 1])->0))
    } else {
        None
    }
}

fn parse_curve_points(segs: &Vec<Vec<char>>) -> (r: Option<Vec<(i32, i32)>>)
    requires
        segs@.len() >= 1,
    ensures
        ({
            let s = spec_curve_points(segs@.map_values(|t: Vec<char>| t@));
            match r {
                Some(out) => s == Some(out@),
                None => s is None,
            }
        }),
{
    let ghost ss = segs@.map_values(|t: Vec<char>| t@);
    let mut out: Vec<(i32, i32)> = Vec::new();
    let mut k: usize = 1;
    while k < segs.len()
        invariant
            1 <= k <= segs@.len(),
            ss == segs@.map_values(|t: Vec<char>| t@),
            out@.len() == k - 1,
            forall|q: int| 1 <= q < k ==> spec_pair(ss[q]) is Some,
            forall|q: int| 0 <= q < k - 1 ==> out@[q] == spec_pair(ss[q + 1])->0,
        decreases segs@.len() - k,
    {
        match parse_pair(segs[k].as_slice()) {
            Some(p) => {
                out.push(p);
            },
            None => {
                proof {
                    assert(ss[k as int] == segs@[k as int]@);
                    assert(spec_pair(ss[k as int]) is None);
                    assert(!(forall|q: int| 1 <= q < ss.len() ==> spec_pair(ss[q]) is Some));
                }
                return None;
            },
        }
        k = k + 1;
    }
    proof {
        assert(out@ =~= Seq::new((ss.len() - 1) as nat, |q: int| spec_pair(ss[q + 1])->0));
    }
    Some(out)
}

/// The hold-note token's leading component, before any `:`.
pub open spec fn spec_head_before_colon(t: Seq<char>) -> Seq<char> {
    match spec_find(t, ':') {
        None => t,
        Some(i) => t.subrange(0, i),
    }
}

/// The hit object encoded by one content line, or why the line is dropped.
pub open spec fn spec_decode_hitobject(line: Seq<char>) -> Result<HitObjectV, HitObjectLineError> {
    let parts = spec_split(line, ',');
    if parts.len() < 5 {
        Err(HitObjectLineError::Malformed(MalformedReason::FieldCount))
    } else {
        match spec_parse_i32(spec_trim(parts[0])) {
            None => Err(HitObjectLineError::Malformed(MalformedReason::NonNumeric)),
            Some(x) => match spec_parse_i32(spec_trim(parts[1])) {
                None => Err(HitObjectLineError::Malformed(MalformedReason::NonNumeric)),
                Some(y) => match spec_parse_i32(spec_trim(parts[2])) {
                    None => Err(HitObjectLineError::Malformed(MalformedReason::NonNumeric)),
                    Some(time) => match spec_parse_i32(spec_trim(parts[3])) {
                        None => Err(HitObjectLineError::Malformed(MalformedReason::NonNumeric)),
                        Some(tv) => if !(0 <= tv <= 255) {
                            Err(HitObjectLineError::Malformed(MalformedReason::OutOfRange))
                        } else {
                            let byte = tv as u8;
                            match spec_parse_i32(spec_trim(parts[4])) {
                                None => Err(
                                    HitObjectLineError::Malformed(MalformedReason::NonNumeric),
                                ),
                                Some(hitsound) => spec_decode_shaped(parts, byte, x, y, time, hitsound),
                            }
                        },
                    },
                },
            },
        }
    }
}

/// Shape dispatch for a line whose five shared fields are already decoded.
pub open spec fn spec_decode_shaped(
    parts: Seq<Seq<char>>,
    byte: u8,
    x: i32,
    y: i32,
    time: i32,
    hitsound: i32,
) -> Result<HitObjectV, HitObjectLineError> {
    let nc = (byte & 4) != 0;
    let cs = ((byte >> 4) & 7) as i32;
    match spec_shape_of(byte) {
        None => Err(HitObjectLineError::InvalidType(byte)),
        Some(Shape::Circle) => Ok(
            HitObjectV::HitCircle(
                HitCircle { x, y, time, new_combo: nc, color_skip: cs, hit_sound: hitsound },
            ),
        ),
        Some(Shape::Slider) => if parts.len() < 8 {
            Err(HitObjectLineError::Malformed(MalformedReason::FieldCount))
        } else {
            let segs = spec_split(spec_trim(parts[5]), '|');
            match spec_curve_letter(spec_trim(segs[0])) {
                None => Err(HitObjectLineError::Malformed(MalformedReason::BadCurveType)),
                Some(slider_type) => if segs.len() == 1 {
                    Err(HitObjectLineError::Malformed(MalformedReason::EmptyCurvePoints))
                } else {
                    match spec_curve_points(segs) {
                        None => Err(HitObjectLineError::Malformed(MalformedReason::NonNumeric)),
                        Some(curve_points) => match spec_parse_i32(spec_trim(parts[6])) {
                            None => Err(
                                HitObjectLineError::Malformed(MalformedReason::NonNumeric),
                            ),
                            Some(repeat) => if repeat < 1 {
                                Err(HitObjectLineError::Malformed(MalformedReason::OutOfRange))
                            } else {
                                match spec_parse_decimal(spec_trim(parts[7])) {
                                    None => Err(
                                        HitObjectLineError::Malformed(MalformedReason::NonNumeric),
                                    ),
                                    Some(pixel_length) => if pixel_length.numer() < 0 {
                                        Err(
                                            HitObjectLineError::Malformed(
                                                MalformedReason::OutOfRange,
                                            ),
                                        )
                                    } else {
                                        Ok(
                                            HitObjectV::Slider(
                                                crate::model::SliderV {
                                                    x,
                                                    y,
                                                    time,
                                                    new_combo: nc,
                                                    color_skip: cs,
                                                    hitsound,
                                                    slider_type,
                                                    curve_points,
                                                    repeat,
                                                    pixel_length,
                                                },
                                            ),
                                        )
                                    },
                                }
                            },
                        },
                    }
                },
            }
        },
        Some(Shape::Spinner) => if parts.len() < 6 {
            Err(HitObjectLineError::Malformed(MalformedReason::FieldCount))
        } else {
            match spec_parse_i32(spec_trim(parts[5])) {
                None => Err(HitObjectLineError::Malformed(MalformedReason::NonNumeric)),
                Some(end_time) => if end_time < time {
                    Err(HitObjectLineError::Malformed(MalformedReason::OutOfRange))
                } else {
                    Ok(
                        HitObjectV::Spinner(
                            Spinner {
                                x,
                                y,
                                new_combo: nc,
                                color_skip: cs,
                                time,
                                hitsound,
                                end_time,
                            },
                        ),
                    )
                },
            }
        },
        Some(Shape::Hold) => if parts.len() < 6 {
            Err(HitObjectLineError::Malformed(MalformedReason::FieldCount))
        } else {
            match spec_parse_i32(spec_head_before_colon(spec_trim(parts[5]))) {
                None => Err(HitObjectLineError::Malformed(MalformedReason::NonNumeric)),
                Some(end_time) => Ok(
                    HitObjectV::HoldNote(
                        HoldNote { x, y, new_combo: nc, color_skip: cs, time, hitsound, end_time },
                    ),
                ),
            }
        },
    }
}

/// The view of a decode result, for stating the decoder's contract.
pub open spec fn spec_ho_res(r: Result<HitObjectType, HitObjectLineError>) -> Result<
    HitObjectV,
    HitObjectLineError,
> {
    match r {
        Ok(h) => Ok(h@),
        Err(e) => Err(e),
    }
}

pub fn decode_hitobject_line(line: &[char]) -> (r: Result<HitObjectType, HitObjectLineError>)
    ensures
        spec_ho_res(r) == spec_decode_hitobject(line@),
{
    let parts = split_char(line, ',');
    let ghost ps = parts@.map_values(|t: Vec<char>| t@);
    if parts.len() < 5 {
        return Err(HitObjectLineError::Malformed(MalformedReason::FieldCount));
    }
    let x = match parse_i32(trim(parts[0].as_slice())) {
        Some(v) => v,
        None => {
            return Err(HitObjectLineError::Malformed(MalformedReason::NonNumeric));
        },
    };
    let y = match parse_i32(trim(parts[1].as_slice())) {
        Some(v) => v,
        None => {
            return Err(HitObjectLineError::Malformed(MalformedReason::NonNumeric));
        },
    };
    let time = match parse_i32(trim(parts[2].as_slice())) {
        Some(v) => v,
        None => {
            return Err(HitObjectLineError::Malformed(MalformedReason::NonNumeric));
        },
    };
    let tv = match parse_i32(trim(parts[3].as_slice())) {
        Some(v) => v,
        None => {
            return Err(HitObjectLineError::Malformed(MalformedReason::NonNumeric));
        },
    };
    if tv < 0 || tv > 255 {
        return Err(HitObjectLineError::Malformed(MalformedReason::OutOfRange));
    }
    let byte = tv as u8;
    let hitsound = match parse_i32(trim(parts[4].as_slice())) {
        Some(v) => v,
        None => {
            return Err(HitObjectLineError::Malformed(MalformedReason::NonNumeric));
        },
    };
    let nc = new_combo(byte);
    let cs = color_skip(byte) as i32;
    match shape_of(byte) {
        None => Err(HitObjectLineError::InvalidType(byte)),
        Some(Shape::Circle) => Ok(
            HitObjectType::HitCircle(
                HitCircle { x, y, time, new_combo: nc, color_skip: cs, hit_sound: hitsound },
            ),
        ),
        Some(Shape::Slider) => {
            if parts.len() < 8 {
                return Err(HitObjectLineError::Malformed(MalformedReason::FieldCount));
            }
            let curve_tok = trim(parts[5].as_slice());
            let segs = split_char(curve_tok, '|');
            proof {
                crate::text::lemma_split_len(curve_tok@, '|');
            }
            let slider_type = match curve_letter(trim(segs[0].as_slice())) {
                Some(t) => t,
                None => {
                    return Err(HitObjectLineError::Malformed(MalformedReason::BadCurveType));
                },
            };
            if segs.len() == 1 {
                return Err(HitObjectLineError::Malformed(MalformedReason::EmptyCurvePoints));
            }
            let curve_points = match parse_curve_points(&segs) {
                Some(cp) => cp,
                None => {
                    return Err(HitObjectLineError::Malformed(MalformedReason::NonNumeric));
                },
            };
            let repeat = match parse_i32(trim(parts[6].as_slice())) {
                Some(v) => v,
                None => {
                    return Err(HitObjectLineError::Malformed(MalformedReason::NonNumeric));
                },
            };
            if repeat < 1 {
                return Err(HitObjectLineError::Malformed(MalformedReason::OutOfRange));
            }
            let pixel_length = match parse_decimal(trim(parts[7].as_slice())) {
                Some(v) => v,
                None => {
                    return Err(HitObjectLineError::Malformed(MalformedReason::NonNumeric));
                },
            };
            if pixel_length.is_negative() {
                return Err(HitObjectLineError::Malformed(MalformedReason::OutOfRange));
            }
            Ok(
                HitObjectType::Slider(
                    Slider {
                        x,
                        y,
                        time,
                        new_combo: nc,
                        color_skip: cs,
                        hitsound,
                        slider_type,
                        curve_points,
                        repeat,
                        pixel_length,
                    },
                ),
            )
        },
        Some(Shape::Spinner) => {
            if parts.len() < 6 {
                return Err(HitObjectLineError::Malformed(MalformedReason::FieldCount));
            }
            let end_time = match parse_i32(trim(parts[5].as_slice())) {
                Some(v) => v,
                None => {
                    return Err(HitObjectLineError::Malformed(MalformedReason::NonNumeric));
                },
            };
            if end_time < time {
                return Err(HitObjectLineError::Malformed(MalformedReason::OutOfRange));
            }
            Ok(
                HitObjectType::Spinner(
                    Spinner { x, y, new_combo: nc, color_skip: cs, time, hitsound, end_time },
                ),
            )
        },
        Some(Shape::Hold) => {
            if parts.len() < 6 {
                return Err(HitObjectLineError::Malformed(MalformedReason::FieldCount));
            }
            let tok = trim(parts[5].as_slice());
            let head = match find_from(tok, 0, ':') {
                Some(i) => slice_subrange(tok, 0, i),
                None => tok,
            };
            proof {
                assert(tok@.subrange(0, tok@.len() as int) =~= tok@);
            }
            let end_time = match parse_i32(head) {
                Some(v) => v,
                None => {
                    return Err(HitObjectLineError::Malformed(MalformedReason::NonNumeric));
                },
            };
            Ok(
                HitObjectType::HoldNote(
                    HoldNote { x, y, new_combo: nc, color_skip: cs, time, hitsound, end_time },
                ),
            )
        },
    }
}

} // verus!
