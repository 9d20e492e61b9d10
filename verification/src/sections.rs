//! Decoding of `Key: value` lines for the General, Editor, Metadata and
//! Difficulty sections. Each apply function folds one pair into the section
//! record, returning the coercion fault, if any, for the caller to record.

use vstd::prelude::*;
use vstd::slice::slice_to_vec;
use crate::coerce::{coerce_bool, coerce_decimal, coerce_i32, coerce_mode, spec_coerce_bool,
    spec_coerce_decimal, spec_coerce_i32, spec_coerce_mode};
use crate::model::{EditorSection, EditorV, GeneralSection, GeneralV, MalformedReason,
    MetadataSection, MetadataV, DifficultySection};
use crate::num::{Decimal, parse_i32, spec_parse_i32};
use crate::text::{eq_str, split_char, spec_split, spec_trim, trim};

verus! {

/// One `Key: value` pair folded into the General section. Unknown keys are
/// ignored, matching the format's tolerance.
pub open spec fn spec_apply_general(g: GeneralV, k: Seq<char>, v: Seq<char>) -> (
    GeneralV,
    Option<MalformedReason>,
) {
    if k == "AudioFilename"@ {
        (GeneralV { audio_filename: v, ..g }, None)
    } else if k == "AudioLeadIn"@ {
        let (x, w) = spec_coerce_i32(v, 0);
        (GeneralV { audio_lead_in: x, ..g }, w)
    } else if k == "PreviewTime"@ {
        let (x, w) = spec_coerce_i32(v, -1i32);
        (GeneralV { preview_time: x, ..g }, w)
    } else if k == "SampleSet"@ {
        (GeneralV { sample_set: v, ..g }, None)
    } else if k == "StackLeniency"@ {
        let (x, w) = spec_coerce_decimal(v, Decimal { neg: false, mantissa: 0, scale: 0 });
        (GeneralV { stack_leniency: x, ..g }, w)
    } else if k == "Mode"@ {
        let (x, w) = spec_coerce_mode(v);
        (GeneralV { mode: x, ..g }, w)
    } else if k == "LetterboxInBreaks"@ {
        let (x, w) = spec_coerce_bool(v, false);
        (GeneralV { letterbox_in_breaks: x, ..g }, w)
    } else if k == "UseSkinSprites"@ {
        let (x, w) = spec_coerce_bool(v, false);
        (GeneralV { use_skin_sprites: x, ..g }, w)
    } else if k == "SkinPreference"@ {
        (GeneralV { skin_preference: v, ..g }, None)
    } else if k == "EpilepsyWarning"@ {
        let (x, w) = spec_coerce_bool(v, false);
        (GeneralV { epilepsy_warning: x, ..g }, w)
    } else if k == "SpecialStyle"@ {
        let (x, w) = spec_coerce_bool(v, false);
        (GeneralV { special_style: x, ..g }, w)
    } else if k == "WidescreenStoryboard"@ {
        let (x, w) = spec_coerce_bool(v, false);
        (GeneralV { widescreen_storyboard: x, ..g }, w)
    } else if k == "SamplesMatchPlaybackRate"@ {
        let (x, w) = spec_coerce_bool(v, false);
        (GeneralV { samples_match_playback_rate: x, ..g }, w)
    } else {
        (g, None)
    }
}

pub fn apply_general(g: &mut GeneralSection, k: &[char], v: &[char]) -> (w: Option<MalformedReason>)
    ensures
        (final(g)@, w) == spec_apply_general(old(g)@, k@, v@),
{
    if eq_str(k, "AudioFilename") {
        g.audio_filename = slice_to_vec(v);
        None
    } else if eq_str(k, "AudioLeadIn") {
        let (x, w) = coerce_i32(v, 0);
        g.audio_lead_in = x;
        w
    } else if eq_str(k, "PreviewTime") {
        let (x, w) = coerce_i32(v, -1);
        g.preview_time = x;
        w
    } else if eq_str(k, "SampleSet") {
        g.sample_set = slice_to_vec(v);
        None
    } else if eq_str(k, "StackLeniency") {
        let (x, w) = coerce_decimal(v, Decimal { neg: false, mantissa: 0, scale: 0 });
        g.stack_leniency = x;
        w
    } else if eq_str(k, "Mode") {
        let (x, w) = coerce_mode(v);
        g.mode = x;
        w
    } else if eq_str(k, "LetterboxInBreaks") {
        let (x, w) = coerce_bool(v, false);
        g.letterbox_in_breaks = x;
        w
    } else if eq_str(k, "UseSkinSprites") {
        let (x, w) = coerce_bool(v, false);
        g.use_skin_sprites = x;
        w
    } else if eq_str(k, "SkinPreference") {
        g.skin_preference = slice_to_vec(v);
        None
    } else if eq_str(k, "EpilepsyWarning") {
        let (x, w) = coerce_bool(v, false);
        g.epilepsy_warning = x;
        w
    } else if eq_str(k, "SpecialStyle") {
        let (x, w) = coerce_bool(v, false);
        g.special_style = x;
        w
    } else if eq_str(k, "WidescreenStoryboard") {
        let (x, w) = coerce_bool(v, false);
        g.widescreen_storyboard = x;
        w
    } else if eq_str(k, "SamplesMatchPlaybackRate") {
        let (x, w) = coerce_bool(v, false);
        g.samples_match_playback_rate = x;
        w
    } else {
        None
    }
}

/// The bookmark list: comma-separated integers; one bad entry spoils the
/// whole list.
pub open spec fn spec_bookmarks(parts: Seq<Seq<char>>) -> Option<Seq<i32>> {
    if forall|m: int| 0 <= m < parts.len() ==> spec_parse_i32(spec_trim(parts[m])) is Some {
        Some(Seq::new(parts.len(), |m: int| spec_parse_i32(spec_trim(parts[m]))->0))
    } else {
        None
    }
}

fn parse_bookmarks(v: &[char]) -> (r: Option<Vec<i32>>)
    ensures
        ({
            let s = spec_bookmarks(spec_split(v@, ','));
            match r {
                Some(out) => s == Some(out@),
                None => s is None,
            }
        }),
{
    let parts = split_char(v, ',');
    let ghost ps = parts@.map_values(|t: Vec<char>| t@);
    let mut out: Vec<i32> = Vec::new();
    let mut m: usize = 0;
    while m < parts.len()
        invariant
            m <= parts@.len(),
            ps == parts@.map_values(|t: Vec<char>| t@),
            ps == spec_split(v@, ','),
            out@.len() == m,
            forall|q: int| 0 <= q < m ==> spec_parse_i32(spec_trim(ps[q])) is Some,
            forall|q: int| 0 <= q < m ==> out@[q] == spec_parse_i32(spec_trim(ps[q]))->0,
        decreases parts@.len() - m,
    {
        let t = trim(parts[m].as_slice());
        match parse_i32(t) {
            Some(x) => {
                out.push(x);
            },
            None => {
                proof {
                    assert(ps[m as int] == parts@[m as int]@);
                    assert(spec_parse_i32(spec_trim(ps[m as int])) is None);
                    assert(!(forall|q: int|
                        0 <= q < ps.len() ==> spec_parse_i32(spec_trim(ps[q])) is Some));
                }
                return None;
            },
        }
        m = m + 1;
    }
    proof {
        assert(out@ =~= Seq::new(ps.len(), |q: int| spec_parse_i32(spec_trim(ps[q]))->0));
    }
    Some(out)
}

/// One `Key: value` pair folded into the Editor section.
pub open spec fn spec_apply_editor(e: EditorV, k: Seq<char>, v: Seq<char>) -> (
    EditorV,
    Option<MalformedReason>,
) {
    if k == "Bookmarks"@ {
        if v.len() == 0 {
            (EditorV { bookmarks: Seq::empty(), ..e }, None)
        } else {
            match spec_bookmarks(spec_split(v, ',')) {
                Some(bs) => (EditorV { bookmarks: bs, ..e }, None),
                None => (
                    EditorV { bookmarks: Seq::empty(), ..e },
                    Some(MalformedReason::NonNumeric),
                ),
            }
        }
    } else if k == "DistanceSpacing"@ {
        let (x, w) = spec_coerce_decimal(v, Decimal { neg: false, mantissa: 122, scale: 2 });
        (EditorV { distance_spacing: x, ..e }, w)
    } else if k == "BeatDivisor"@ {
        let (x, w) = spec_coerce_i32(v, 4);
        (EditorV { beat_divisor: x, ..e }, w)
    } else if k == "GridSize"@ {
        let (x, w) = spec_coerce_i32(v, 4);
        (EditorV { grid_size: x, ..e }, w)
    } else if k == "TimelineZoom"@ {
        let (x, w) = spec_coerce_decimal(v, Decimal { neg: false, mantissa: 10, scale: 1 });
        (EditorV { timeline_zoom: x, ..e }, w)
    } else {
        (e, None)
    }
}

pub fn apply_editor(e: &mut EditorSection, k: &[char], v: &[char]) -> (w: Option<MalformedReason>)
    ensures
        (final(e)@, w) == spec_apply_editor(old(e)@, k@, v@),
{
    if eq_str(k, "Bookmarks") {
        if v.len() == 0 {
            e.bookmarks = Vec::new();
            None
        } else {
            match parse_bookmarks(v) {
                Some(bs) => {
                    e.bookmarks = bs;
                    None
                },
                None => {
                    e.bookmarks = Vec::new();
                    Some(MalformedReason::NonNumeric)
                },
            }
        }
    } else if eq_str(k, "DistanceSpacing") {
        let (x, w) = coerce_decimal(v, Decimal { neg: false, mantissa: 122, scale: 2 });
        e.distance_spacing = x;
        w
    } else if eq_str(k, "BeatDivisor") {
        let (x, w) = coerce_i32(v, 4);
        e.beat_divisor = x;
        w
    } else if eq_str(k, "GridSize") {
        let (x, w) = coerce_i32(v, 4);
        e.grid_size = x;
        w
    } else if eq_str(k, "TimelineZoom") {
        let (x, w) = coerce_decimal(v, Decimal { neg: false, mantissa: 10, scale: 1 });
        e.timeline_zoom = x;
        w
    } else {
        None
    }
}

/// The nonempty pieces of a tag list split on spaces.
pub open spec fn spec_keep_nonempty(parts: Seq<Seq<char>>) -> Seq<Seq<char>>
    decreases parts.len(),
{
    if parts.len() == 0 {
        Seq::empty()
    } else {
        spec_keep_nonempty(parts.drop_last()) + if parts.last().len() > 0 {
            seq![parts.last()]
        } else {
            Seq::empty()
        }
    }
}

fn parse_tags(v: &[char]) -> (r: Vec<Vec<char>>)
    ensures
        r@.map_values(|t: Vec<char>| t@) == spec_keep_nonempty(spec_split(v@, ' ')),
{
    let parts = split_char(v, ' ');
    let ghost ps = parts@.map_values(|t: Vec<char>| t@);
    let mut out: Vec<Vec<char>> = Vec::new();
    let mut m: usize = 0;
    proof {
        assert(ps.take(0) =~= Seq::<Seq<char>>::empty());
        assert(out@.map_values(|t: Vec<char>| t@) =~= Seq::<Seq<char>>::empty());
    }
    while m < parts.len()
        invariant
            m <= parts@.len(),
            ps == parts@.map_values(|t: Vec<char>| t@),
            ps == spec_split(v@, ' '),
            out@.map_values(|t: Vec<char>| t@) == spec_keep_nonempty(ps.take(m as int)),
        decreases parts@.len() - m,
    {
        let ghost prev = out@.map_values(|t: Vec<char>| t@);
        if parts[m].len() > 0 {
            let piece = slice_to_vec(parts[m].as_slice());
            out.push(piece);
            proof {
                assert(out@.map_values(|t: Vec<char>| t@) =~= prev + seq![ps[m as int]]);
            }
        }
        proof {
            assert(ps.take(m + 1).drop_last() =~= ps.take(m as int));
            assert(ps.take(m + 1).last() == ps[m as int]);
            if ps[m as int].len() == 0 {
                assert(spec_keep_nonempty(ps.take(m + 1)) =~= spec_keep_nonempty(
                    ps.take(m as int),
                ));
            }
        }
        m = m + 1;
    }
    proof {
        assert(ps.take(ps.len() as int) =~= ps);
    }
    out
}

/// One `Key: value` pair folded into the Metadata section.
pub open spec fn spec_apply_metadata(d: MetadataV, k: Seq<char>, v: Seq<char>) -> (
    MetadataV,
    Option<MalformedReason>,
) {
    if k == "Title"@ {
        (MetadataV { title: v, ..d }, None)
    } else if k == "TitleUnicode"@ {
        (MetadataV { title_unicode: v, ..d }, None)
    } else if k == "Artist"@ {
        (MetadataV { artist: v, ..d }, None)
    } else if k == "ArtistUnicode"@ {
        (MetadataV { artist_unicode: v, ..d }, None)
    } else if k == "Creator"@ {
        (MetadataV { creator: v, ..d }, None)
    } else if k == "Version"@ {
        (MetadataV { version: v, ..d }, None)
    } else if k == "Source"@ {
        (MetadataV { source: v, ..d }, None)
    } else if k == "Tags"@ {
        (MetadataV { tags: spec_keep_nonempty(spec_split(v, ' ')), ..d }, None)
    } else if k == "BeatmapID"@ {
        let (x, w) = spec_coerce_i32(v, 0);
        (MetadataV { beatmap_ID: x, ..d }, w)
    } else if k == "BeatmapSetID"@ {
        let (x, w) = spec_coerce_i32(v, 0);
        (MetadataV { beatmap_set_ID: x, ..d }, w)
    } else {
        (d, None)
    }
}

pub fn apply_metadata(d: &mut MetadataSection, k: &[char], v: &[char]) -> (w: Option<
    MalformedReason,
>)
    ensures
        (final(d)@, w) == spec_apply_metadata(old(d)@, k@, v@),
{
    if eq_str(k, "Title") {
        d.title = slice_to_vec(v);
        None
    } else if eq_str(k, "TitleUnicode") {
        d.title_unicode = slice_to_vec(v);
        None
    } else if eq_str(k, "Artist") {
        d.artist = slice_to_vec(v);
        None
    } else if eq_str(k, "ArtistUnicode") {
        d.artist_unicode = slice_to_vec(v);
        None
    } else if eq_str(k, "Creator") {
        d.creator = slice_to_vec(v);
        None
    } else if eq_str(k, "Version") {
        d.version = slice_to_vec(v);
        None
    } else if eq_str(k, "Source") {
        d.source = slice_to_vec(v);
        None
    } else if eq_str(k, "Tags") {
        d.tags = parse_tags(v);
        None
    } else if eq_str(k, "BeatmapID") {
        let (x, w) = coerce_i32(v, 0);
        d.beatmap_ID = x;
        w
    } else if eq_str(k, "BeatmapSetID") {
        let (x, w) = coerce_i32(v, 0);
        d.beatmap_set_ID = x;
        w
    } else {
        None
    }
}

/// One `Key: value` pair folded into the Difficulty section.
pub open spec fn spec_apply_difficulty(d: DifficultySection, k: Seq<char>, v: Seq<char>) -> (
    DifficultySection,
    Option<MalformedReason>,
) {
    if k == "HPDrainRate"@ {
        let (x, w) = spec_coerce_decimal(v, Decimal { neg: false, mantissa: 50, scale: 1 });
        (DifficultySection { health_drain_rate: x, ..d }, w)
    } else if k == "CircleSize"@ {
        let (x, w) = spec_coerce_decimal(v, Decimal { neg: false, mantissa: 40, scale: 1 });
        (DifficultySection { circle_size: x, ..d }, w)
    } else if k == "OverallDifficulty"@ {
        let (x, w) = spec_coerce_decimal(v, Decimal { neg: false, mantissa: 70, scale: 1 });
        (DifficultySection { overall_difficulty: x, ..d }, w)
    } else if k == "ApproachRate"@ {
        let (x, w) = spec_coerce_decimal(v, Decimal { neg: false, mantissa: 90, scale: 1 });
        (DifficultySection { approach_rate: x, ..d }, w)
    } else if k == "SliderMultiplier"@ {
        let (x, w) = spec_coerce_decimal(v, Decimal { neg: false, mantissa: 14, scale: 1 });
        (DifficultySection { slider_multiplier: x, ..d }, w)
    } else if k == "SliderTickRate"@ {
        let (x, w) = spec_coerce_decimal(v, Decimal { neg: false, mantissa: 10, scale: 1 });
        (DifficultySection { slider_tick_rate: x, ..d }, w)
    } else {
        (d, None)
    }
}

pub fn apply_difficulty(d: &mut DifficultySection, k: &[char], v: &[char]) -> (w: Option<
    MalformedReason,
>)
    ensures
        (*final(d), w) == spec_apply_difficulty(*old(d), k@, v@),
{
    if eq_str(k, "HPDrainRate") {
        let (x, w) = coerce_decimal(v, Decimal { neg: false, mantissa: 50, scale: 1 });
        d.health_drain_rate = x;
        w
    } else if eq_str(k, "CircleSize") {
        let (x, w) = coerce_decimal(v, Decimal { neg: false, mantissa: 40, scale: 1 });
        d.circle_size = x;
        w
    } else if eq_str(k, "OverallDifficulty") {
        let (x, w) = coerce_decimal(v, Decimal { neg: false, mantissa: 70, scale: 1 });
        d.overall_difficulty = x;
        w
    } else if eq_str(k, "ApproachRate") {
        let (x, w) = coerce_decimal(v, Decimal { neg: false, mantissa: 90, scale: 1 });
        d.approach_rate = x;
        w
    } else if eq_str(k, "SliderMultiplier") {
        let (x, w) = coerce_decimal(v, Decimal { neg: false, mantissa: 14, scale: 1 });
        d.slider_multiplier = x;
        w
    } else if eq_str(k, "SliderTickRate") {
        let (x, w) = coerce_decimal(v, Decimal { neg: false, mantissa: 10, scale: 1 });
        d.slider_tick_rate = x;
        w
    } else {
        None
    }
}

} // verus!
