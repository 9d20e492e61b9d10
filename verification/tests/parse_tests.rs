use beatmap_parser::beatmap::{parse_beatmap, parse_beatmap_with};
use beatmap_parser::model::{
    Beatmap, GamemodeType, HitObjectType, MalformedReason, ParseError, ParseWarning, Section,
    SliderCurve, TimingPointFault,
};
use beatmap_parser::num::Decimal;

fn chars(s: &str) -> Vec<char> {
    s.chars().collect()
}

fn dec(neg: bool, mantissa: u64, scale: u8) -> Decimal {
    Decimal { neg, mantissa, scale }
}

fn dec_f64(d: &Decimal) -> f64 {
    let sign = if d.neg { -1.0 } else { 1.0 };
    sign * d.mantissa as f64 / 10f64.powi(d.scale as i32)
}

fn ok_parse(text: &str) -> (Beatmap, Vec<ParseWarning>) {
    parse_beatmap(text).expect("parse should succeed")
}

#[test]
fn missing_version_header_is_fatal() {
    assert_eq!(parse_beatmap("[General]\n"), Err(ParseError::MissingVersionHeader));
    assert_eq!(parse_beatmap(""), Err(ParseError::MissingVersionHeader));
    assert_eq!(parse_beatmap("hello world\n"), Err(ParseError::MissingVersionHeader));
}

#[test]
fn default_filling_version_header_only() {
    let (b, warnings) = ok_parse("osu file format v14\n\n// just a comment\n");
    assert_eq!(b.version, 14);
    assert!(warnings.is_empty());
    assert_eq!(b.general.audio_filename, chars(""));
    assert_eq!(b.general.audio_lead_in, 0);
    assert_eq!(b.general.preview_time, -1);
    assert_eq!(b.general.mode, GamemodeType::Osu);
    assert_eq!(b.general.stack_leniency, dec(false, 0, 0));
    assert!(!b.general.epilepsy_warning);
    assert!(b.editor.bookmarks.is_empty());
    assert_eq!(b.editor.distance_spacing, dec(false, 122, 2));
    assert_eq!(b.editor.beat_divisor, 4);
    assert_eq!(b.editor.grid_size, 4);
    assert_eq!(b.editor.timeline_zoom, dec(false, 10, 1));
    assert_eq!(b.metadata.title, chars(""));
    assert!(b.metadata.tags.is_empty());
    assert_eq!(b.metadata.beatmap_ID, 0);
    assert_eq!(b.difficulty.health_drain_rate, dec(false, 50, 1));
    assert_eq!(b.difficulty.circle_size, dec(false, 40, 1));
    assert_eq!(b.difficulty.overall_difficulty, dec(false, 70, 1));
    assert_eq!(b.difficulty.approach_rate, dec(false, 90, 1));
    assert_eq!(b.difficulty.slider_multiplier, dec(false, 14, 1));
    assert_eq!(b.difficulty.slider_tick_rate, dec(false, 10, 1));
    assert!(b.timing_points.is_empty());
    assert!(b.hit_objects.is_empty());
}

#[test]
fn parse_is_idempotent() {
    let text = "osu file format v12\n[General]\nAudioFilename: song.mp3\nMode: 3\n[Metadata]\nTitle: A:B\nTags: one two\n[Difficulty]\nCircleSize: 3.5\n[TimingPoints]\n0,500,4,2,1,60,1,0\nbad,line\n[HitObjects]\n256,192,2000,1,0,0:0:0:0:\n100,100,500,6,0,L|150:100,1,120.0\n";
    let first = parse_beatmap(text);
    let second = parse_beatmap(text);
    assert_eq!(first, second);
    let (b, warnings) = first.expect("parse should succeed");
    assert_eq!(b.version, 12);
    assert_eq!(warnings.len(), 1);
}

#[test]
fn scenario_hit_circle() {
    let (b, warnings) = ok_parse("osu file format v14\n[HitObjects]\n256,192,2000,1,0,0:0:0:0:\n");
    assert!(warnings.is_empty());
    assert_eq!(b.hit_objects.len(), 1);
    match &b.hit_objects[0] {
        HitObjectType::HitCircle(c) => {
            assert_eq!(c.x, 256);
            assert_eq!(c.y, 192);
            assert_eq!(c.time, 2000);
            assert!(!c.new_combo);
            assert_eq!(c.color_skip, 0);
            assert_eq!(c.hit_sound, 0);
        },
        other => panic!("expected a hit circle, got {:?}", other),
    }
}

#[test]
fn scenario_new_combo_slider() {
    let (b, warnings) =
        ok_parse("osu file format v14\n[HitObjects]\n100,100,500,6,0,L|150:100,1,120.0\n");
    assert!(warnings.is_empty());
    assert_eq!(b.hit_objects.len(), 1);
    match &b.hit_objects[0] {
        HitObjectType::Slider(s) => {
            assert_eq!(s.x, 100);
            assert_eq!(s.y, 100);
            assert_eq!(s.time, 500);
            assert!(s.new_combo);
            assert_eq!(s.color_skip, 0);
            assert_eq!(s.slider_type, SliderCurve::Linear);
            assert_eq!(s.curve_points, vec![(150, 100)]);
            assert_eq!(s.repeat, 1);
            assert_eq!(s.pixel_length, dec(false, 1200, 1));
            assert_eq!(dec_f64(&s.pixel_length), 120.0);
        },
        other => panic!("expected a slider, got {:?}", other),
    }
}

#[test]
fn scenario_color_skip_spinner() {
    let (b, warnings) = ok_parse("osu file format v14\n[HitObjects]\n256,192,1000,40,0,3000\n");
    assert!(warnings.is_empty());
    match &b.hit_objects[0] {
        HitObjectType::Spinner(s) => {
            assert_eq!(s.color_skip, 2);
            assert!(!s.new_combo);
            assert_eq!(s.end_time, 3000);
        },
        other => panic!("expected a spinner, got {:?}", other),
    }
}

#[test]
fn scenario_uninherited_then_inherited_timing_point() {
    let (b, warnings) = ok_parse(
        "osu file format v14\n[TimingPoints]\n0,500,4,2,1,60,1,0\n1000,-50,4,2,1,60,0,0\n",
    );
    assert!(warnings.is_empty());
    assert_eq!(b.timing_points.len(), 2);
    let red = &b.timing_points[0];
    assert_eq!(red.time_offset, 0);
    assert_eq!(red.beat_length, dec(false, 500, 0));
    assert_eq!(dec_f64(&red.beat_length), 500.0);
    assert!(red.inherited); // raw flag 1: an uninherited tempo line
    assert_eq!(red.beats_per_measure, 4);
    assert_eq!(red.sample_set, 2);
    assert_eq!(red.sample_index, 1);
    assert_eq!(red.volume, 60);
    assert!(!red.kiai_effects);
    let green = &b.timing_points[1];
    assert_eq!(green.time_offset, 1000);
    assert_eq!(green.beat_length, dec(true, 50, 0));
    assert!(!green.inherited); // raw flag 0: a green line scaling the red one
    let multiplier = -100.0 / dec_f64(&green.beat_length);
    assert_eq!(multiplier, 2.0);
}

#[test]
fn scenario_hold_note() {
    let (b, warnings) =
        ok_parse("osu file format v14\n[HitObjects]\n448,192,1000,128,0,2000:0:0:0:0:\n");
    assert!(warnings.is_empty());
    match &b.hit_objects[0] {
        HitObjectType::HoldNote(h) => {
            assert_eq!(h.x, 448);
            assert_eq!(h.end_time, 2000);
            assert!(!h.new_combo);
        },
        other => panic!("expected a hold note, got {:?}", other),
    }
}

#[test]
fn malformed_slider_curve_is_recovered() {
    let (b, warnings) = ok_parse(
        "osu file format v14\n[HitObjects]\n100,100,500,6,0,L,1,120.0\n256,192,2000,1,0,\n",
    );
    // the slider with an empty curve-point list is skipped with one warning
    assert_eq!(
        warnings,
        vec![ParseWarning::MalformedLine {
            section: Section::HitObjects,
            line: 3,
            reason: MalformedReason::EmptyCurvePoints,
        }]
    );
    // parsing continued: the following circle line is kept
    assert_eq!(b.hit_objects.len(), 1);
    assert!(matches!(b.hit_objects[0], HitObjectType::HitCircle(_)));
}

#[test]
fn invalid_hit_object_type_byte_is_recorded() {
    // byte 3 sets two shape bits, byte 16 sets none
    let (b, warnings) = ok_parse(
        "osu file format v14\n[HitObjects]\n1,2,3,3,0\n1,2,3,16,0\n",
    );
    assert!(b.hit_objects.is_empty());
    assert_eq!(
        warnings,
        vec![
            ParseWarning::InvalidHitObjectType { byte: 3, line: 3 },
            ParseWarning::InvalidHitObjectType { byte: 16, line: 4 },
        ]
    );
}

#[test]
fn non_positive_beat_length_on_tempo_line_is_recorded() {
    let (b, warnings) = ok_parse("osu file format v14\n[TimingPoints]\n0,-500,4,2,1,60,1,0\n");
    assert!(b.timing_points.is_empty());
    assert_eq!(
        warnings,
        vec![ParseWarning::InvalidTimingPoint {
            line: 3,
            fault: TimingPointFault::NonPositiveBeatLength,
        }]
    );
}

#[test]
fn unknown_section_is_a_sink_with_a_warning() {
    let (b, warnings) = ok_parse(
        "osu file format v14\n[Storyboard]\n100,100,500,1,0\n[HitObjects]\n256,192,2000,1,0\n",
    );
    assert_eq!(warnings, vec![ParseWarning::UnknownSection { line: 2 }]);
    // the content line under the unknown header was discarded silently
    assert_eq!(b.hit_objects.len(), 1);
}

#[test]
fn content_before_any_section_is_ignored() {
    let (b, warnings) =
        ok_parse("osu file format v14\nKeyWithoutSection: 3\n[HitObjects]\n256,192,2000,1,0\n");
    assert!(warnings.is_empty());
    assert_eq!(b.hit_objects.len(), 1);
}

#[test]
fn strict_mode_promotes_the_first_warning() {
    let text = "osu file format v14\n[TimingPoints]\nnonsense\n";
    let tolerant = parse_beatmap_with(text, false).expect("tolerant parse should succeed");
    assert_eq!(tolerant.1.len(), 1);
    let strict = parse_beatmap_with(text, true);
    assert_eq!(
        strict,
        Err(ParseError::Strict(ParseWarning::MalformedLine {
            section: Section::TimingPoints,
            line: 3,
            reason: MalformedReason::FieldCount,
        }))
    );
}

#[test]
fn general_section_coercion() {
    let (b, warnings) = ok_parse(
        "osu file format v14\n[General]\nAudioFilename: audio.mp3\nAudioLeadIn: 500\nPreviewTime: 7000\nSampleSet: Soft\nStackLeniency: 0.7\nMode: 3\nLetterboxInBreaks: 1\nEpilepsyWarning: 0\nWidescreenStoryboard: 1\n",
    );
    assert!(warnings.is_empty());
    assert_eq!(b.general.audio_filename, chars("audio.mp3"));
    assert_eq!(b.general.audio_lead_in, 500);
    assert_eq!(b.general.preview_time, 7000);
    assert_eq!(b.general.sample_set, chars("Soft"));
    assert_eq!(b.general.stack_leniency, dec(false, 7, 1));
    assert_eq!(b.general.mode, GamemodeType::Mania);
    assert!(b.general.letterbox_in_breaks);
    assert!(!b.general.epilepsy_warning);
    assert!(b.general.widescreen_storyboard);
}

#[test]
fn invalid_value_falls_back_to_default_with_a_warning() {
    let (b, warnings) = ok_parse(
        "osu file format v14\n[General]\nAudioLeadIn: abc\nMode: 9\n",
    );
    assert_eq!(b.general.audio_lead_in, 0);
    assert_eq!(b.general.mode, GamemodeType::Osu);
    assert_eq!(
        warnings,
        vec![
            ParseWarning::MalformedLine {
                section: Section::General,
                line: 3,
                reason: MalformedReason::NonNumeric,
            },
            ParseWarning::MalformedLine {
                section: Section::General,
                line: 4,
                reason: MalformedReason::OutOfRange,
            },
        ]
    );
}

#[test]
fn editor_bookmarks_parse_and_recover() {
    let (b, warnings) = ok_parse(
        "osu file format v14\n[Editor]\nBookmarks: 100,200,300\nGridSize: 8\n",
    );
    assert!(warnings.is_empty());
    assert_eq!(b.editor.bookmarks, vec![100, 200, 300]);
    assert_eq!(b.editor.grid_size, 8);

    let (b2, warnings2) = ok_parse("osu file format v14\n[Editor]\nBookmarks: 100,abc\n");
    assert!(b2.editor.bookmarks.is_empty());
    assert_eq!(warnings2.len(), 1);
}

#[test]
fn metadata_fields_and_tags() {
    let (b, warnings) = ok_parse(
        "osu file format v14\n[Metadata]\nTitle: Some Song\nTitleUnicode: Some Song\nArtist: Somebody\nCreator: mapper\nVersion: Hard\nSource: somewhere\nTags: jump stream  tech\nBeatmapID: 4242\nBeatmapSetID: 17\n",
    );
    assert!(warnings.is_empty());
    assert_eq!(b.metadata.title, chars("Some Song"));
    assert_eq!(b.metadata.artist, chars("Somebody"));
    assert_eq!(b.metadata.creator, chars("mapper"));
    assert_eq!(b.metadata.version, chars("Hard"));
    assert_eq!(b.metadata.source, chars("somewhere"));
    assert_eq!(b.metadata.tags, vec![chars("jump"), chars("stream"), chars("tech")]);
    assert_eq!(b.metadata.beatmap_ID, 4242);
    assert_eq!(b.metadata.beatmap_set_ID, 17);
}

#[test]
fn metadata_value_keeps_colons_after_the_first() {
    let (b, _) = ok_parse("osu file format v14\n[Metadata]\nTitle: a:b:c\n");
    assert_eq!(b.metadata.title, chars("a:b:c"));
}

#[test]
fn difficulty_values_are_exact_decimals() {
    let (b, warnings) = ok_parse(
        "osu file format v14\n[Difficulty]\nHPDrainRate: 6.5\nCircleSize: 4\nApproachRate: 9.25\n",
    );
    assert!(warnings.is_empty());
    assert_eq!(b.difficulty.health_drain_rate, dec(false, 65, 1));
    assert_eq!(b.difficulty.circle_size, dec(false, 4, 0));
    assert_eq!(b.difficulty.approach_rate, dec(false, 925, 2));
    assert_eq!(dec_f64(&b.difficulty.approach_rate), 9.25);
    // untouched keys keep their documented defaults
    assert_eq!(b.difficulty.slider_multiplier, dec(false, 14, 1));
}

#[test]
fn spinner_end_time_before_start_is_malformed() {
    let (b, warnings) = ok_parse("osu file format v14\n[HitObjects]\n1,2,3000,8,0,2000\n");
    assert!(b.hit_objects.is_empty());
    assert_eq!(
        warnings,
        vec![ParseWarning::MalformedLine {
            section: Section::HitObjects,
            line: 3,
            reason: MalformedReason::OutOfRange,
        }]
    );
}

#[test]
fn slider_with_bad_curve_letter_or_bad_repeat_is_malformed() {
    let (b, warnings) = ok_parse(
        "osu file format v14\n[HitObjects]\n1,2,3,2,0,X|1:2,1,10\n1,2,3,2,0,B|1:2,0,10\n",
    );
    assert!(b.hit_objects.is_empty());
    assert_eq!(
        warnings,
        vec![
            ParseWarning::MalformedLine {
                section: Section::HitObjects,
                line: 3,
                reason: MalformedReason::BadCurveType,
            },
            ParseWarning::MalformedLine {
                section: Section::HitObjects,
                line: 4,
                reason: MalformedReason::OutOfRange,
            },
        ]
    );
}

#[test]
fn type_byte_out_of_range_is_malformed() {
    let (b, warnings) = ok_parse("osu file format v14\n[HitObjects]\n1,2,3,300,0\n");
    assert!(b.hit_objects.is_empty());
    assert_eq!(
        warnings,
        vec![ParseWarning::MalformedLine {
            section: Section::HitObjects,
            line: 3,
            reason: MalformedReason::OutOfRange,
        }]
    );
}

#[test]
fn timing_point_trailing_fields_default() {
    let (b, warnings) = ok_parse("osu file format v14\n[TimingPoints]\n250,333.33\n");
    assert!(warnings.is_empty());
    let tp = &b.timing_points[0];
    assert_eq!(tp.time_offset, 250);
    assert_eq!(tp.beat_length, dec(false, 33333, 2));
    assert_eq!(tp.beats_per_measure, 4);
    assert_eq!(tp.sample_set, 0);
    assert_eq!(tp.sample_index, 0);
    assert_eq!(tp.volume, 100);
    assert!(!tp.inherited);
    assert!(!tp.kiai_effects);
}

#[test]
fn crlf_and_padding_are_trimmed() {
    let (b, warnings) =
        ok_parse("osu file format v14\r\n[HitObjects]\r\n 256 , 192 , 2000 , 1 , 0 \r\n");
    assert!(warnings.is_empty());
    assert_eq!(b.hit_objects.len(), 1);
    match &b.hit_objects[0] {
        HitObjectType::HitCircle(c) => assert_eq!(c.x, 256),
        other => panic!("expected a hit circle, got {:?}", other),
    }
}

#[test]
fn version_header_needs_a_positive_number() {
    assert_eq!(parse_beatmap("osu file format v0\n"), Err(ParseError::MissingVersionHeader));
    assert_eq!(parse_beatmap("osu file format vx\n"), Err(ParseError::MissingVersionHeader));
    let (b, _) = ok_parse("osu file format v7\n");
    assert_eq!(b.version, 7);
}
