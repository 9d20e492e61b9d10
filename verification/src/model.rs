//! The typed in-memory chart representation, its ghost views, and the
//! documented defaults of every section.
//!
//! Text fields hold the characters of the source token verbatim, as
//! `Vec<char>`; fractional fields hold an exact [`Decimal`].

use vstd::prelude::*;
use crate::num::Decimal;

verus! {

/// The game mode named by the `Mode` key of the General section.
#[derive(Clone, Copy, Debug, PartialEq, Eq, Structural)]
pub enum GamemodeType {
    Osu,
    Taiko,
    Ctb,
    Mania,
}

/// The mode encoded by an integer `Mode` value, when it names one.
pub open spec fn spec_mode_from_int(v: i32) -> Option<GamemodeType> {
    if v == 0 {
        Some(GamemodeType::Osu)
    } else if v == 1 {
        Some(GamemodeType::Taiko)
    } else if v == 2 {
        Some(GamemodeType::Ctb)
    } else if v == 3 {
        Some(GamemodeType::Mania)
    } else {
        None
    }
}

pub fn mode_from_int(v: i32) -> (r: Option<GamemodeType>)
    ensures
        r == spec_mode_from_int(v),
{
    match v {
        0i32 => Some(GamemodeType::Osu),
        1i32 => Some(GamemodeType::Taiko),
        2i32 => Some(GamemodeType::Ctb),
        3i32 => Some(GamemodeType::Mania),
        _ => None,
    }
}

/// Playback and presentation metadata of the `[General]` section.
#[derive(Clone, Debug, PartialEq, Eq)]
pub struct GeneralSection {
    pub audio_filename: Vec<char>,
    pub audio_lead_in: i32,
    pub epilepsy_warning: bool,
    pub letterbox_in_breaks: bool,
    pub mode: GamemodeType,
    pub preview_time: i32,
    pub sample_set: Vec<char>,
    pub samples_match_playback_rate: bool,
    pub skin_preference: Vec<char>,
    pub special_style: bool,
    pub stack_leniency: Decimal,
    pub use_skin_sprites: bool,
    pub widescreen_storyboard: bool,
}

pub struct GeneralV {
    pub audio_filename: Seq<char>,
    pub audio_lead_in: i32,
    pub epilepsy_warning: bool,
    pub letterbox_in_breaks: bool,
    pub mode: GamemodeType,
    pub preview_time: i32,
    pub sample_set: Seq<char>,
    pub samples_match_playback_rate: bool,
    pub skin_preference: Seq<char>,
    pub special_style: bool,
    pub stack_leniency: Decimal,
    pub use_skin_sprites: bool,
    pub widescreen_storyboard: bool,
}

impl View for GeneralSection {
    type V = GeneralV;

    open spec fn view(&self) -> GeneralV {
        GeneralV {
            audio_filename: self.audio_filename@,
            audio_lead_in: self.audio_lead_in,
            epilepsy_warning: self.epilepsy_warning,
            letterbox_in_breaks: self.letterbox_in_breaks,
            mode: self.mode,
            preview_time: self.preview_time,
            sample_set: self.sample_set@,
            samples_match_playback_rate: self.samples_match_playback_rate,
            skin_preference: self.skin_preference@,
            special_style: self.special_style,
            stack_leniency: self.stack_leniency,
            use_skin_sprites: self.use_skin_sprites,
            widescreen_storyboard: self.widescreen_storyboard,
        }
    }
}

/// The documented defaults of the General section.
pub open spec fn spec_general_default() -> GeneralV {
    GeneralV {
        audio_filename: Seq::empty(),
        audio_lead_in: 0,
        epilepsy_warning: false,
        letterbox_in_breaks: false,
        mode: GamemodeType::Osu,
        preview_time: -1i32,
        sample_set: Seq::empty(),
        samples_match_playback_rate: false,
        skin_preference: Seq::empty(),
        special_style: false,
        stack_leniency: Decimal { neg: false, mantissa: 0, scale: 0 },
        use_skin_sprites: false,
        widescreen_storyboard: false,
    }
}

impl Default for GeneralSection {
    fn default() -> (r: Self)
        ensures
            r@ == spec_general_default(),
    {
        GeneralSection {
            audio_filename: Vec::new(),
            audio_lead_in: 0,
            preview_time: -1i32,
            sample_set: Vec::new(),
            stack_leniency: Decimal { neg: false, mantissa: 0, scale: 0 },
            mode: GamemodeType::Osu,
            letterbox_in_breaks: false,
            use_skin_sprites: false,
            skin_preference: Vec::new(),
            epilepsy_warning: false,
            special_style: false,
            widescreen_storyboard: false,
            samples_match_playback_rate: false,
        }
    }
}

/// Editor convenience state of the `[Editor]` section.
#[derive(Clone, Debug, PartialEq, Eq)]
pub struct EditorSection {
    pub bookmarks: Vec<i32>,
    pub distance_spacing: Decimal,
    pub beat_divisor: i32,
    pub grid_size: i32,
    pub timeline_zoom: Decimal,
}

pub struct EditorV {
    pub bookmarks: Seq<i32>,
    pub distance_spacing: Decimal,
    pub beat_divisor: i32,
    pub grid_size: i32,
    pub timeline_zoom: Decimal,
}

impl View for EditorSection {
    type V = EditorV;

    open spec fn view(&self) -> EditorV {
        EditorV {
            bookmarks: self.bookmarks@,
            distance_spacing: self.distance_spacing,
            beat_divisor: self.beat_divisor,
            grid_size: self.grid_size,
            timeline_zoom: self.timeline_zoom,
        }
    }
}

/// The documented defaults of the Editor section.
pub open spec fn spec_editor_default() -> EditorV {
    EditorV {
        bookmarks: Seq::empty(),
        distance_spacing: Decimal { neg: false, mantissa: 122, scale: 2 },
        beat_divisor: 4,
        grid_size: 4,
        timeline_zoom: Decimal { neg: false, mantissa: 10, scale: 1 },
    }
}

impl Default for EditorSection {
    fn default() -> (r: Self)
        ensures
            r@ == spec_editor_default(),
    {
        EditorSection {
            bookmarks: Vec::new(),
            distance_spacing: Decimal { neg: false, mantissa: 122, scale: 2 },
            beat_divisor: 4,
            grid_size: 4,
            timeline_zoom: Decimal { neg: false, mantissa: 10, scale: 1 },
        }
    }
}

/// Display identity of the `[Metadata]` section.
#[allow(non_snake_case)]
#[derive(Clone, Debug, PartialEq, Eq)]
pub struct MetadataSection {
    pub title: Vec<char>,
    pub title_unicode: Vec<char>,
    pub artist: Vec<char>,
    pub artist_unicode: Vec<char>,
    pub creator: Vec<char>,
    pub version: Vec<char>,
    pub source: Vec<char>,
    pub tags: Vec<Vec<char>>,
    pub beatmap_ID: i32,
    pub beatmap_set_ID: i32,
}

#[allow(non_snake_case)]
pub struct MetadataV {
    pub title: Seq<char>,
    pub title_unicode: Seq<char>,
    pub artist: Seq<char>,
    pub artist_unicode: Seq<char>,
    pub creator: Seq<char>,
    pub version: Seq<char>,
    pub source: Seq<char>,
    pub tags: Seq<Seq<char>>,
    pub beatmap_ID: i32,
    pub beatmap_set_ID: i32,
}

impl View for MetadataSection {
    type V = MetadataV;

    open spec fn view(&self) -> MetadataV {
        MetadataV {
            title: self.title@,
            title_unicode: self.title_unicode@,
            artist: self.artist@,
            artist_unicode: self.artist_unicode@,
            creator: self.creator@,
            version: self.version@,
            source: self.source@,
            tags: self.tags@.map_values(|t: Vec<char>| t@),
            beatmap_ID: self.beatmap_ID,
            beatmap_set_ID: self.beatmap_set_ID,
        }
    }
}

/// The documented defaults of the Metadata section.
pub open spec fn spec_metadata_default() -> MetadataV {
    MetadataV {
        title: Seq::empty(),
        title_unicode: Seq::empty(),
        artist: Seq::empty(),
        artist_unicode: Seq::empty(),
        creator: Seq::empty(),
        version: Seq::empty(),
        source: Seq::empty(),
        tags: Seq::empty(),
        beatmap_ID: 0,
        beatmap_set_ID: 0,
    }
}

impl Default for MetadataSection {
    fn default() -> (r: Self)
        ensures
            r@ == spec_metadata_default(),
    {
        let r = MetadataSection {
            title: Vec::new(),
            title_unicode: Vec::new(),
            artist: Vec::new(),
            artist_unicode: Vec::new(),
            creator: Vec::new(),
            version: Vec::new(),
            source: Vec::new(),
            tags: Vec::new(),
            beatmap_ID: 0,
            beatmap_set_ID: 0,
        };
        proof {
            assert(r@.tags =~= Seq::<Seq<char>>::empty());
        }
        r
    }
}

/// The six gameplay parameters of the `[Difficulty]` section.
#[derive(Clone, Copy, Debug, PartialEq, Eq, Structural)]
pub struct DifficultySection {
    pub health_drain_rate: Decimal,
    pub circle_size: Decimal,
    pub overall_difficulty: Decimal,
    pub approach_rate: Decimal,
    pub slider_multiplier: Decimal,
    pub slider_tick_rate: Decimal,
}

/// The documented defaults of the Difficulty section.
pub open spec fn spec_difficulty_default() -> DifficultySection {
    DifficultySection {
        health_drain_rate: Decimal { neg: false, mantissa: 50, scale: 1 },
        circle_size: Decimal { neg: false, mantissa: 40, scale: 1 },
        overall_difficulty: Decimal { neg: false, mantissa: 70, scale: 1 },
        approach_rate: Decimal { neg: false, mantissa: 90, scale: 1 },
        slider_multiplier: Decimal { neg: false, mantissa: 14, scale: 1 },
        slider_tick_rate: Decimal { neg: false, mantissa: 10, scale: 1 },
    }
}

impl Default for DifficultySection {
    fn default() -> (r: Self)
        ensures
            r == spec_difficulty_default(),
    {
        DifficultySection {
            health_drain_rate: Decimal { neg: false, mantissa: 50, scale: 1 },
            circle_size: Decimal { neg: false, mantissa: 40, scale: 1 },
            overall_difficulty: Decimal { neg: false, mantissa: 70, scale: 1 },
            approach_rate: Decimal { neg: false, mantissa: 90, scale: 1 },
            slider_multiplier: Decimal { neg: false, mantissa: 14, scale: 1 },
            slider_tick_rate: Decimal { neg: false, mantissa: 10, scale: 1 },
        }
    }
}

/// One line of the `[TimingPoints]` section.
///
/// `inherited` records the stored flag verbatim: the raw value 1 means an
/// uninherited "red" tempo line whose `beat_length` is milliseconds per beat,
/// the raw value 0 an inherited "green" line whose `beat_length` encodes a
/// slider-velocity percentage to be resolved against the nearest preceding
/// red line by a consumer.
#[derive(Clone, Copy, Debug, PartialEq, Eq, Structural)]
pub struct TimingPoint {
    pub time_offset: i32,
    pub beat_length: Decimal,
    pub beats_per_measure: i32,
    pub sample_set: i32,
    pub sample_index: i32,
    pub volume: i32,
    pub inherited: bool,
    pub kiai_effects: bool,
}

/// The documented defaults of a timing point's optional fields.
pub open spec fn spec_timing_point_default() -> TimingPoint {
    TimingPoint {
        time_offset: 0,
        beat_length: Decimal { neg: false, mantissa: 3000, scale: 1 },
        beats_per_measure: 4,
        sample_set: 0,
        sample_index: 0,
        volume: 100,
        inherited: false,
        kiai_effects: false,
    }
}

impl Default for TimingPoint {
    fn default() -> (r: Self)
        ensures
            r == spec_timing_point_default(),
    {
        TimingPoint {
            time_offset: 0,
            beat_length: Decimal { neg: false, mantissa: 3000, scale: 1 },
            beats_per_measure: 4,
            sample_set: 0,
            sample_index: 0,
            volume: 100,
            inherited: false,
            kiai_effects: false,
        }
    }
}

/// The curve interpretation of a slider's control points.
#[derive(Clone, Copy, Debug, PartialEq, Eq, Structural)]
pub enum SliderCurve {
    Bezier,
    Catmull,
    Linear,
    PerfectCircle,
}

/// A plain hit circle.
#[derive(Clone, Copy, Debug, PartialEq, Eq, Structural)]
pub struct HitCircle {
    pub x: i32,
    pub y: i32,
    pub time: i32,
    pub new_combo: bool,
    pub color_skip: i32,
    pub hit_sound: i32,
}

/// A slider with its curve.
#[derive(Clone, Debug, PartialEq, Eq)]
pub struct Slider {
    pub x: i32,
    pub y: i32,
    pub time: i32,
    pub new_combo: bool,
    pub color_skip: i32,
    pub hitsound: i32,
    pub slider_type: SliderCurve,
    pub curve_points: Vec<(i32, i32)>,
    pub repeat: i32,
    pub pixel_length: Decimal,
}

pub struct SliderV {
    pub x: i32,
    pub y: i32,
    pub time: i32,
    pub new_combo: bool,
    pub color_skip: i32,
    pub hitsound: i32,
    pub slider_type: SliderCurve,
    pub curve_points: Seq<(i32, i32)>,
    pub repeat: i32,
    pub pixel_length: Decimal,
}

impl View for Slider {
    type V = SliderV;

    open spec fn view(&self) -> SliderV {
        SliderV {
            x: self.x,
            y: self.y,
            time: self.time,
            new_combo: self.new_combo,
            color_skip: self.color_skip,
            hitsound: self.hitsound,
            slider_type: self.slider_type,
            curve_points: self.curve_points@,
            repeat: self.repeat,
            pixel_length: self.pixel_length,
        }
    }
}

/// A spinner.
#[derive(Clone, Copy, Debug, PartialEq, Eq, Structural)]
pub struct Spinner {
    pub x: i32,
    pub y: i32,
    pub new_combo: bool,
    pub color_skip: i32,
    pub time: i32,
    pub hitsound: i32,
    pub end_time: i32,
}

/// A hold note.
#[derive(Clone, Copy, Debug, PartialEq, Eq, Structural)]
pub struct HoldNote {
    pub x: i32,
    pub y: i32,
    pub new_combo: bool,
    pub color_skip: i32,
    pub time: i32,
    pub hitsound: i32,
    pub end_time: i32,
}

impl Default for HoldNote {
    fn default() -> (r: Self)
        ensures
            r == (HoldNote {
                x: 0,
                y: 0,
                new_combo: false,
                color_skip: 0,
                time: 0,
                hitsound: 0,
                end_time: 0,
            }),
    {
        HoldNote { x: 0, y: 0, new_combo: false, color_skip: 0, time: 0, hitsound: 0, end_time: 0 }
    }
}

/// The closed set of hit-object shapes, selected by the packed type byte.
#[derive(Clone, Debug, PartialEq, Eq)]
pub enum HitObjectType {
    HitCircle(HitCircle),
    Slider(Slider),
    Spinner(Spinner),
    HoldNote(HoldNote),
}

pub enum HitObjectV {
    HitCircle(HitCircle),
    Slider(SliderV),
    Spinner(Spinner),
    HoldNote(HoldNote),
}

impl View for HitObjectType {
    type V = HitObjectV;

    open spec fn view(&self) -> HitObjectV {
        match self {
            HitObjectType::HitCircle(c) => HitObjectV::HitCircle(*c),
            HitObjectType::Slider(s) => HitObjectV::Slider(s@),
            HitObjectType::Spinner(s) => HitObjectV::Spinner(*s),
            HitObjectType::HoldNote(h) => HitObjectV::HoldNote(*h),
        }
    }
}

/// The fully decoded chart.
#[derive(Clone, Debug, PartialEq, Eq)]
pub struct Beatmap {
    pub version: i32,
    pub general: GeneralSection,
    pub editor: EditorSection,
    pub metadata: MetadataSection,
    pub difficulty: DifficultySection,
    pub timing_points: Vec<TimingPoint>,
    pub hit_objects: Vec<HitObjectType>,
}

pub struct BeatmapV {
    pub version: i32,
    pub general: GeneralV,
    pub editor: EditorV,
    pub metadata: MetadataV,
    pub difficulty: DifficultySection,
    pub timing_points: Seq<TimingPoint>,
    pub hit_objects: Seq<HitObjectV>,
}

impl View for Beatmap {
    type V = BeatmapV;

    open spec fn view(&self) -> BeatmapV {
        BeatmapV {
            version: self.version,
            general: self.general@,
            editor: self.editor@,
            metadata: self.metadata@,
            difficulty: self.difficulty,
            timing_points: self.timing_points@,
            hit_objects: self.hit_objects@.map_values(|h: HitObjectType| h@),
        }
    }
}

/// The dispatcher's section state: where content lines are routed.
/// `NoSection` is the initial state before any header, and the sink for
/// content under an unrecognized header.
#[derive(Clone, Copy, Debug, PartialEq, Eq, Structural)]
pub enum Section {
    NoSection,
    General,
    Editor,
    Metadata,
    Difficulty,
    TimingPoints,
    HitObjects,
    Colours,
    Events,
}

/// Why a content line was structurally malformed.
#[derive(Clone, Copy, Debug, PartialEq, Eq, Structural)]
pub enum MalformedReason {
    /// Too few positional fields for the decoded shape.
    FieldCount,
    /// A token did not name a value of the field's type.
    NonNumeric,
    /// A slider curve token with zero control points.
    EmptyCurvePoints,
    /// A slider curve letter naming no curve type.
    BadCurveType,
    /// A numeric value outside its documented range.
    OutOfRange,
}

/// Why an otherwise well-formed timing-point line was rejected.
#[derive(Clone, Copy, Debug, PartialEq, Eq, Structural)]
pub enum TimingPointFault {
    /// An uninherited tempo line whose beat length is not positive.
    NonPositiveBeatLength,
}

/// A recoverable condition, recorded with the line it came from; the line
/// itself is skipped and the parse continues.
#[derive(Clone, Copy, Debug, PartialEq, Eq, Structural)]
pub enum ParseWarning {
    UnknownSection { line: usize },
    MalformedLine { section: Section, line: usize, reason: MalformedReason },
    InvalidHitObjectType { byte: u8, line: usize },
    InvalidTimingPoint { line: usize, fault: TimingPointFault },
}

/// A fatal outcome: the whole parse is abandoned.
#[derive(Clone, Copy, Debug, PartialEq, Eq, Structural)]
pub enum ParseError {
    /// The mandatory `... file format v<N>` header was never seen.
    MissingVersionHeader,
    /// In strict mode, the first recoverable warning, promoted to fatal.
    Strict(ParseWarning),
}

} // verus!
