//! The beatmap assembler: one linear pass over the file's lines, routing each
//! content line through the section dispatcher to the matching decoder and
//! accumulating the result.
//!
//! The whole pass is specified by the spec-level fold [`spec_parse_beatmap`]:
//! the executable parser returns exactly that value, so the outcome is a
//! function of the input text (and the strictness flag) alone.

use vstd::prelude::*;
use vstd::slice::slice_subrange;
use crate::hitobject::{decode_hitobject_line, spec_decode_hitobject, HitObjectLineError};
use crate::model::{Beatmap, BeatmapV, DifficultySection, EditorSection, GeneralSection,
    MalformedReason, MetadataSection, ParseError, ParseWarning, Section, TimingPoint,
    spec_difficulty_default, spec_editor_default, spec_general_default, spec_metadata_default};
use crate::model::{HitObjectType, HitObjectV};
use crate::sections::{apply_difficulty, apply_editor, apply_general, apply_metadata,
    spec_apply_difficulty, spec_apply_editor, spec_apply_general, spec_apply_metadata};
use crate::text::{eq_str, find_from, find_sub, spec_find, spec_find_sub, spec_split, spec_trim,
    split_char, str_chars, trim};
use crate::timing::{decode_timing_line, spec_decode_timing, TimingLineError};

verus! {

/// A line the tokenizer drops: blank, or a `//` comment.
pub open spec fn spec_is_skippable(t: Seq<char>) -> bool {
    t.len() == 0 || (t.len() >= 2 && t[0] == '/' && t[1] == '/')
}

/// A line of the exact header shape `[Name]`.
pub open spec fn spec_is_header(t: Seq<char>) -> bool {
    t.len() >= 2 && t[0] == '[' && t[t.len() - 1] == ']'
}

/// The section a header name selects, when it is recognized.
pub open spec fn spec_section_from_name(n: Seq<char>) -> Option<Section> {
    if n == "General"@ {
        Some(Section::General)
    } else if n == "Editor"@ {
        Some(Section::Editor)
    } else if n == "Metadata"@ {
        Some(Section::Metadata)
    } else if n == "Difficulty"@ {
        Some(Section::Difficulty)
    } else if n == "TimingPoints"@ {
        Some(Section::TimingPoints)
    } else if n == "HitObjects"@ {
        Some(Section::HitObjects)
    } else if n == "Colours"@ {
        Some(Section::Colours)
    } else if n == "Events"@ {
        Some(Section::Events)
    } else {
        None
    }
}

fn section_from_name(n: &[char]) -> (r: Option<Section>)
    ensures
        r == spec_section_from_name(n@),
{
    if eq_str(n, "General") {
        Some(Section::General)
    } else if eq_str(n, "Editor") {
        Some(Section::Editor)
    } else if eq_str(n, "Metadata") {
        Some(Section::Metadata)
    } else if eq_str(n, "Difficulty") {
        Some(Section::Difficulty)
    } else if eq_str(n, "TimingPoints") {
        Some(Section::TimingPoints)
    } else if eq_str(n, "HitObjects") {
        Some(Section::HitObjects)
    } else if eq_str(n, "Colours") {
        Some(Section::Colours)
    } else if eq_str(n, "Events") {
        Some(Section::Events)
    } else {
        None
    }
}

/// The format version named by a trimmed line of the shape
/// `<tag> file format v<N>`, with `N` positive.
pub open spec fn spec_version_of(t: Seq<char>) -> Option<i32> {
    match spec_find_sub(t, "file format v"@) {
        None => None,
        Some(i) => match spec_parse_version_digits(
            t.subrange(i + "file format v"@.len(), t.len() as int),
        ) {
            Some(v) => Some(v),
            None => None,
        },
    }
}

pub open spec fn spec_parse_version_digits(d: Seq<char>) -> Option<i32> {
    match crate::num::spec_parse_i32(d) {
        Some(v) => if v > 0 {
            Some(v)
        } else {
            None
        },
        None => None,
    }
}

fn version_of(t: &[char]) -> (r: Option<i32>)
    ensures
        r == spec_version_of(t@),
{
    match find_sub(t, "file format v") {
        None => None,
        Some(i) => {
            let tl = t.len();
            proof {
                reveal_strlit("file format v");
                assert(i + 13 <= tl);
            }
            let digits = slice_subrange(t, i + 13, tl);
            match crate::num::parse_i32(digits) {
                Some(v) => if v > 0 {
                    Some(v)
                } else {
                    None
                },
                None => None,
            }
        },
    }
}

/// The assembler's accumulating state.
pub struct AsmState {
    pub seen_version: bool,
    pub version: i32,
    pub section: Section,
    pub general: GeneralSection,
    pub editor: EditorSection,
    pub metadata: MetadataSection,
    pub difficulty: DifficultySection,
    pub timing_points: Vec<TimingPoint>,
    pub hit_objects: Vec<HitObjectType>,
    pub warnings: Vec<ParseWarning>,
}

pub struct AsmStateV {
    pub seen_version: bool,
    pub version: i32,
    pub section: Section,
    pub general: crate::model::GeneralV,
    pub editor: crate::model::EditorV,
    pub metadata: crate::model::MetadataV,
    pub difficulty: DifficultySection,
    pub timing_points: Seq<TimingPoint>,
    pub hit_objects: Seq<HitObjectV>,
    pub warnings: Seq<ParseWarning>,
}

impl View for AsmState {
    type V = AsmStateV;

    open spec fn view(&self) -> AsmStateV {
        AsmStateV {
            seen_version: self.seen_version,
            version: self.version,
            section: self.section,
            general: self.general@,
            editor: self.editor@,
            metadata: self.metadata@,
            difficulty: self.difficulty,
            timing_points: self.timing_points@,
            hit_objects: self.hit_objects@.map_values(|h: HitObjectType| h@),
            warnings: self.warnings@,
        }
    }
}

/// The state every parse starts from: no version seen, no section, every
/// section at its documented defaults, nothing accumulated.
pub open spec fn spec_init_state() -> AsmStateV {
    AsmStateV {
        seen_version: false,
        version: 0,
        section: Section::NoSection,
        general: spec_general_default(),
        editor: spec_editor_default(),
        metadata: spec_metadata_default(),
        difficulty: spec_difficulty_default(),
        timing_points: Seq::empty(),
        hit_objects: Seq::empty(),
        warnings: Seq::empty(),
    }
}

/// The state after a coercion fault, if one arose, is recorded.
pub open spec fn spec_with_kv_warn(
    st: AsmStateV,
    w: Option<MalformedReason>,
    n: usize,
) -> AsmStateV {
    match w {
        None => st,
        Some(r) => AsmStateV {
            warnings: st.warnings.push(
                ParseWarning::MalformedLine { section: st.section, line: n, reason: r },
            ),
            ..st
        },
    }
}

/// A content line folded into one of the four `Key: value` sections.
pub open spec fn spec_apply_kv(st: AsmStateV, t: Seq<char>, n: usize) -> AsmStateV {
    match spec_find(t, ':') {
        None => AsmStateV {
            warnings: st.warnings.push(
                ParseWarning::MalformedLine {
                    section: st.section,
                    line: n,
                    reason: MalformedReason::FieldCount,
                },
            ),
            ..st
        },
        Some(i) => {
            let k = spec_trim(t.subrange(0, i));
            let v = spec_trim(t.subrange(i + 1, t.len() as int));
            match st.section {
                Section::General => {
                    let (g, w) = spec_apply_general(st.general, k, v);
                    spec_with_kv_warn(AsmStateV { general: g, ..st }, w, n)
                },
                Section::Editor => {
                    let (e, w) = spec_apply_editor(st.editor, k, v);
                    spec_with_kv_warn(AsmStateV { editor: e, ..st }, w, n)
                },
                Section::Metadata => {
                    let (m, w) = spec_apply_metadata(st.metadata, k, v);
                    spec_with_kv_warn(AsmStateV { metadata: m, ..st }, w, n)
                },
                Section::Difficulty => {
                    let (d, w) = spec_apply_difficulty(st.difficulty, k, v);
                    spec_with_kv_warn(AsmStateV { difficulty: d, ..st }, w, n)
                },
                _ => st,
            }
        },
    }
}

/// One raw line (line number `n`, 1-based) folded into the assembler state.
///
/// Blank and comment lines are dropped; before the version header every
/// other line must be the header, else the parse is fatally abandoned;
/// headers switch the section, an unrecognized one to the sink; content is
/// routed by the current section, and every recoverable fault is recorded.
pub open spec fn spec_step(st: AsmStateV, line: Seq<char>, n: usize) -> Result<
    AsmStateV,
    ParseError,
> {
    let t = spec_trim(line);
    if spec_is_skippable(t) {
        Ok(st)
    } else if !st.seen_version {
        match spec_version_of(t) {
            Some(v) => Ok(AsmStateV { seen_version: true, version: v, ..st }),
            None => Err(ParseError::MissingVersionHeader),
        }
    } else if spec_is_header(t) {
        let name = t.subrange(1, t.len() - 1);
        match spec_section_from_name(name) {
            Some(sec) => Ok(AsmStateV { section: sec, ..st }),
            None => Ok(
                AsmStateV {
                    section: Section::NoSection,
                    warnings: st.warnings.push(ParseWarning::UnknownSection { line: n }),
                    ..st
                },
            ),
        }
    } else {
        match st.section {
            Section::NoSection => Ok(st),
            Section::Colours => Ok(st),
            Section::Events => Ok(st),
            Section::TimingPoints => match spec_decode_timing(t) {
                Ok(tp) => Ok(AsmStateV { timing_points: st.timing_points.push(tp), ..st }),
                Err(TimingLineError::Malformed(r)) => Ok(
                    AsmStateV {
                        warnings: st.warnings.push(
                            ParseWarning::MalformedLine {
                                section: Section::TimingPoints,
                                line: n,
                                reason: r,
                            },
                        ),
                        ..st
                    },
                ),
                Err(TimingLineError::Fault(f)) => Ok(
                    AsmStateV {
                        warnings: st.warnings.push(
                            ParseWarning::InvalidTimingPoint { line: n, fault: f },
                        ),
                        ..st
                    },
                ),
            },
            Section::HitObjects => match spec_decode_hitobject(t) {
                Ok(h) => Ok(AsmStateV { hit_objects: st.hit_objects.push(h), ..st }),
                Err(HitObjectLineError::Malformed(r)) => Ok(
                    AsmStateV {
                        warnings: st.warnings.push(
                            ParseWarning::MalformedLine {
                                section: Section::HitObjects,
                                line: n,
                                reason: r,
                            },
                        ),
                        ..st
                    },
                ),
                Err(HitObjectLineError::InvalidType(b)) => Ok(
                    AsmStateV {
                        warnings: st.warnings.push(
                            ParseWarning::InvalidHitObjectType { byte: b, line: n },
                        ),
                        ..st
                    },
                ),
            },
            _ => Ok(spec_apply_kv(st, t, n)),
        }
    }
}

/// The state after the first `k` lines.
pub open spec fn spec_state_after(lines: Seq<Seq<char>>, k: int) -> Result<AsmStateV, ParseError>
    decreases k,
{
    if k <= 0 {
        Ok(spec_init_state())
    } else {
        match spec_state_after(lines, k - 1) {
            Err(e) => Err(e),
            Ok(st) => spec_step(st, lines[k - 1], k as usize),
        }
    }
}

pub proof fn lemma_err_persists(lines: Seq<Seq<char>>, k: int, m: int)
    requires
        0 <= k <= m,
        spec_state_after(lines, k) is Err,
    ensures
        spec_state_after(lines, m) == spec_state_after(lines, k),
    decreases m - k,
{
    if m > k {
        lemma_err_persists(lines, k, m - 1);
    }
}

/// The meaning of a whole parse: the fold of `spec_step` over the lines,
/// then the final checks — the version header must have been seen, and in
/// strict mode the first recorded warning is promoted to a fatal error.
pub open spec fn spec_parse_beatmap(text: Seq<char>, strict: bool) -> Result<
    (BeatmapV, Seq<ParseWarning>),
    ParseError,
> {
    let lines = spec_split(text, '\n');
    match spec_state_after(lines, lines.len() as int) {
        Err(e) => Err(e),
        Ok(st) => if !st.seen_version {
            Err(ParseError::MissingVersionHeader)
        } else if strict && st.warnings.len() > 0 {
            Err(ParseError::Strict(st.warnings[0]))
        } else {
            Ok(
                (
                    BeatmapV {
                        version: st.version,
                        general: st.general,
                        editor: st.editor,
                        metadata: st.metadata,
                        difficulty: st.difficulty,
                        timing_points: st.timing_points,
                        hit_objects: st.hit_objects,
                    },
                    st.warnings,
                ),
            )
        },
    }
}

fn step_line(st: &mut AsmState, line: &[char], n: usize) -> (r: Result<(), ParseError>)
    ensures
        match r {
            Ok(_) => spec_step(old(st)@, line@, n) == Ok::<AsmStateV, ParseError>(final(st)@),
            Err(e) => spec_step(old(st)@, line@, n) == Err::<AsmStateV, ParseError>(e),
        },
{
    let t = trim(line);
    if t.len() == 0 || (t.len() >= 2 && t[0] == '/' && t[1] == '/') {
        return Ok(());
    }
    if !st.seen_version {
        match version_of(t) {
            Some(v) => {
                st.seen_version = true;
                st.version = v;
                return Ok(());
            },
            None => {
                return Err(ParseError::MissingVersionHeader);
            },
        }
    }
    if t.len() >= 2 && t[0] == '[' && t[t.len() - 1] == ']' {
        let name = slice_subrange(t, 1, t.len() - 1);
        match section_from_name(name) {
            Some(sec) => {
                st.section = sec;
            },
            None => {
                st.section = Section::NoSection;
                st.warnings.push(ParseWarning::UnknownSection { line: n });
            },
        }
        return Ok(());
    }
    match st.section {
        Section::NoSection => Ok(()),
        Section::Colours => Ok(()),
        Section::Events => Ok(()),
        Section::TimingPoints => {
            match decode_timing_line(t) {
                Ok(tp) => {
                    st.timing_points.push(tp);
                    proof {
                        assert(st.hit_objects@.map_values(|h: HitObjectType| h@) =~= old(
                            st,
                        ).hit_objects@.map_values(|h: HitObjectType| h@));
                    }
                },
                Err(TimingLineError::Malformed(r)) => {
                    st.warnings.push(
                        ParseWarning::MalformedLine {
                            section: Section::TimingPoints,
                            line: n,
                            reason: r,
                        },
                    );
                },
                Err(TimingLineError::Fault(f)) => {
                    st.warnings.push(ParseWarning::InvalidTimingPoint { line: n, fault: f });
                },
            }
            Ok(())
        },
        Section::HitObjects => {
            match decode_hitobject_line(t) {
                Ok(h) => {
                    let ghost before = st.hit_objects@.map_values(|x: HitObjectType| x@);
                    let ghost hv = h@;
                    st.hit_objects.push(h);
                    proof {
                        assert(st.hit_objects@.map_values(|x: HitObjectType| x@) =~= before.push(
                            hv,
                        ));
                    }
                },
                Err(HitObjectLineError::Malformed(r)) => {
                    st.warnings.push(
                        ParseWarning::MalformedLine {
                            section: Section::HitObjects,
                            line: n,
                            reason: r,
                        },
                    );
                },
                Err(HitObjectLineError::InvalidType(b)) => {
                    st.warnings.push(ParseWarning::InvalidHitObjectType { byte: b, line: n });
                },
            }
            Ok(())
        },
        _ => {
            match find_from(t, 0, ':') {
                None => {
                    proof {
                        assert(t@.subrange(0, t@.len() as int) =~= t@);
                    }
                    st.warnings.push(
                        ParseWarning::MalformedLine {
                            section: st.section,
                            line: n,
                            reason: MalformedReason::FieldCount,
                        },
                    );
                },
                Some(i) => {
                    proof {
                        assert(t@.subrange(0, t@.len() as int) =~= t@);
                    }
                    let k = trim(slice_subrange(t, 0, i));
                    let v = trim(slice_subrange(t, i + 1, t.len()));
                    let w = match st.section {
                        Section::General => apply_general(&mut st.general, k, v),
                        Section::Editor => apply_editor(&mut st.editor, k, v),
                        Section::Metadata => apply_metadata(&mut st.metadata, k, v),
                        _ => apply_difficulty(&mut st.difficulty, k, v),
                    };
                    match w {
                        None => {},
                        Some(r) => {
                            st.warnings.push(
                                ParseWarning::MalformedLine {
                                    section: st.section,
                                    line: n,
                                    reason: r,
                                },
                            );
                        },
                    }
                },
            }
            Ok(())
        },
    }
}

/// The view of a parse result, for stating the parser's contract.
pub open spec fn spec_parse_res(r: Result<(Beatmap, Vec<ParseWarning>), ParseError>) -> Result<
    (BeatmapV, Seq<ParseWarning>),
    ParseError,
> {
    match r {
        Ok((b, w)) => Ok((b@, w@)),
        Err(e) => Err(e),
    }
}

/// One full pass over the file text. The result — chart, warnings, or the
/// fatal error — equals `spec_parse_beatmap(text@, strict)` exactly: every
/// section key, positional record, recoverable fault and the version header
/// behave as that fold states, and the outcome depends on the input alone.
pub fn parse_beatmap_with(text: &str, strict: bool) -> (r: Result<
    (Beatmap, Vec<ParseWarning>),
    ParseError,
>)
    ensures
        spec_parse_res(r) == spec_parse_beatmap(text@, strict),
{
    let chars = str_chars(text);
    let lines = split_char(chars.as_slice(), '\n');
    let ghost ls = lines@.map_values(|t: Vec<char>| t@);
    let mut st = AsmState {
        seen_version: false,
        version: 0,
        section: Section::NoSection,
        general: GeneralSection::default(),
        editor: EditorSection::default(),
        metadata: MetadataSection::default(),
        difficulty: DifficultySection::default(),
        timing_points: Vec::new(),
        hit_objects: Vec::new(),
        warnings: Vec::new(),
    };
    proof {
        assert(st@.hit_objects =~= Seq::<HitObjectV>::empty());
        assert(st@ == spec_init_state());
    }
    let mut n: usize = 0;
    while n < lines.len()
        invariant
            n <= lines@.len(),
            ls == lines@.map_values(|t: Vec<char>| t@),
            ls == spec_split(text@, '\n'),
            spec_state_after(ls, n as int) == Ok::<AsmStateV, ParseError>(st@),
        decreases lines@.len() - n,
    {
        let line = lines[n].as_slice();
        proof {
            assert(line@ == ls[n as int]);
        }
        match step_line(&mut st, line, n + 1) {
            Ok(_) => {},
            Err(e) => {
                proof {
                    assert(spec_state_after(ls, n + 1) == Err::<AsmStateV, ParseError>(e));
                    lemma_err_persists(ls, n + 1, ls.len() as int);
                }
                return Err(e);
            },
        }
        n = n + 1;
    }
    if !st.seen_version {
        return Err(ParseError::MissingVersionHeader);
    }
    if strict && st.warnings.len() > 0 {
        return Err(ParseError::Strict(st.warnings[0]));
    }
    Ok(
        (
            Beatmap {
                version: st.version,
                general: st.general,
                editor: st.editor,
                metadata: st.metadata,
                difficulty: st.difficulty,
                timing_points: st.timing_points,
                hit_objects: st.hit_objects,
            },
            st.warnings,
        ),
    )
}

/// The default, maximally tolerant parse: recoverable faults become
/// warnings beside the result, and only a missing version header is fatal.
pub fn parse_beatmap(text: &str) -> (r: Result<(Beatmap, Vec<ParseWarning>), ParseError>)
    ensures
        spec_parse_res(r) == spec_parse_beatmap(text@, false),
{
    parse_beatmap_with(text, false)
}

/// Parsing is a function of the text and strictness alone: equal texts give
/// equal charts and identical warning lists, so parsing the same text twice
/// yields structurally equal results.
pub proof fn lemma_parse_deterministic(t1: Seq<char>, t2: Seq<char>, strict: bool)
    requires
        t1 == t2,
    ensures
        spec_parse_beatmap(t1, strict) == spec_parse_beatmap(t2, strict),
{
}

/// A run of blank or comment lines leaves the assembler state unchanged.
pub proof fn lemma_skippable_run(lines: Seq<Seq<char>>, k: int, m: int)
    requires
        0 <= k <= m <= lines.len(),
        forall|j: int| k <= j < m ==> spec_is_skippable(spec_trim(#[trigger] lines[j])),
    ensures
        spec_state_after(lines, m) == spec_state_after(lines, k),
    decreases m - k,
{
    if m > k {
        lemma_skippable_run(lines, k, m - 1);
    }
}

/// Default filling: a text whose first line is a version header and whose
/// remaining lines are all blank or comments parses successfully, with every
/// section exactly at its documented defaults, empty timing-point and
/// hit-object sequences, and not one warning.
pub proof fn lemma_version_header_only_defaults(text: Seq<char>, strict: bool)
    requires
        ({
            let lines = spec_split(text, '\n');
            &&& lines.len() >= 1
            &&& !spec_is_skippable(spec_trim(lines[0]))
            &&& spec_version_of(spec_trim(lines[0])) is Some
            &&& forall|j: int|
                1 <= j < lines.len() ==> spec_is_skippable(spec_trim(#[trigger] lines[j]))
        }),
    ensures
        ({
            let lines = spec_split(text, '\n');
            let v = spec_version_of(spec_trim(lines[0]))->0;
            spec_parse_beatmap(text, strict) == Ok::<(BeatmapV, Seq<ParseWarning>), ParseError>(
                (
                    BeatmapV {
                        version: v,
                        general: spec_general_default(),
                        editor: spec_editor_default(),
                        metadata: spec_metadata_default(),
                        difficulty: spec_difficulty_default(),
                        timing_points: Seq::empty(),
                        hit_objects: Seq::empty(),
                    },
                    Seq::<ParseWarning>::empty(),
                ),
            )
        }),
{
    let lines = spec_split(text, '\n');
    let v = spec_version_of(spec_trim(lines[0]))->0;
    assert(spec_state_after(lines, 0) == Ok::<AsmStateV, ParseError>(spec_init_state()));
    let st1 = AsmStateV { seen_version: true, version: v, ..spec_init_state() };
    assert(spec_state_after(lines, 1) == Ok::<AsmStateV, ParseError>(st1));
    lemma_skippable_run(lines, 1, lines.len() as int);
    assert(st1.warnings =~= Seq::<ParseWarning>::empty());
}

/// Malformed-line recovery: a structurally malformed content line in the
/// hit-objects section costs exactly one `MalformedLine` warning, adds no
/// hit object, changes nothing else, and never aborts the parse.
pub proof fn lemma_malformed_hitobject_recovered(
    st: AsmStateV,
    line: Seq<char>,
    n: usize,
    r: MalformedReason,
)
    requires
        st.seen_version,
        st.section == Section::HitObjects,
        !spec_is_skippable(spec_trim(line)),
        !spec_is_header(spec_trim(line)),
        spec_decode_hitobject(spec_trim(line)) == Err::<HitObjectV, HitObjectLineError>(
            HitObjectLineError::Malformed(r),
        ),
    ensures
        spec_step(st, line, n) == Ok::<AsmStateV, ParseError>(
            AsmStateV {
                warnings: st.warnings.push(
                    ParseWarning::MalformedLine {
                        section: Section::HitObjects,
                        line: n,
                        reason: r,
                    },
                ),
                ..st
            },
        ),
{
}

} // verus!
