//! MOD-04: morphological (sarf) analysis of segmented tokens.
//!
//! Each segmentation's stem is checked against the particle and pronoun
//! lists; otherwise root candidates are extracted, patterns (awzan) are
//! matched for each root, and the part of speech and features follow from
//! the pattern. KB-0004, when present, overrides the built-in stem lists and
//! pattern confidences.

use vstd::prelude::*;

use crate::error::{codes, PipelineError, PipelineResult};
use crate::evidence::{EvidenceCategory, EvidenceEntry};
use crate::feature::{
    with_field, FeatureBitfield, FeatureCategory, NamedFeature, GENDER_START, GENDER_WIDTH,
    NUMBER_START, NUMBER_WIDTH, PERSON_START, PERSON_WIDTH, POS_START, POS_WIDTH, TENSE_START,
    TENSE_WIDTH,
};
use crate::ir::{
    MorphologicalAnalysis, MorphologicalAnalysisMetadata, RootRef, Segmentation,
    SegmentedToken, SegmentedTokenStream, StemAnalysis, TokenAnalysis, WazanRef,
};
use crate::kb0004::{
    entry_for_stem, boosted_confidence, max_default_confidence, profile_for_pattern,
    profiles_for_form, Kb0004,
};
use crate::morph_error::{is_morph_pipeline_error, MorphError};
use crate::pipeline::{PipelineContext, PipelineStage};
use crate::tokenizer::table_view;
use crate::text::{
    append_str, byte_len, chars_eq, chars_of, chars_range, decimal, insert_sorted_unique, owned,
    push_decimal, strictly_sorted, string_from_chars, strings_view, utf8_len,
};
use crate::types::{pos_code, GrammarSchool, MorphemeType, PartOfSpeech, TokenType};

verus! {

// Configuration.

/// Configuration of KB-0004 loading.
#[derive(Debug, Clone)]
pub struct Kb0004Config {
    /// Whether KB-0004 loading is enabled (default: false)
    pub enabled: bool,
    /// Filesystem path to the KB-0004 data directory
    pub path: String,
}

impl Default for Kb0004Config {
    fn default() -> (r: Self)
        ensures
            !r.enabled,
            r.path@ == Seq::<char>::empty(),
    {
        Self { enabled: false, path: String::new() }
    }
}

/// Configuration of the morphological parser.
#[derive(Debug, Clone)]
pub struct MorphologicalParserConfig {
    /// Grammar school for analysis
    pub school: GrammarSchool,
    /// Maximum morphological analyses per token (default: 256)
    pub max_analyses: usize,
    /// Allow heuristic guess for unknown stems (default: false)
    pub enable_guess: bool,
    /// Enable weak root heuristics (default: true)
    pub enable_weak_heuristics: bool,
    /// Enable hamza heuristics (default: true)
    pub enable_hamza_heuristics: bool,
    /// Enable geminate/doubled root heuristics (default: true)
    pub enable_geminate_heuristics: bool,
    /// Maximum root candidates per stem (default: 8)
    pub max_root_candidates: usize,
    /// Maximum wazan candidates per stem (default: 16)
    pub max_wazan_candidates: usize,
    /// KB-0004 configuration
    pub kb_config: Kb0004Config,
}

impl Default for MorphologicalParserConfig {
    fn default() -> (r: Self)
        ensures
            r.school == GrammarSchool::Basra,
            r.max_analyses == 256,
            !r.enable_guess,
            r.enable_weak_heuristics,
            r.enable_hamza_heuristics,
            r.enable_geminate_heuristics,
            r.max_root_candidates == 8,
            r.max_wazan_candidates == 16,
            !r.kb_config.enabled,
            r.kb_config.path@ == Seq::<char>::empty(),
    {
        Self {
            school: GrammarSchool::Basra,
            max_analyses: 256,
            enable_guess: false,
            enable_weak_heuristics: true,
            enable_hamza_heuristics: true,
            enable_geminate_heuristics: true,
            max_root_candidates: 8,
            max_wazan_candidates: 16,
            kb_config: Kb0004Config::default(),
        }
    }
}

/// MOD-04: the morphological parser stage.
#[derive(Debug)]
pub struct MorphologicalParser {
    /// Configuration
    pub config: MorphologicalParserConfig,
    /// KB-0004, which when present overrides the built-in stem lists and
    /// pattern confidences
    pub kb: Option<Kb0004>,
}

// Candidate types.

/// Type of Arabic root.
#[derive(Debug, Clone, Copy, PartialEq, Eq, Structural)]
pub enum RootType {
    Sound,
    MithalWawi,
    MithalYai,
    AjwafWawi,
    AjwafYai,
    NaqisWawi,
    NaqisYai,
    LafifMafruq,
    LafifMakrun,
    HamzatedFirst,
    HamzatedMiddle,
    HamzatedLast,
    Doubled,
    QuadriliteralSound,
    QuadriliteralWeak,
}

/// How a root was extracted.
#[derive(Debug, Clone, Copy, PartialEq, Eq, Structural)]
pub enum ExtractionMethod {
    ExactMatch,
    Triliteral,
    Quadriliteral,
    WeakRestoration,
    WeakStripping,
    HamzaPattern,
    GeminateSplit,
    Guess,
}

/// A candidate root extracted from a stem.
#[derive(Debug, Clone)]
pub struct RootCandidate {
    pub text: String,
    pub root_type: RootType,
    pub radicals: Vec<char>,
    pub source: String,
    pub extraction_method: ExtractionMethod,
    /// Confidence in millionths
    pub confidence: u32,
}

/// Category of a wazan (morphological pattern).
#[derive(Debug, Clone, Copy, PartialEq, Eq, Structural)]
pub enum WazanCategory {
    VerbFormI,
    VerbFormII,
    VerbFormIII,
    VerbFormIV,
    VerbFormV,
    VerbFormVI,
    VerbFormVII,
    VerbFormVIII,
    VerbFormIX,
    VerbFormX,
    VerbFormXI,
    VerbFormXII,
    VerbFormXIII,
    VerbFormXIV,
    VerbFormXV,
    NounMasdar,
    NounIsmFail,
    NounIsmMaful,
    NounSifatMusabbaha,
    NounIsmMakan,
    NounIsmZaman,
    NounIsmAlah,
    NounSighahMubalaghah,
    NounTafdil,
    NounNisbah,
    NounBrokenPlural,
    NounOther,
}

/// A candidate pattern (wazan) matched against a stem.
#[derive(Debug, Clone)]
pub struct WazanCandidate {
    pub text: String,
    pub form: Option<u8>,
    pub category: WazanCategory,
    pub source: String,
    /// Confidence in millionths
    pub confidence: u32,
}

/// A single feature assignment.
#[derive(Debug, Clone)]
pub struct FeatureAssignment {
    pub name: String,
    pub value: String,
    /// Confidence in millionths
    pub confidence: u32,
    pub source: String,
}

/// The complete feature set of one analysis.
#[derive(Debug, Clone)]
pub struct FeatureSet {
    pub features: Vec<FeatureAssignment>,
    pub bitfield: u64,
    /// Mean confidence of the features, in millionths
    pub confidence: u32,
}

/// The category of a feature, by its name.
pub open spec fn feature_category_of(name: Seq<char>) -> FeatureCategory {
    if name == "pos"@ || name == "part_of_speech"@ {
        FeatureCategory::Pos
    } else if name == "verb_form"@ || name == "noun_type"@ || name == "pronoun_type"@ {
        FeatureCategory::Derivational
    } else if name == "has_shadda"@ || name == "has_madd"@ || name == "has_hamza"@ {
        FeatureCategory::Orthographic
    } else if name == "stress_pattern"@ || name == "syllable_count"@ {
        FeatureCategory::Prosodic
    } else {
        FeatureCategory::Inflectional
    }
}

/// Whether the characters of `s` are those of the literal `lit`.
fn is_literal(s: &Vec<char>, lit: &str) -> (r: bool)
    ensures
        r == (s@ == lit@),
{
    chars_eq(s, &chars_of(lit))
}

impl From<FeatureAssignment> for NamedFeature {
    fn from(fa: FeatureAssignment) -> (r: NamedFeature) {
        let name = chars_of(fa.name.as_str());
        let category = if is_literal(&name, "pos") || is_literal(&name, "part_of_speech") {
            FeatureCategory::Pos
        } else if is_literal(&name, "verb_form") || is_literal(&name, "noun_type") || is_literal(
            &name,
            "pronoun_type",
        ) {
            FeatureCategory::Derivational
        } else if is_literal(&name, "has_shadda") || is_literal(&name, "has_madd") || is_literal(
            &name,
            "has_hamza",
        ) {
            FeatureCategory::Orthographic
        } else if is_literal(&name, "stress_pattern") || is_literal(&name, "syllable_count") {
            FeatureCategory::Prosodic
        } else {
            FeatureCategory::Inflectional
        };
        NamedFeature {
            name: fa.name,
            value: fa.value,
            category,
            confidence: fa.confidence,
            source: fa.source,
        }
    }
}

impl vstd::std_specs::convert::FromSpecImpl<FeatureAssignment> for NamedFeature {
    open spec fn obeys_from_spec() -> bool {
        true
    }

    open spec fn from_spec(fa: FeatureAssignment) -> NamedFeature {
        NamedFeature {
            name: fa.name,
            value: fa.value,
            category: feature_category_of(fa.name@),
            confidence: fa.confidence,
            source: fa.source,
        }
    }
}

// What std computes from Unicode tables.

/// Whether `c` has the Unicode Alphabetic property, as std's tables give it.
pub uninterp spec fn alphabetic(c: char) -> bool;

/// std's `char::is_alphabetic`: a function of the character alone, named.
#[verifier::external_body]
fn is_alphabetic(c: char) -> (r: bool)
    ensures
        r == alphabetic(c),
{
    c.is_alphabetic()
}

/// The upper-case form of `s`, as std's Unicode case tables give it.
pub uninterp spec fn uppercase(s: Seq<char>) -> Seq<char>;

/// std's `str::to_uppercase`: a function of the text alone, named.
#[verifier::external_body]
fn to_uppercase(s: &str) -> (r: String)
    ensures
        r@ == uppercase(s@),
{
    s.to_uppercase()
}

// Letters.

/// The weak letters: waw, ya, alif, alif maqsura.
pub open spec fn is_weak_letter(c: char) -> bool {
    c == '\u{0648}' || c == '\u{064A}' || c == '\u{0627}' || c == '\u{0649}'
}

fn weak_letter(c: char) -> (r: bool)
    ensures
        r == is_weak_letter(c),
{
    c == '\u{0648}' || c == '\u{064A}' || c == '\u{0627}' || c == '\u{0649}'
}

/// The hamza forms: hamza, alif with hamza above and below, ya and waw with hamza.
pub open spec fn is_hamza_letter(c: char) -> bool {
    c == '\u{0621}' || c == '\u{0623}' || c == '\u{0625}' || c == '\u{0626}' || c == '\u{0624}'
}

fn hamza_letter(c: char) -> (r: bool)
    ensures
        r == is_hamza_letter(c),
{
    c == '\u{0621}' || c == '\u{0623}' || c == '\u{0625}' || c == '\u{0626}' || c == '\u{0624}'
}

/// Whether `c` can be a radical: alphabetic and not weak.
pub open spec fn is_consonant(c: char) -> bool {
    alphabetic(c) && !is_weak_letter(c)
}

/// The radicals of `s`: its alphabetic, non-weak characters.
pub open spec fn consonants(s: Seq<char>) -> Seq<char> {
    s.filter(|c: char| is_consonant(c))
}

/// `s` starts with `c`.
pub open spec fn starts_with_char(s: Seq<char>, c: char) -> bool {
    s.len() > 0 && s[0] == c
}

/// `s` ends with `c`.
pub open spec fn ends_with_char(s: Seq<char>, c: char) -> bool {
    s.len() > 0 && s.last() == c
}

/// `s` ends with `e`.
pub open spec fn ends_with_seq(s: Seq<char>, e: Seq<char>) -> bool {
    e.len() <= s.len() && s.skip(s.len() - e.len()) == e
}

/// `s` starts with `p`.
pub open spec fn starts_with_seq(s: Seq<char>, p: Seq<char>) -> bool {
    p.len() <= s.len() && s.take(p.len() as int) == p
}

/// `s` contains `x` as a contiguous part.
pub open spec fn contains_seq(s: Seq<char>, x: Seq<char>) -> bool {
    exists|i: int| 0 <= i <= s.len() - x.len() && #[trigger] s.subrange(i, i + x.len()) == x
}

fn first_is(s: &Vec<char>, c: char) -> (r: bool)
    ensures
        r == starts_with_char(s@, c),
{
    s.len() > 0 && s[0] == c
}

fn last_is(s: &Vec<char>, c: char) -> (r: bool)
    ensures
        r == ends_with_char(s@, c),
{
    s.len() > 0 && s[s.len() - 1] == c
}

fn ends_with_lit(s: &Vec<char>, lit: &str) -> (r: bool)
    ensures
        r == ends_with_seq(s@, lit@),
{
    let e = chars_of(lit);
    if e.len() > s.len() {
        return false;
    }
    let n = s.len();
    let cut = n - e.len();
    let mut i: usize = 0;
    while i < e.len()
        invariant
            n == s@.len(),
            e@ == lit@,
            e@.len() <= s@.len(),
            cut == s@.len() - e@.len(),
            0 <= i <= e@.len(),
            forall|j: int| 0 <= j < i ==> s@[cut + j] == e@[j],
        decreases e@.len() - i,
    {
        if s[cut + i] != e[i] {
            assert(s@.skip(cut as int)[i as int] != e@[i as int]);
            return false;
        }
        i = i + 1;
    }
    assert(s@.skip(cut as int) =~= e@);
    true
}

fn starts_with_lit(s: &Vec<char>, lit: &str) -> (r: bool)
    ensures
        r == starts_with_seq(s@, lit@),
{
    let p = chars_of(lit);
    if p.len() > s.len() {
        return false;
    }
    let mut i: usize = 0;
    while i < p.len()
        invariant
            p@ == lit@,
            p@.len() <= s@.len(),
            0 <= i <= p@.len(),
            forall|j: int| 0 <= j < i ==> s@[j] == p@[j],
        decreases p@.len() - i,
    {
        if s[i] != p[i] {
            assert(s@.take(p@.len() as int)[i as int] != p@[i as int]);
            return false;
        }
        i = i + 1;
    }
    assert(s@.take(p@.len() as int) =~= p@);
    true
}

fn contains_lit(s: &Vec<char>, lit: &str) -> (r: bool)
    ensures
        r == contains_seq(s@, lit@),
{
    let x = chars_of(lit);
    if x.len() > s.len() {
        proof {
            assert forall|i: int| !(0 <= i <= s@.len() - x@.len() && #[trigger] s@.subrange(i, i + x@.len()) == x@) by {}
        }
        return false;
    }
    let n = s.len();
    let mut i: usize = 0;
    while i <= n - x.len()
        invariant
            x@ == lit@,
            n == s@.len(),
            x@.len() <= n,
            0 <= i <= n - x@.len() + 1,
            forall|k: int| 0 <= k < i ==> #[trigger] s@.subrange(k, k + x@.len()) != x@,
        decreases n - x@.len() + 1 - i,
    {
        let mut j: usize = 0;
        let mut same = true;
        while j < x.len()
            invariant
                x@ == lit@,
                n == s@.len(),
                x@.len() <= n,
                i + x@.len() <= n,
                0 <= j <= x@.len(),
                same == forall|t: int| 0 <= t < j ==> s@[i + t] == x@[t],
            decreases x@.len() - j,
        {
            if s[i + j] != x[j] {
                same = false;
            }
            j = j + 1;
        }
        if same {
            assert(s@.subrange(i as int, i + x@.len()) =~= x@);
            return true;
        }
        proof {
            let k = choose|t: int| 0 <= t < x@.len() && s@[i + t] != x@[t];
            assert(s@.subrange(i as int, i + x@.len())[k] != x@[k]);
        }
        i = i + 1;
    }
    false
}

/// Whether `s` is an entry of `t`.
fn in_table(t: &Vec<Vec<char>>, s: &Vec<char>) -> (r: bool)
    ensures
        r == table_view(t@).contains(s@),
{
    let mut i: usize = 0;
    while i < t.len()
        invariant
            0 <= i <= t@.len(),
            forall|j: int| 0 <= j < i ==> #[trigger] t@[j]@ != s@,
        decreases t@.len() - i,
    {
        if chars_eq(&t[i], s) {
            assert(table_view(t@)[i as int] == s@);
            return true;
        }
        i = i + 1;
    }
    assert forall|j: int| 0 <= j < table_view(t@).len() implies #[trigger] table_view(t@)[j] != s@ by {
        assert(table_view(t@)[j] == t@[j]@);
    }
    false
}

// The built-in lexicon.

pub open spec fn common_particles_part1() -> Seq<Seq<char>> {
    seq![
        "\u{0641}\u{0650}\u{064A}"@,
        "\u{0645}\u{0650}\u{0646}"@,
        "\u{0625}\u{0650}\u{0644}\u{064E}\u{0649}"@,
        "\u{0639}\u{064E}\u{0644}\u{064E}\u{0649}"@,
        "\u{0639}\u{064E}\u{0646}\u{0652}"@,
        "\u{0628}\u{0650}"@,
        "\u{0644}\u{0650}"@,
        "\u{0643}\u{064E}"@,
        "\u{0648}\u{064E}"@,
        "\u{0641}\u{064E}"@,
        "\u{062B}\u{064F}\u{0645}\u{064E}\u{0651}"@,
        "\u{062D}\u{064E}\u{062A}\u{064E}\u{0651}\u{0649}"@,
        "\u{0644}\u{064E}\u{0646}\u{0652}"@,
        "\u{0644}\u{064E}\u{0645}\u{0652}"@,
        "\u{0644}\u{064E}\u{0627}"@,
        "\u{0625}\u{0650}\u{0646}\u{064E}\u{0651}"@,
        "\u{0623}\u{064E}\u{0646}\u{064E}\u{0651}"@,
        "\u{0643}\u{064E}\u{0623}\u{064E}\u{0646}\u{064E}\u{0651}"@,
        "\u{0644}\u{064E}\u{0643}\u{0650}\u{0646}\u{064E}\u{0651}"@,
        "\u{0644}\u{064E}\u{064A}\u{0652}\u{062A}\u{064E}"@,
        "\u{0644}\u{064E}\u{0639}\u{064E}\u{0644}\u{064E}\u{0651}"@,
        "\u{0645}\u{064E}\u{0627}"@,
        "\u{0645}\u{064E}\u{0646}\u{0652}"@,
        "\u{0647}\u{064E}\u{0644}\u{0652}"@,
        "\u{0623}\u{064E}"@,
    ]
}

fn particle_table_part1(t: &mut Vec<Vec<char>>)
    ensures
        table_view(final(t)@) == table_view(old(t)@) + common_particles_part1(),
{
    let ghost start = t@;
    t.push(chars_of("\u{0641}\u{0650}\u{064A}"));
    t.push(chars_of("\u{0645}\u{0650}\u{0646}"));
    t.push(chars_of("\u{0625}\u{0650}\u{0644}\u{064E}\u{0649}"));
    t.push(chars_of("\u{0639}\u{064E}\u{0644}\u{064E}\u{0649}"));
    t.push(chars_of("\u{0639}\u{064E}\u{0646}\u{0652}"));
    t.push(chars_of("\u{0628}\u{0650}"));
    t.push(chars_of("\u{0644}\u{0650}"));
    t.push(chars_of("\u{0643}\u{064E}"));
    t.push(chars_of("\u{0648}\u{064E}"));
    t.push(chars_of("\u{0641}\u{064E}"));
    t.push(chars_of("\u{062B}\u{064F}\u{0645}\u{064E}\u{0651}"));
    t.push(chars_of("\u{062D}\u{064E}\u{062A}\u{064E}\u{0651}\u{0649}"));
    t.push(chars_of("\u{0644}\u{064E}\u{0646}\u{0652}"));
    t.push(chars_of("\u{0644}\u{064E}\u{0645}\u{0652}"));
    t.push(chars_of("\u{0644}\u{064E}\u{0627}"));
    t.push(chars_of("\u{0625}\u{0650}\u{0646}\u{064E}\u{0651}"));
    t.push(chars_of("\u{0623}\u{064E}\u{0646}\u{064E}\u{0651}"));
    t.push(chars_of("\u{0643}\u{064E}\u{0623}\u{064E}\u{0646}\u{064E}\u{0651}"));
    t.push(chars_of("\u{0644}\u{064E}\u{0643}\u{0650}\u{0646}\u{064E}\u{0651}"));
    t.push(chars_of("\u{0644}\u{064E}\u{064A}\u{0652}\u{062A}\u{064E}"));
    t.push(chars_of("\u{0644}\u{064E}\u{0639}\u{064E}\u{0644}\u{064E}\u{0651}"));
    t.push(chars_of("\u{0645}\u{064E}\u{0627}"));
    t.push(chars_of("\u{0645}\u{064E}\u{0646}\u{0652}"));
    t.push(chars_of("\u{0647}\u{064E}\u{0644}\u{0652}"));
    t.push(chars_of("\u{0623}\u{064E}"));
    assert(table_view(t@) =~= table_view(start) + common_particles_part1());
}

pub open spec fn common_particles_part2() -> Seq<Seq<char>> {
    seq![
        "\u{0642}\u{064E}\u{062F}\u{0652}"@,
        "\u{0633}\u{064E}\u{0648}\u{0652}\u{0641}\u{064E}"@,
        "\u{0633}\u{064E}"@,
    ]
}

fn particle_table_part2(t: &mut Vec<Vec<char>>)
    ensures
        table_view(final(t)@) == table_view(old(t)@) + common_particles_part2(),
{
    let ghost start = t@;
    t.push(chars_of("\u{0642}\u{064E}\u{062F}\u{0652}"));
    t.push(chars_of("\u{0633}\u{064E}\u{0648}\u{0652}\u{0641}\u{064E}"));
    t.push(chars_of("\u{0633}\u{064E}"));
    assert(table_view(t@) =~= table_view(start) + common_particles_part2());
}

/// The particles recognized without analysis.
pub open spec fn common_particles() -> Seq<Seq<char>> {
    common_particles_part1() + common_particles_part2()
}

fn particle_table() -> (r: Vec<Vec<char>>)
    ensures
        table_view(r@) == common_particles(),
{
    let mut t: Vec<Vec<char>> = Vec::new();
    assert(table_view(t@) =~= Seq::<Seq<char>>::empty());
    particle_table_part1(&mut t);
    particle_table_part2(&mut t);
    assert(table_view(t@) =~= common_particles());
    t
}

/// The pronouns recognized without analysis.
pub open spec fn common_pronouns() -> Seq<Seq<char>> {
    seq![
        "\u{0647}\u{064F}\u{0648}\u{064E}"@,
        "\u{0647}\u{0650}\u{064A}\u{064E}"@,
        "\u{0647}\u{064F}\u{0645}\u{064E}\u{0627}"@,
        "\u{0647}\u{064F}\u{0645}\u{0652}"@,
        "\u{0647}\u{064F}\u{0646}\u{064E}\u{0651}"@,
        "\u{0623}\u{064E}\u{0646}\u{0652}\u{062A}\u{064E}"@,
        "\u{0623}\u{064E}\u{0646}\u{0652}\u{062A}\u{0650}"@,
        "\u{0623}\u{064E}\u{0646}\u{0652}\u{062A}\u{064F}\u{0645}\u{064E}\u{0627}"@,
        "\u{0623}\u{064E}\u{0646}\u{0652}\u{062A}\u{064F}\u{0645}\u{0652}"@,
        "\u{0623}\u{064E}\u{0646}\u{0652}\u{062A}\u{064F}\u{0646}\u{064E}\u{0651}"@,
        "\u{0623}\u{064E}\u{0646}\u{064E}\u{0627}"@,
        "\u{0646}\u{064E}\u{062D}\u{0652}\u{0646}\u{064F}"@,
        "\u{0647}\u{064E}\u{0630}\u{064E}\u{0627}"@,
        "\u{0647}\u{064E}\u{0630}\u{0650}\u{0647}\u{0650}"@,
        "\u{0647}\u{064E}\u{0624}\u{064F}\u{0644}\u{064E}\u{0627}\u{0621}\u{0650}"@,
        "\u{0630}\u{064E}\u{0644}\u{0650}\u{0643}\u{064E}"@,
        "\u{062A}\u{0650}\u{0644}\u{0652}\u{0643}\u{064E}"@,
        "\u{0623}\u{064F}\u{0648}\u{0644}\u{064E}\u{0626}\u{0650}\u{0643}\u{064E}"@,
        "\u{0645}\u{064E}\u{0646}\u{0652}"@,
        "\u{0645}\u{064E}\u{0627}"@,
        "\u{0627}\u{0644}\u{064E}\u{0651}\u{0630}\u{0650}\u{064A}"@,
        "\u{0627}\u{0644}\u{064E}\u{0651}\u{062A}\u{0650}\u{064A}"@,
        "\u{0627}\u{0644}\u{064E}\u{0651}\u{0630}\u{0650}\u{064A}\u{0646}\u{064E}"@,
        "\u{0627}\u{0644}\u{0644}\u{064E}\u{0651}\u{0627}\u{062A}\u{0650}\u{064A}"@,
    ]
}

fn pronoun_table() -> (r: Vec<Vec<char>>)
    ensures
        table_view(r@) == common_pronouns(),
{
    let mut t: Vec<Vec<char>> = Vec::new();
    t.push(chars_of("\u{0647}\u{064F}\u{0648}\u{064E}"));
    t.push(chars_of("\u{0647}\u{0650}\u{064A}\u{064E}"));
    t.push(chars_of("\u{0647}\u{064F}\u{0645}\u{064E}\u{0627}"));
    t.push(chars_of("\u{0647}\u{064F}\u{0645}\u{0652}"));
    t.push(chars_of("\u{0647}\u{064F}\u{0646}\u{064E}\u{0651}"));
    t.push(chars_of("\u{0623}\u{064E}\u{0646}\u{0652}\u{062A}\u{064E}"));
    t.push(chars_of("\u{0623}\u{064E}\u{0646}\u{0652}\u{062A}\u{0650}"));
    t.push(chars_of("\u{0623}\u{064E}\u{0646}\u{0652}\u{062A}\u{064F}\u{0645}\u{064E}\u{0627}"));
    t.push(chars_of("\u{0623}\u{064E}\u{0646}\u{0652}\u{062A}\u{064F}\u{0645}\u{0652}"));
    t.push(chars_of("\u{0623}\u{064E}\u{0646}\u{0652}\u{062A}\u{064F}\u{0646}\u{064E}\u{0651}"));
    t.push(chars_of("\u{0623}\u{064E}\u{0646}\u{064E}\u{0627}"));
    t.push(chars_of("\u{0646}\u{064E}\u{062D}\u{0652}\u{0646}\u{064F}"));
    t.push(chars_of("\u{0647}\u{064E}\u{0630}\u{064E}\u{0627}"));
    t.push(chars_of("\u{0647}\u{064E}\u{0630}\u{0650}\u{0647}\u{0650}"));
    t.push(chars_of("\u{0647}\u{064E}\u{0624}\u{064F}\u{0644}\u{064E}\u{0627}\u{0621}\u{0650}"));
    t.push(chars_of("\u{0630}\u{064E}\u{0644}\u{0650}\u{0643}\u{064E}"));
    t.push(chars_of("\u{062A}\u{0650}\u{0644}\u{0652}\u{0643}\u{064E}"));
    t.push(chars_of("\u{0623}\u{064F}\u{0648}\u{0644}\u{064E}\u{0626}\u{0650}\u{0643}\u{064E}"));
    t.push(chars_of("\u{0645}\u{064E}\u{0646}\u{0652}"));
    t.push(chars_of("\u{0645}\u{064E}\u{0627}"));
    t.push(chars_of("\u{0627}\u{0644}\u{064E}\u{0651}\u{0630}\u{0650}\u{064A}"));
    t.push(chars_of("\u{0627}\u{0644}\u{064E}\u{0651}\u{062A}\u{0650}\u{064A}"));
    t.push(chars_of("\u{0627}\u{0644}\u{064E}\u{0651}\u{0630}\u{0650}\u{064A}\u{0646}\u{064E}"));
    t.push(chars_of("\u{0627}\u{0644}\u{0644}\u{064E}\u{0651}\u{0627}\u{062A}\u{0650}\u{064A}"));
    assert(table_view(t@) =~= common_pronouns());
    t
}

pub open spec fn common_nouns_3l_part1() -> Seq<Seq<char>> {
    seq![
        "\u{0631}\u{062C}\u{0644}"@,
        "\u{0639}\u{064A}\u{0646}"@,
        "\u{0631}\u{0623}\u{0633}"@,
        "\u{0635}\u{062F}\u{0631}"@,
        "\u{0628}\u{0637}\u{0646}"@,
        "\u{0642}\u{0644}\u{0628}"@,
        "\u{062C}\u{0644}\u{062F}"@,
        "\u{0639}\u{0638}\u{0645}"@,
        "\u{0644}\u{062D}\u{0645}"@,
        "\u{0639}\u{0646}\u{0642}"@,
        "\u{0641}\u{0645}"@,
        "\u{064A}\u{062F}"@,
        "\u{062F}\u{0645}"@,
        "\u{0633}\u{0646}"@,
        "\u{0638}\u{0647}\u{0631}"@,
        "\u{0642}\u{062F}\u{0645}"@,
        "\u{0643}\u{0628}\u{062F}"@,
        "\u{0643}\u{062A}\u{0641}"@,
        "\u{0633}\u{0627}\u{0642}"@,
        "\u{0623}\u{0630}\u{0646}"@,
        "\u{0641}\u{062E}\u{0630}"@,
        "\u{062E}\u{0628}\u{0632}"@,
        "\u{062C}\u{0628}\u{0646}"@,
        "\u{0639}\u{0633}\u{0644}"@,
        "\u{0644}\u{0628}\u{0646}"@,
    ]
}

fn noun_stem_table_part1(t: &mut Vec<Vec<char>>)
    ensures
        table_view(final(t)@) == table_view(old(t)@) + common_nouns_3l_part1(),
{
    let ghost start = t@;
    t.push(chars_of("\u{0631}\u{062C}\u{0644}"));
    t.push(chars_of("\u{0639}\u{064A}\u{0646}"));
    t.push(chars_of("\u{0631}\u{0623}\u{0633}"));
    t.push(chars_of("\u{0635}\u{062F}\u{0631}"));
    t.push(chars_of("\u{0628}\u{0637}\u{0646}"));
    t.push(chars_of("\u{0642}\u{0644}\u{0628}"));
    t.push(chars_of("\u{062C}\u{0644}\u{062F}"));
    t.push(chars_of("\u{0639}\u{0638}\u{0645}"));
    t.push(chars_of("\u{0644}\u{062D}\u{0645}"));
    t.push(chars_of("\u{0639}\u{0646}\u{0642}"));
    t.push(chars_of("\u{0641}\u{0645}"));
    t.push(chars_of("\u{064A}\u{062F}"));
    t.push(chars_of("\u{062F}\u{0645}"));
    t.push(chars_of("\u{0633}\u{0646}"));
    t.push(chars_of("\u{0638}\u{0647}\u{0631}"));
    t.push(chars_of("\u{0642}\u{062F}\u{0645}"));
    t.push(chars_of("\u{0643}\u{0628}\u{062F}"));
    t.push(chars_of("\u{0643}\u{062A}\u{0641}"));
    t.push(chars_of("\u{0633}\u{0627}\u{0642}"));
    t.push(chars_of("\u{0623}\u{0630}\u{0646}"));
    t.push(chars_of("\u{0641}\u{062E}\u{0630}"));
    t.push(chars_of("\u{062E}\u{0628}\u{0632}"));
    t.push(chars_of("\u{062C}\u{0628}\u{0646}"));
    t.push(chars_of("\u{0639}\u{0633}\u{0644}"));
    t.push(chars_of("\u{0644}\u{0628}\u{0646}"));
    assert(table_view(t@) =~= table_view(start) + common_nouns_3l_part1());
}

pub open spec fn common_nouns_3l_part2() -> Seq<Seq<char>> {
    seq![
        "\u{0632}\u{064A}\u{062A}"@,
        "\u{062A}\u{0645}\u{0631}"@,
        "\u{0628}\u{0635}\u{0644}"@,
        "\u{0645}\u{0644}\u{062D}"@,
        "\u{0639}\u{0646}\u{0628}"@,
        "\u{062A}\u{064A}\u{0646}"@,
        "\u{0631}\u{0632}"@,
        "\u{0642}\u{0645}\u{062D}"@,
        "\u{062B}\u{0648}\u{0645}"@,
        "\u{0639}\u{062F}\u{0633}"@,
        "\u{0644}\u{0648}\u{0632}"@,
        "\u{0641}\u{0648}\u{0644}"@,
        "\u{062D}\u{0628}"@,
        "\u{0633}\u{0643}\u{0631}"@,
        "\u{0628}\u{062D}\u{0631}"@,
        "\u{062C}\u{0628}\u{0644}"@,
        "\u{0646}\u{0647}\u{0631}"@,
        "\u{0634}\u{0645}\u{0633}"@,
        "\u{0642}\u{0645}\u{0631}"@,
        "\u{0638}\u{0644}"@,
        "\u{0646}\u{0648}\u{0631}"@,
        "\u{0646}\u{0627}\u{0631}"@,
        "\u{062D}\u{062C}\u{0631}"@,
        "\u{062B}\u{0644}\u{062C}"@,
        "\u{0631}\u{0645}\u{0644}"@,
    ]
}

fn noun_stem_table_part2(t: &mut Vec<Vec<char>>)
    ensures
        table_view(final(t)@) == table_view(old(t)@) + common_nouns_3l_part2(),
{
    let ghost start = t@;
    t.push(chars_of("\u{0632}\u{064A}\u{062A}"));
    t.push(chars_of("\u{062A}\u{0645}\u{0631}"));
    t.push(chars_of("\u{0628}\u{0635}\u{0644}"));
    t.push(chars_of("\u{0645}\u{0644}\u{062D}"));
    t.push(chars_of("\u{0639}\u{0646}\u{0628}"));
    t.push(chars_of("\u{062A}\u{064A}\u{0646}"));
    t.push(chars_of("\u{0631}\u{0632}"));
    t.push(chars_of("\u{0642}\u{0645}\u{062D}"));
    t.push(chars_of("\u{062B}\u{0648}\u{0645}"));
    t.push(chars_of("\u{0639}\u{062F}\u{0633}"));
    t.push(chars_of("\u{0644}\u{0648}\u{0632}"));
    t.push(chars_of("\u{0641}\u{0648}\u{0644}"));
    t.push(chars_of("\u{062D}\u{0628}"));
    t.push(chars_of("\u{0633}\u{0643}\u{0631}"));
    t.push(chars_of("\u{0628}\u{062D}\u{0631}"));
    t.push(chars_of("\u{062C}\u{0628}\u{0644}"));
    t.push(chars_of("\u{0646}\u{0647}\u{0631}"));
    t.push(chars_of("\u{0634}\u{0645}\u{0633}"));
    t.push(chars_of("\u{0642}\u{0645}\u{0631}"));
    t.push(chars_of("\u{0638}\u{0644}"));
    t.push(chars_of("\u{0646}\u{0648}\u{0631}"));
    t.push(chars_of("\u{0646}\u{0627}\u{0631}"));
    t.push(chars_of("\u{062D}\u{062C}\u{0631}"));
    t.push(chars_of("\u{062B}\u{0644}\u{062C}"));
    t.push(chars_of("\u{0631}\u{0645}\u{0644}"));
    assert(table_view(t@) =~= table_view(start) + common_nouns_3l_part2());
}

pub open spec fn common_nouns_3l_part3() -> Seq<Seq<char>> {
    seq![
        "\u{0635}\u{062E}\u{0631}"@,
        "\u{0646}\u{062C}\u{0645}"@,
        "\u{063A}\u{064A}\u{0645}"@,
        "\u{0633}\u{062D}\u{0627}\u{0628}"@,
        "\u{0637}\u{064A}\u{0646}"@,
        "\u{062A}\u{0631}\u{0628}"@,
        "\u{0631}\u{064A}\u{062D}"@,
        "\u{0628}\u{0627}\u{0628}"@,
        "\u{062F}\u{0627}\u{0631}"@,
        "\u{0628}\u{064A}\u{062A}"@,
        "\u{0633}\u{0648}\u{0642}"@,
        "\u{0628}\u{0644}\u{062F}"@,
        "\u{062C}\u{0633}\u{0631}"@,
        "\u{0633}\u{0643}\u{0629}"@,
        "\u{0642}\u{0644}\u{0645}"@,
        "\u{0643}\u{0623}\u{0633}"@,
        "\u{0633}\u{064A}\u{0641}"@,
        "\u{0642}\u{0648}\u{0633}"@,
        "\u{0633}\u{0647}\u{0645}"@,
        "\u{0631}\u{0645}\u{062D}"@,
        "\u{0646}\u{0635}\u{0644}"@,
        "\u{062A}\u{0631}\u{0633}"@,
        "\u{062E}\u{0645}\u{0631}"@,
        "\u{062D}\u{0628}\u{0644}"@,
        "\u{062E}\u{064A}\u{0637}"@,
    ]
}

fn noun_stem_table_part3(t: &mut Vec<Vec<char>>)
    ensures
        table_view(final(t)@) == table_view(old(t)@) + common_nouns_3l_part3(),
{
    let ghost start = t@;
    t.push(chars_of("\u{0635}\u{062E}\u{0631}"));
    t.push(chars_of("\u{0646}\u{062C}\u{0645}"));
    t.push(chars_of("\u{063A}\u{064A}\u{0645}"));
    t.push(chars_of("\u{0633}\u{062D}\u{0627}\u{0628}"));
    t.push(chars_of("\u{0637}\u{064A}\u{0646}"));
    t.push(chars_of("\u{062A}\u{0631}\u{0628}"));
    t.push(chars_of("\u{0631}\u{064A}\u{062D}"));
    t.push(chars_of("\u{0628}\u{0627}\u{0628}"));
    t.push(chars_of("\u{062F}\u{0627}\u{0631}"));
    t.push(chars_of("\u{0628}\u{064A}\u{062A}"));
    t.push(chars_of("\u{0633}\u{0648}\u{0642}"));
    t.push(chars_of("\u{0628}\u{0644}\u{062F}"));
    t.push(chars_of("\u{062C}\u{0633}\u{0631}"));
    t.push(chars_of("\u{0633}\u{0643}\u{0629}"));
    t.push(chars_of("\u{0642}\u{0644}\u{0645}"));
    t.push(chars_of("\u{0643}\u{0623}\u{0633}"));
    t.push(chars_of("\u{0633}\u{064A}\u{0641}"));
    t.push(chars_of("\u{0642}\u{0648}\u{0633}"));
    t.push(chars_of("\u{0633}\u{0647}\u{0645}"));
    t.push(chars_of("\u{0631}\u{0645}\u{062D}"));
    t.push(chars_of("\u{0646}\u{0635}\u{0644}"));
    t.push(chars_of("\u{062A}\u{0631}\u{0633}"));
    t.push(chars_of("\u{062E}\u{0645}\u{0631}"));
    t.push(chars_of("\u{062D}\u{0628}\u{0644}"));
    t.push(chars_of("\u{062E}\u{064A}\u{0637}"));
    assert(table_view(t@) =~= table_view(start) + common_nouns_3l_part3());
}

pub open spec fn common_nouns_3l_part4() -> Seq<Seq<char>> {
    seq![
        "\u{0642}\u{062F}\u{0631}"@,
        "\u{0633}\u{0648}\u{0631}"@,
        "\u{062C}\u{062F}\u{0627}\u{0631}"@,
        "\u{062F}\u{0631}\u{0628}"@,
        "\u{062D}\u{0635}\u{0646}"@,
        "\u{0642}\u{0628}\u{0631}"@,
        "\u{0628}\u{0626}\u{0631}"@,
        "\u{0632}\u{0648}\u{062C}"@,
        "\u{062C}\u{0627}\u{0631}"@,
        "\u{0636}\u{064A}\u{0641}"@,
        "\u{0645}\u{0644}\u{0643}"@,
        "\u{0642}\u{0648}\u{0645}"@,
        "\u{0634}\u{0639}\u{0628}"@,
        "\u{0648}\u{0642}\u{062A}"@,
        "\u{0634}\u{0647}\u{0631}"@,
        "\u{0639}\u{0627}\u{0645}"@,
        "\u{064A}\u{0648}\u{0645}"@,
        "\u{0644}\u{064A}\u{0644}"@,
        "\u{0639}\u{0644}\u{0645}"@,
        "\u{062D}\u{0631}\u{0628}"@,
        "\u{0633}\u{0644}\u{0645}"@,
        "\u{0623}\u{0645}\u{0646}"@,
        "\u{0639}\u{0642}\u{0644}"@,
        "\u{062D}\u{0643}\u{0645}"@,
        "\u{0645}\u{062B}\u{0644}"@,
    ]
}

fn noun_stem_table_part4(t: &mut Vec<Vec<char>>)
    ensures
        table_view(final(t)@) == table_view(old(t)@) + common_nouns_3l_part4(),
{
    let ghost start = t@;
    t.push(chars_of("\u{0642}\u{062F}\u{0631}"));
    t.push(chars_of("\u{0633}\u{0648}\u{0631}"));
    t.push(chars_of("\u{062C}\u{062F}\u{0627}\u{0631}"));
    t.push(chars_of("\u{062F}\u{0631}\u{0628}"));
    t.push(chars_of("\u{062D}\u{0635}\u{0646}"));
    t.push(chars_of("\u{0642}\u{0628}\u{0631}"));
    t.push(chars_of("\u{0628}\u{0626}\u{0631}"));
    t.push(chars_of("\u{0632}\u{0648}\u{062C}"));
    t.push(chars_of("\u{062C}\u{0627}\u{0631}"));
    t.push(chars_of("\u{0636}\u{064A}\u{0641}"));
    t.push(chars_of("\u{0645}\u{0644}\u{0643}"));
    t.push(chars_of("\u{0642}\u{0648}\u{0645}"));
    t.push(chars_of("\u{0634}\u{0639}\u{0628}"));
    t.push(chars_of("\u{0648}\u{0642}\u{062A}"));
    t.push(chars_of("\u{0634}\u{0647}\u{0631}"));
    t.push(chars_of("\u{0639}\u{0627}\u{0645}"));
    t.push(chars_of("\u{064A}\u{0648}\u{0645}"));
    t.push(chars_of("\u{0644}\u{064A}\u{0644}"));
    t.push(chars_of("\u{0639}\u{0644}\u{0645}"));
    t.push(chars_of("\u{062D}\u{0631}\u{0628}"));
    t.push(chars_of("\u{0633}\u{0644}\u{0645}"));
    t.push(chars_of("\u{0623}\u{0645}\u{0646}"));
    t.push(chars_of("\u{0639}\u{0642}\u{0644}"));
    t.push(chars_of("\u{062D}\u{0643}\u{0645}"));
    t.push(chars_of("\u{0645}\u{062B}\u{0644}"));
    assert(table_view(t@) =~= table_view(start) + common_nouns_3l_part4());
}

pub open spec fn common_nouns_3l_part5() -> Seq<Seq<char>> {
    seq![
        "\u{062F}\u{064A}\u{0646}"@,
        "\u{0641}\u{0631}\u{062D}"@,
        "\u{062D}\u{0632}\u{0646}"@,
        "\u{062C}\u{0648}\u{0639}"@,
        "\u{0623}\u{0644}\u{0645}"@,
        "\u{0644}\u{0648}\u{0646}"@,
        "\u{0634}\u{0643}\u{0644}"@,
        "\u{062D}\u{0631}\u{0641}"@,
        "\u{0631}\u{0633}\u{0645}"@,
        "\u{0633}\u{062D}\u{0631}"@,
        "\u{0641}\u{0643}\u{0631}"@,
        "\u{062D}\u{0644}\u{0645}"@,
        "\u{0648}\u{0647}\u{0645}"@,
        "\u{0639}\u{0635}\u{0631}"@,
        "\u{062E}\u{0644}\u{0642}"@,
        "\u{0642}\u{0633}\u{0645}"@,
        "\u{0631}\u{062D}\u{0645}"@,
        "\u{0643}\u{0631}\u{0645}"@,
        "\u{062C}\u{0647}\u{062F}"@,
        "\u{0634}\u{0643}\u{0631}"@,
        "\u{0635}\u{0628}\u{0631}"@,
        "\u{063A}\u{0636}\u{0628}"@,
        "\u{0634}\u{0639}\u{0631}"@,
        "\u{0641}\u{0646}"@,
        "\u{0641}\u{0642}\u{0631}"@,
    ]
}

fn noun_stem_table_part5(t: &mut Vec<Vec<char>>)
    ensures
        table_view(final(t)@) == table_view(old(t)@) + common_nouns_3l_part5(),
{
    let ghost start = t@;
    t.push(chars_of("\u{062F}\u{064A}\u{0646}"));
    t.push(chars_of("\u{0641}\u{0631}\u{062D}"));
    t.push(chars_of("\u{062D}\u{0632}\u{0646}"));
    t.push(chars_of("\u{062C}\u{0648}\u{0639}"));
    t.push(chars_of("\u{0623}\u{0644}\u{0645}"));
    t.push(chars_of("\u{0644}\u{0648}\u{0646}"));
    t.push(chars_of("\u{0634}\u{0643}\u{0644}"));
    t.push(chars_of("\u{062D}\u{0631}\u{0641}"));
    t.push(chars_of("\u{0631}\u{0633}\u{0645}"));
    t.push(chars_of("\u{0633}\u{062D}\u{0631}"));
    t.push(chars_of("\u{0641}\u{0643}\u{0631}"));
    t.push(chars_of("\u{062D}\u{0644}\u{0645}"));
    t.push(chars_of("\u{0648}\u{0647}\u{0645}"));
    t.push(chars_of("\u{0639}\u{0635}\u{0631}"));
    t.push(chars_of("\u{062E}\u{0644}\u{0642}"));
    t.push(chars_of("\u{0642}\u{0633}\u{0645}"));
    t.push(chars_of("\u{0631}\u{062D}\u{0645}"));
    t.push(chars_of("\u{0643}\u{0631}\u{0645}"));
    t.push(chars_of("\u{062C}\u{0647}\u{062F}"));
    t.push(chars_of("\u{0634}\u{0643}\u{0631}"));
    t.push(chars_of("\u{0635}\u{0628}\u{0631}"));
    t.push(chars_of("\u{063A}\u{0636}\u{0628}"));
    t.push(chars_of("\u{0634}\u{0639}\u{0631}"));
    t.push(chars_of("\u{0641}\u{0646}"));
    t.push(chars_of("\u{0641}\u{0642}\u{0631}"));
    assert(table_view(t@) =~= table_view(start) + common_nouns_3l_part5());
}

pub open spec fn common_nouns_3l_part6() -> Seq<Seq<char>> {
    seq![
        "\u{063A}\u{0646}\u{0649}"@,
        "\u{062D}\u{0633}\u{0628}"@,
        "\u{0623}\u{0635}\u{0644}"@,
        "\u{0646}\u{0633}\u{0628}"@,
        "\u{0635}\u{0641}\u{0629}"@,
        "\u{0648}\u{0635}\u{0641}"@,
        "\u{0641}\u{0635}\u{0644}"@,
    ]
}

fn noun_stem_table_part6(t: &mut Vec<Vec<char>>)
    ensures
        table_view(final(t)@) == table_view(old(t)@) + common_nouns_3l_part6(),
{
    let ghost start = t@;
    t.push(chars_of("\u{063A}\u{0646}\u{0649}"));
    t.push(chars_of("\u{062D}\u{0633}\u{0628}"));
    t.push(chars_of("\u{0623}\u{0635}\u{0644}"));
    t.push(chars_of("\u{0646}\u{0633}\u{0628}"));
    t.push(chars_of("\u{0635}\u{0641}\u{0629}"));
    t.push(chars_of("\u{0648}\u{0635}\u{0641}"));
    t.push(chars_of("\u{0641}\u{0635}\u{0644}"));
    assert(table_view(t@) =~= table_view(start) + common_nouns_3l_part6());
}

/// Three-letter stems that are primarily nouns.
pub open spec fn common_nouns_3l() -> Seq<Seq<char>> {
    common_nouns_3l_part1() + common_nouns_3l_part2() + common_nouns_3l_part3() + common_nouns_3l_part4() + common_nouns_3l_part5() + common_nouns_3l_part6()
}

fn noun_stem_table() -> (r: Vec<Vec<char>>)
    ensures
        table_view(r@) == common_nouns_3l(),
{
    let mut t: Vec<Vec<char>> = Vec::new();
    assert(table_view(t@) =~= Seq::<Seq<char>>::empty());
    noun_stem_table_part1(&mut t);
    noun_stem_table_part2(&mut t);
    noun_stem_table_part3(&mut t);
    noun_stem_table_part4(&mut t);
    noun_stem_table_part5(&mut t);
    noun_stem_table_part6(&mut t);
    assert(table_view(t@) =~= common_nouns_3l());
    t
}

pub open spec fn common_verbs_3l_part1() -> Seq<Seq<char>> {
    seq![
        "\u{0643}\u{062A}\u{0628}"@,
        "\u{0636}\u{0631}\u{0628}"@,
        "\u{062C}\u{0644}\u{0633}"@,
        "\u{0641}\u{062A}\u{062D}"@,
        "\u{0634}\u{0631}\u{0628}"@,
        "\u{0630}\u{0647}\u{0628}"@,
        "\u{062F}\u{0631}\u{0633}"@,
        "\u{0644}\u{0639}\u{0628}"@,
        "\u{062E}\u{0631}\u{062C}"@,
        "\u{062F}\u{062E}\u{0644}"@,
        "\u{0646}\u{0632}\u{0644}"@,
        "\u{0635}\u{0639}\u{062F}"@,
        "\u{0637}\u{0644}\u{0639}"@,
        "\u{062D}\u{0636}\u{0631}"@,
        "\u{0635}\u{0646}\u{0639}"@,
        "\u{062D}\u{0645}\u{0644}"@,
        "\u{0631}\u{0641}\u{0639}"@,
        "\u{0642}\u{0637}\u{0639}"@,
        "\u{0648}\u{0635}\u{0644}"@,
        "\u{0631}\u{062C}\u{0639}"@,
        "\u{0633}\u{0645}\u{0639}"@,
        "\u{063A}\u{0633}\u{0644}"@,
        "\u{0645}\u{0633}\u{062D}"@,
        "\u{0642}\u{062A}\u{0644}"@,
        "\u{0643}\u{0634}\u{0641}"@,
    ]
}

fn verb_stem_table_part1(t: &mut Vec<Vec<char>>)
    ensures
        table_view(final(t)@) == table_view(old(t)@) + common_verbs_3l_part1(),
{
    let ghost start = t@;
    t.push(chars_of("\u{0643}\u{062A}\u{0628}"));
    t.push(chars_of("\u{0636}\u{0631}\u{0628}"));
    t.push(chars_of("\u{062C}\u{0644}\u{0633}"));
    t.push(chars_of("\u{0641}\u{062A}\u{062D}"));
    t.push(chars_of("\u{0634}\u{0631}\u{0628}"));
    t.push(chars_of("\u{0630}\u{0647}\u{0628}"));
    t.push(chars_of("\u{062F}\u{0631}\u{0633}"));
    t.push(chars_of("\u{0644}\u{0639}\u{0628}"));
    t.push(chars_of("\u{062E}\u{0631}\u{062C}"));
    t.push(chars_of("\u{062F}\u{062E}\u{0644}"));
    t.push(chars_of("\u{0646}\u{0632}\u{0644}"));
    t.push(chars_of("\u{0635}\u{0639}\u{062F}"));
    t.push(chars_of("\u{0637}\u{0644}\u{0639}"));
    t.push(chars_of("\u{062D}\u{0636}\u{0631}"));
    t.push(chars_of("\u{0635}\u{0646}\u{0639}"));
    t.push(chars_of("\u{062D}\u{0645}\u{0644}"));
    t.push(chars_of("\u{0631}\u{0641}\u{0639}"));
    t.push(chars_of("\u{0642}\u{0637}\u{0639}"));
    t.push(chars_of("\u{0648}\u{0635}\u{0644}"));
    t.push(chars_of("\u{0631}\u{062C}\u{0639}"));
    t.push(chars_of("\u{0633}\u{0645}\u{0639}"));
    t.push(chars_of("\u{063A}\u{0633}\u{0644}"));
    t.push(chars_of("\u{0645}\u{0633}\u{062D}"));
    t.push(chars_of("\u{0642}\u{062A}\u{0644}"));
    t.push(chars_of("\u{0643}\u{0634}\u{0641}"));
    assert(table_view(t@) =~= table_view(start) + common_verbs_3l_part1());
}

pub open spec fn common_verbs_3l_part2() -> Seq<Seq<char>> {
    seq![
        "\u{062D}\u{0641}\u{0631}"@,
        "\u{0633}\u{0643}\u{0646}"@,
        "\u{0646}\u{0638}\u{0631}"@,
        "\u{0639}\u{0631}\u{0641}"@,
        "\u{0633}\u{062C}\u{062F}"@,
        "\u{0631}\u{0643}\u{0636}"@,
        "\u{0637}\u{0644}\u{0628}"@,
        "\u{0643}\u{0633}\u{0628}"@,
        "\u{063A}\u{0641}\u{0631}"@,
        "\u{0644}\u{0639}\u{0646}"@,
        "\u{0633}\u{0631}\u{0642}"@,
        "\u{0643}\u{0633}\u{0631}"@,
        "\u{062D}\u{0641}\u{0638}"@,
        "\u{0641}\u{0647}\u{0645}"@,
        "\u{062C}\u{0645}\u{0639}"@,
        "\u{0646}\u{0635}\u{0631}"@,
        "\u{0646}\u{062C}\u{062D}"@,
        "\u{0641}\u{0634}\u{0644}"@,
        "\u{0646}\u{0634}\u{0631}"@,
        "\u{0647}\u{0632}\u{0645}"@,
        "\u{0633}\u{0644}\u{0628}"@,
        "\u{0642}\u{0627}\u{0644}"@,
        "\u{0642}\u{0627}\u{0645}"@,
        "\u{0643}\u{0627}\u{0646}"@,
        "\u{0632}\u{0627}\u{062F}"@,
    ]
}

fn verb_stem_table_part2(t: &mut Vec<Vec<char>>)
    ensures
        table_view(final(t)@) == table_view(old(t)@) + common_verbs_3l_part2(),
{
    let ghost start = t@;
    t.push(chars_of("\u{062D}\u{0641}\u{0631}"));
    t.push(chars_of("\u{0633}\u{0643}\u{0646}"));
    t.push(chars_of("\u{0646}\u{0638}\u{0631}"));
    t.push(chars_of("\u{0639}\u{0631}\u{0641}"));
    t.push(chars_of("\u{0633}\u{062C}\u{062F}"));
    t.push(chars_of("\u{0631}\u{0643}\u{0636}"));
    t.push(chars_of("\u{0637}\u{0644}\u{0628}"));
    t.push(chars_of("\u{0643}\u{0633}\u{0628}"));
    t.push(chars_of("\u{063A}\u{0641}\u{0631}"));
    t.push(chars_of("\u{0644}\u{0639}\u{0646}"));
    t.push(chars_of("\u{0633}\u{0631}\u{0642}"));
    t.push(chars_of("\u{0643}\u{0633}\u{0631}"));
    t.push(chars_of("\u{062D}\u{0641}\u{0638}"));
    t.push(chars_of("\u{0641}\u{0647}\u{0645}"));
    t.push(chars_of("\u{062C}\u{0645}\u{0639}"));
    t.push(chars_of("\u{0646}\u{0635}\u{0631}"));
    t.push(chars_of("\u{0646}\u{062C}\u{062D}"));
    t.push(chars_of("\u{0641}\u{0634}\u{0644}"));
    t.push(chars_of("\u{0646}\u{0634}\u{0631}"));
    t.push(chars_of("\u{0647}\u{0632}\u{0645}"));
    t.push(chars_of("\u{0633}\u{0644}\u{0628}"));
    t.push(chars_of("\u{0642}\u{0627}\u{0644}"));
    t.push(chars_of("\u{0642}\u{0627}\u{0645}"));
    t.push(chars_of("\u{0643}\u{0627}\u{0646}"));
    t.push(chars_of("\u{0632}\u{0627}\u{062F}"));
    assert(table_view(t@) =~= table_view(start) + common_verbs_3l_part2());
}

pub open spec fn common_verbs_3l_part3() -> Seq<Seq<char>> {
    seq![
        "\u{0628}\u{0627}\u{0639}"@,
        "\u{0633}\u{0627}\u{0631}"@,
        "\u{0635}\u{0627}\u{0645}"@,
        "\u{0646}\u{0627}\u{0645}"@,
        "\u{0639}\u{0627}\u{062F}"@,
        "\u{0633}\u{0627}\u{0642}"@,
        "\u{0637}\u{0627}\u{0631}"@,
        "\u{0636}\u{0627}\u{0639}"@,
        "\u{0635}\u{0627}\u{0631}"@,
        "\u{0645}\u{0627}\u{0644}"@,
        "\u{0631}\u{0627}\u{062D}"@,
        "\u{0642}\u{0627}\u{062F}"@,
        "\u{063A}\u{0627}\u{0628}"@,
        "\u{062E}\u{0627}\u{0641}"@,
        "\u{0641}\u{0627}\u{0632}"@,
        "\u{0645}\u{0634}\u{0649}"@,
        "\u{062C}\u{0631}\u{0649}"@,
        "\u{0633}\u{0639}\u{0649}"@,
        "\u{062F}\u{0639}\u{0627}"@,
        "\u{0628}\u{0643}\u{0649}"@,
        "\u{0628}\u{0646}\u{0649}"@,
        "\u{0647}\u{062F}\u{0649}"@,
        "\u{0631}\u{0645}\u{0649}"@,
        "\u{0623}\u{0643}\u{0644}"@,
        "\u{0623}\u{0645}\u{0631}"@,
    ]
}

fn verb_stem_table_part3(t: &mut Vec<Vec<char>>)
    ensures
        table_view(final(t)@) == table_view(old(t)@) + common_verbs_3l_part3(),
{
    let ghost start = t@;
    t.push(chars_of("\u{0628}\u{0627}\u{0639}"));
    t.push(chars_of("\u{0633}\u{0627}\u{0631}"));
    t.push(chars_of("\u{0635}\u{0627}\u{0645}"));
    t.push(chars_of("\u{0646}\u{0627}\u{0645}"));
    t.push(chars_of("\u{0639}\u{0627}\u{062F}"));
    t.push(chars_of("\u{0633}\u{0627}\u{0642}"));
    t.push(chars_of("\u{0637}\u{0627}\u{0631}"));
    t.push(chars_of("\u{0636}\u{0627}\u{0639}"));
    t.push(chars_of("\u{0635}\u{0627}\u{0631}"));
    t.push(chars_of("\u{0645}\u{0627}\u{0644}"));
    t.push(chars_of("\u{0631}\u{0627}\u{062D}"));
    t.push(chars_of("\u{0642}\u{0627}\u{062F}"));
    t.push(chars_of("\u{063A}\u{0627}\u{0628}"));
    t.push(chars_of("\u{062E}\u{0627}\u{0641}"));
    t.push(chars_of("\u{0641}\u{0627}\u{0632}"));
    t.push(chars_of("\u{0645}\u{0634}\u{0649}"));
    t.push(chars_of("\u{062C}\u{0631}\u{0649}"));
    t.push(chars_of("\u{0633}\u{0639}\u{0649}"));
    t.push(chars_of("\u{062F}\u{0639}\u{0627}"));
    t.push(chars_of("\u{0628}\u{0643}\u{0649}"));
    t.push(chars_of("\u{0628}\u{0646}\u{0649}"));
    t.push(chars_of("\u{0647}\u{062F}\u{0649}"));
    t.push(chars_of("\u{0631}\u{0645}\u{0649}"));
    t.push(chars_of("\u{0623}\u{0643}\u{0644}"));
    t.push(chars_of("\u{0623}\u{0645}\u{0631}"));
    assert(table_view(t@) =~= table_view(start) + common_verbs_3l_part3());
}

pub open spec fn common_verbs_3l_part4() -> Seq<Seq<char>> {
    seq![
        "\u{0623}\u{062E}\u{0630}"@,
    ]
}

fn verb_stem_table_part4(t: &mut Vec<Vec<char>>)
    ensures
        table_view(final(t)@) == table_view(old(t)@) + common_verbs_3l_part4(),
{
    let ghost start = t@;
    t.push(chars_of("\u{0623}\u{062E}\u{0630}"));
    assert(table_view(t@) =~= table_view(start) + common_verbs_3l_part4());
}

/// Three-letter stems that are primarily form I verbs.
pub open spec fn common_verbs_3l() -> Seq<Seq<char>> {
    common_verbs_3l_part1() + common_verbs_3l_part2() + common_verbs_3l_part3() + common_verbs_3l_part4()
}

fn verb_stem_table() -> (r: Vec<Vec<char>>)
    ensures
        table_view(r@) == common_verbs_3l(),
{
    let mut t: Vec<Vec<char>> = Vec::new();
    assert(table_view(t@) =~= Seq::<Seq<char>>::empty());
    verb_stem_table_part1(&mut t);
    verb_stem_table_part2(&mut t);
    verb_stem_table_part3(&mut t);
    verb_stem_table_part4(&mut t);
    assert(table_view(t@) =~= common_verbs_3l());
    t
}

// Root extraction.

/// A root candidate as values: text, type, radicals, source, extraction
/// method and confidence (millionths).
pub type RootSpec = (Seq<char>, RootType, Seq<char>, Seq<char>, ExtractionMethod, u32);

/// The values of a root candidate.
pub open spec fn root_view(r: RootCandidate) -> RootSpec {
    (r.text@, r.root_type, r.radicals@, r.source@, r.extraction_method, r.confidence)
}

/// The values of a list of root candidates.
pub open spec fn roots_view(v: Seq<RootCandidate>) -> Seq<RootSpec> {
    v.map_values(|r: RootCandidate| root_view(r))
}

/// A root whose text is its radicals.
pub open spec fn simple_root(
    radicals: Seq<char>,
    ty: RootType,
    source: Seq<char>,
    method: ExtractionMethod,
    conf: u32,
) -> RootSpec {
    (radicals, ty, radicals, source, method, conf)
}

/// The triliteral root: the first three radicals (confidence 0.5).
pub open spec fn triliteral_roots(s: Seq<char>) -> Seq<RootSpec> {
    let c = consonants(s);
    if c.len() >= 3 {
        seq![simple_root(c.take(3), RootType::Sound, "heuristic:triliteral"@, ExtractionMethod::Triliteral, 500_000)]
    } else {
        Seq::empty()
    }
}

/// The quadriliteral root: the first four radicals (confidence 0.4).
pub open spec fn quadriliteral_roots(s: Seq<char>) -> Seq<RootSpec> {
    let c = consonants(s);
    if c.len() >= 4 {
        seq![
            simple_root(
                c.take(4),
                RootType::QuadriliteralSound,
                "heuristic:quadriliteral"@,
                ExtractionMethod::Quadriliteral,
                400_000,
            ),
        ]
    } else {
        Seq::empty()
    }
}

/// The weak-root readings of a stem of three letters or more: hollow (a long
/// vowel second: waw 0.45, ya 0.4), defective (a weak letter last: waw 0.4,
/// ya 0.35, in that order unless the last letter is ya) and assimilated (waw
/// or ya first: the first three letters, 0.4).
pub open spec fn weak_roots(s: Seq<char>) -> Seq<RootSpec> {
    if s.len() < 3 {
        Seq::empty()
    } else {
        let waw = '\u{0648}';
        let ya = '\u{064A}';
        let mid = s[1];
        let hollow = if mid == '\u{0627}' || mid == waw || mid == ya {
            seq![
                simple_root(seq![s[0], waw, s[2]], RootType::AjwafWawi, "heuristic:hollow"@, ExtractionMethod::WeakRestoration, 450_000),
                simple_root(seq![s[0], ya, s[2]], RootType::AjwafYai, "heuristic:hollow"@, ExtractionMethod::WeakRestoration, 400_000),
            ]
        } else {
            Seq::empty()
        };
        let last = s.last();
        let defective = if last == '\u{0627}' || last == '\u{0649}' || last == ya || last == waw {
            let first_weak = if last == ya {
                ya
            } else {
                waw
            };
            let second_weak = if last == ya {
                waw
            } else {
                ya
            };
            seq![
                simple_root(seq![s[0], s[1], first_weak], RootType::NaqisWawi, "heuristic:defective"@, ExtractionMethod::WeakRestoration, 400_000),
                simple_root(seq![s[0], s[1], second_weak], RootType::NaqisYai, "heuristic:defective"@, ExtractionMethod::WeakRestoration, 350_000),
            ]
        } else {
            Seq::empty()
        };
        let assimilated = if s[0] == waw || s[0] == ya {
            seq![
                simple_root(
                    s.take(3),
                    if s[0] == waw {
                        RootType::MithalWawi
                    } else {
                        RootType::MithalYai
                    },
                    "heuristic:assimilated"@,
                    ExtractionMethod::WeakStripping,
                    400_000,
                ),
            ]
        } else {
            Seq::empty()
        };
        hollow + defective + assimilated
    }
}

/// The hollow readings. A stem of three letters or more whose second letter
/// is a long vowel (alif, waw or ya) is read first as a root with waw in the
/// middle (AjwafWawi, 0.45), then as one with ya in the middle (AjwafYai, 0.4),
/// both keeping the stem's first and third letters; and whatever the stem,
/// every hollow reading has that shape: its text and radicals are the first
/// letter, waw or ya by its type, and the third letter. Other stems have no
/// hollow reading.
pub proof fn lemma_hollow_roots(s: Seq<char>)
    ensures
        forall|k: int|
            0 <= k < weak_roots(s).len() && (#[trigger] weak_roots(s)[k]).1 == RootType::AjwafWawi
                ==> weak_roots(s)[k].0 == seq![s[0], '\u{0648}', s[2]] && weak_roots(s)[k].2 == seq![
                s[0],
                '\u{0648}',
                s[2],
            ],
        forall|k: int|
            0 <= k < weak_roots(s).len() && (#[trigger] weak_roots(s)[k]).1 == RootType::AjwafYai
                ==> weak_roots(s)[k].0 == seq![s[0], '\u{064A}', s[2]] && weak_roots(s)[k].2 == seq![
                s[0],
                '\u{064A}',
                s[2],
            ],
        s.len() >= 3 && (s[1] == '\u{0627}' || s[1] == '\u{0648}' || s[1] == '\u{064A}') ==> {
            &&& weak_roots(s).len() >= 2
            &&& weak_roots(s)[0].1 == RootType::AjwafWawi
            &&& weak_roots(s)[0].2 == seq![s[0], '\u{0648}', s[2]]
            &&& weak_roots(s)[0].5 == 450_000
            &&& weak_roots(s)[1].1 == RootType::AjwafYai
            &&& weak_roots(s)[1].2 == seq![s[0], '\u{064A}', s[2]]
            &&& weak_roots(s)[1].5 == 400_000
        },
        !(s.len() >= 3 && (s[1] == '\u{0627}' || s[1] == '\u{0648}' || s[1] == '\u{064A}')) ==> forall|k: int|
            0 <= k < weak_roots(s).len() ==> (#[trigger] weak_roots(s)[k]).1 != RootType::AjwafWawi
                && weak_roots(s)[k].1 != RootType::AjwafYai,
{
}

/// The defective and assimilated readings. A stem of three letters or more
/// that ends in alif, alif maqsura, ya or waw is read as a root of its first
/// two letters and a weak third radical, twice: NaqisWawi (0.4) and NaqisYai
/// (0.35), with different third radicals, waw first unless the stem ends in
/// ya. A stem that starts with waw or ya is read as an assimilated root of its
/// first three letters, typed by that letter (0.4). No other stem gets these
/// readings, and every such reading has this shape.
pub proof fn lemma_defective_assimilated_roots(s: Seq<char>)
    ensures
        forall|k: int|
            0 <= k < weak_roots(s).len() && ((#[trigger] weak_roots(s)[k]).1 == RootType::NaqisWawi
                || weak_roots(s)[k].1 == RootType::NaqisYai) ==> {
                &&& s.len() >= 3
                &&& (s.last() == '\u{0627}' || s.last() == '\u{0649}' || s.last() == '\u{064A}'
                    || s.last() == '\u{0648}')
                &&& weak_roots(s)[k].0 == weak_roots(s)[k].2
                &&& weak_roots(s)[k].2.len() == 3
                &&& weak_roots(s)[k].2[0] == s[0]
                &&& weak_roots(s)[k].2[1] == s[1]
                &&& (weak_roots(s)[k].2[2] == '\u{0648}' || weak_roots(s)[k].2[2] == '\u{064A}')
            },
        forall|k: int|
            0 <= k < weak_roots(s).len() && ((#[trigger] weak_roots(s)[k]).1 == RootType::MithalWawi
                || weak_roots(s)[k].1 == RootType::MithalYai) ==> {
                &&& s.len() >= 3
                &&& weak_roots(s)[k].0 == s.take(3)
                &&& weak_roots(s)[k].2 == s.take(3)
                &&& (weak_roots(s)[k].1 == RootType::MithalWawi <==> s[0] == '\u{0648}')
                &&& (weak_roots(s)[k].1 == RootType::MithalYai <==> s[0] == '\u{064A}')
            },
        s.len() >= 3 && (s.last() == '\u{0627}' || s.last() == '\u{0649}' || s.last() == '\u{064A}'
            || s.last() == '\u{0648}') ==> exists|k: int|
            0 <= k < weak_roots(s).len() - 1 && (#[trigger] weak_roots(s)[k]).1 == RootType::NaqisWawi
                && weak_roots(s)[k].5 == 400_000 && weak_roots(s)[k + 1].1 == RootType::NaqisYai
                && weak_roots(s)[k + 1].5 == 350_000 && weak_roots(s)[k].2[2] != weak_roots(s)[k + 1].2[2]
                && (weak_roots(s)[k].2[2] == '\u{064A}' <==> s.last() == '\u{064A}'),
        s.len() >= 3 && (s[0] == '\u{0648}' || s[0] == '\u{064A}') ==> exists|k: int|
            0 <= k < weak_roots(s).len() && ((#[trigger] weak_roots(s)[k]).1 == RootType::MithalWawi
                || weak_roots(s)[k].1 == RootType::MithalYai) && weak_roots(s)[k].2 == s.take(3)
                && weak_roots(s)[k].5 == 400_000,
{
    if s.len() >= 3 {
        let w = weak_roots(s);
        let waw = '\u{0648}';
        let ya = '\u{064A}';
        let mid = s[1];
        let nh: int = if mid == '\u{0627}' || mid == waw || mid == ya { 2 } else { 0 };
        let last = s.last();
        let nd: int = if last == '\u{0627}' || last == '\u{0649}' || last == ya || last == waw { 2 } else { 0 };
        if nd == 2 {
            assert(w[nh].1 == RootType::NaqisWawi);
            assert(w[nh + 1].1 == RootType::NaqisYai);
        }
        if s[0] == waw || s[0] == ya {
            assert(w[nh + nd].2 == s.take(3));
        }
    }
}

/// The index of the first hamza form in `s`, or its length.
pub open spec fn first_hamza(s: Seq<char>, from: int) -> int
    decreases s.len() - from,
{
    if from < 0 || from >= s.len() {
        s.len() as int
    } else if is_hamza_letter(s[from]) {
        from
    } else {
        first_hamza(s, from + 1)
    }
}

/// The hamzated root: with the first hamza form made a bare hamza, the first
/// three radicals (confidence 0.4), typed by where the hamza stands.
pub open spec fn hamzated_roots(s: Seq<char>) -> Seq<RootSpec> {
    let i = first_hamza(s, 0);
    if i < s.len() {
        let f = consonants(s.update(i, '\u{0621}'));
        if f.len() >= 3 {
            let ty = if i == 0 {
                RootType::HamzatedFirst
            } else if i == s.len() - 1 {
                RootType::HamzatedLast
            } else {
                RootType::HamzatedMiddle
            };
            seq![simple_root(f.take(3), ty, "heuristic:hamzated"@, ExtractionMethod::HamzaPattern, 400_000)]
        } else {
            Seq::empty()
        }
    } else {
        Seq::empty()
    }
}

/// The doubled root when the last two letters are equal (confidence 0.45).
pub open spec fn doubled_roots(s: Seq<char>) -> Seq<RootSpec> {
    if s.len() < 2 || s.last() != s[s.len() - 2] {
        Seq::empty()
    } else {
        let last = s.last();
        let text = if s.len() >= 3 {
            seq![s[0], last, last]
        } else {
            seq![last, last, last]
        };
        seq![(text, RootType::Doubled, seq![s[0], last, last], "heuristic:doubled"@, ExtractionMethod::GeminateSplit, 450_000)]
    }
}

/// The doubled reading: a stem whose last two letters are the same letter
/// is read as a doubled root (0.45) whose radicals are the stem's first
/// letter and that letter twice; any other stem has no doubled reading.
pub proof fn lemma_doubled_roots(s: Seq<char>)
    ensures
        s.len() >= 2 && s[s.len() - 1] == s[s.len() - 2] ==> {
            &&& doubled_roots(s).len() == 1
            &&& doubled_roots(s)[0].1 == RootType::Doubled
            &&& doubled_roots(s)[0].2 == seq![s[0], s[s.len() - 1], s[s.len() - 1]]
            &&& doubled_roots(s)[0].5 == 450_000
        },
        !(s.len() >= 2 && s[s.len() - 1] == s[s.len() - 2]) ==> doubled_roots(s).len() == 0,
{
}

/// The guessed root: the first three radicals (confidence 0.2).
pub open spec fn guessed_roots(s: Seq<char>) -> Seq<RootSpec> {
    let c = consonants(s);
    if c.len() >= 3 {
        seq![simple_root(c.take(3), RootType::Sound, "heuristic:guess"@, ExtractionMethod::Guess, 200_000)]
    } else {
        Seq::empty()
    }
}

/// `s` with `x` inserted after every element of at least its confidence.
pub open spec fn insert_root_desc(s: Seq<RootSpec>, x: RootSpec) -> Seq<RootSpec>
    decreases s.len(),
{
    if s.len() == 0 {
        seq![x]
    } else if s.last().5 >= x.5 {
        s.push(x)
    } else {
        insert_root_desc(s.drop_last(), x).push(s.last())
    }
}

/// `s` ordered by confidence, highest first, equal confidences in order.
pub open spec fn sort_roots_desc(s: Seq<RootSpec>) -> Seq<RootSpec>
    decreases s.len(),
{
    if s.len() == 0 {
        s
    } else {
        insert_root_desc(sort_roots_desc(s.drop_last()), s.last())
    }
}

/// The first `n` elements of `s` (all of them if there are fewer).
pub open spec fn cut<A>(s: Seq<A>, n: usize) -> Seq<A> {
    if s.len() > n {
        s.take(n as int)
    } else {
        s
    }
}

/// The root candidates of stem `s`: every enabled heuristic in turn, the
/// guess if enabled and nothing else applies; ordered by confidence and cut
/// to `max_root_candidates`.
pub open spec fn root_candidates(cfg: MorphologicalParserConfig, s: Seq<char>) -> Seq<RootSpec> {
    let base = triliteral_roots(s) + quadriliteral_roots(s);
    let w = if cfg.enable_weak_heuristics {
        base + weak_roots(s)
    } else {
        base
    };
    let h = if cfg.enable_hamza_heuristics {
        w + hamzated_roots(s)
    } else {
        w
    };
    let d = if cfg.enable_geminate_heuristics {
        h + doubled_roots(s)
    } else {
        h
    };
    let all = if d.len() == 0 && cfg.enable_guess {
        guessed_roots(s)
    } else {
        d
    };
    cut(sort_roots_desc(all), cfg.max_root_candidates)
}

/// The radicals of `s`.
fn consonants_of(s: &Vec<char>) -> (r: Vec<char>)
    ensures
        r@ == consonants(s@),
{
    let mut out: Vec<char> = Vec::new();
    let mut i: usize = 0;
    while i < s.len()
        invariant
            0 <= i <= s@.len(),
            out@ == consonants(s@.take(i as int)),
        decreases s@.len() - i,
    {
        proof {
            reveal_with_fuel(Seq::<char>::filter, 1);
            assert(s@.take(i + 1).drop_last() =~= s@.take(i as int));
        }
        let c = s[i];
        if is_alphabetic(c) && !weak_letter(c) {
            out.push(c);
        }
        i = i + 1;
    }
    assert(s@.take(s@.len() as int) =~= s@);
    out
}

/// A root candidate whose text is its radicals.
fn make_root(
    radicals: Vec<char>,
    ty: RootType,
    source: &str,
    method: ExtractionMethod,
    conf: u32,
) -> (r: RootCandidate)
    ensures
        root_view(r) == simple_root(radicals@, ty, source@, method, conf),
{
    RootCandidate {
        text: string_from_chars(radicals.as_slice()),
        root_type: ty,
        radicals,
        source: owned(source),
        extraction_method: method,
        confidence: conf,
    }
}

/// The first `n` characters of `v`.
fn first_chars(v: &Vec<char>, n: usize) -> (r: Vec<char>)
    requires
        n <= v@.len(),
    ensures
        r@ == v@.take(n as int),
{
    let r = crate::text::chars_range(v, 0, n);
    assert(v@.subrange(0, n as int) =~= v@.take(n as int));
    r
}

/// Three characters.
fn three(a: char, b: char, c: char) -> (r: Vec<char>)
    ensures
        r@ == seq![a, b, c],
{
    let mut v: Vec<char> = Vec::new();
    v.push(a);
    v.push(b);
    v.push(c);
    assert(v@ =~= seq![a, b, c]);
    v
}

fn push_root(out: &mut Vec<RootCandidate>, r: RootCandidate)
    ensures
        roots_view(final(out)@) == roots_view(old(out)@).push(root_view(r)),
{
    out.push(r);
    assert(roots_view(out@) =~= roots_view(old(out)@).push(root_view(r)));
}

impl MorphologicalParser {
    /// The triliteral root of `stem`, if it has three radicals.
    fn extract_triliteral(&self, stem: &Vec<char>) -> (r: Vec<RootCandidate>)
        ensures
            roots_view(r@) == triliteral_roots(stem@),
    {
        let c = consonants_of(stem);
        let mut out: Vec<RootCandidate> = Vec::new();
        if c.len() >= 3 {
            push_root(&mut out, make_root(first_chars(&c, 3), RootType::Sound, "heuristic:triliteral", ExtractionMethod::Triliteral, 500_000));
        }
        assert(roots_view(out@) =~= triliteral_roots(stem@));
        out
    }

    /// The quadriliteral root of `stem`, if it has four radicals.
    fn extract_quadriliteral(&self, stem: &Vec<char>) -> (r: Vec<RootCandidate>)
        ensures
            roots_view(r@) == quadriliteral_roots(stem@),
    {
        let c = consonants_of(stem);
        let mut out: Vec<RootCandidate> = Vec::new();
        if c.len() >= 4 {
            push_root(&mut out, make_root(first_chars(&c, 4), RootType::QuadriliteralSound, "heuristic:quadriliteral", ExtractionMethod::Quadriliteral, 400_000));
        }
        assert(roots_view(out@) =~= quadriliteral_roots(stem@));
        out
    }

    /// The weak-root readings of `stem`.
    fn handle_weak_root(&self, stem: &Vec<char>) -> (r: Vec<RootCandidate>)
        ensures
            roots_view(r@) == weak_roots(stem@),
    {
        let mut out: Vec<RootCandidate> = Vec::new();
        let n = stem.len();
        if n < 3 {
            assert(roots_view(out@) =~= weak_roots(stem@));
            return out;
        }
        let waw = '\u{0648}';
        let ya = '\u{064A}';
        let c1 = stem[0];
        let c2 = stem[2];
        let middle = stem[1];
        if middle == '\u{0627}' || middle == waw || middle == ya {
            push_root(&mut out, make_root(three(c1, waw, c2), RootType::AjwafWawi, "heuristic:hollow", ExtractionMethod::WeakRestoration, 450_000));
            push_root(&mut out, make_root(three(c1, ya, c2), RootType::AjwafYai, "heuristic:hollow", ExtractionMethod::WeakRestoration, 400_000));
        }
        let ghost after_hollow = roots_view(out@);
        let last = stem[n - 1];
        if last == '\u{0627}' || last == '\u{0649}' || last == ya || last == waw {
            let (first_weak, second_weak) = if last == ya {
                (ya, waw)
            } else {
                (waw, ya)
            };
            push_root(&mut out, make_root(three(stem[0], stem[1], first_weak), RootType::NaqisWawi, "heuristic:defective", ExtractionMethod::WeakRestoration, 400_000));
            push_root(&mut out, make_root(three(stem[0], stem[1], second_weak), RootType::NaqisYai, "heuristic:defective", ExtractionMethod::WeakRestoration, 350_000));
        }
        if c1 == waw || c1 == ya {
            let ty = if c1 == waw {
                RootType::MithalWawi
            } else {
                RootType::MithalYai
            };
            push_root(&mut out, make_root(first_chars(stem, 3), ty, "heuristic:assimilated", ExtractionMethod::WeakStripping, 400_000));
        }
        assert(roots_view(out@) =~= weak_roots(stem@));
        out
    }

    /// The hamzated root of `stem`, if it has a hamza form and three radicals.
    fn handle_hamzated_root(&self, stem: &Vec<char>) -> (r: Vec<RootCandidate>)
        ensures
            roots_view(r@) == hamzated_roots(stem@),
    {
        let mut out: Vec<RootCandidate> = Vec::new();
        let n = stem.len();
        let mut i: usize = 0;
        while i < n && !hamza_letter(stem[i])
            invariant
                n == stem@.len(),
                0 <= i <= n,
                first_hamza(stem@, i as int) == first_hamza(stem@, 0),
            decreases n - i,
        {
            i = i + 1;
        }
        if i < n {
            let mut radicals = first_chars(stem, n);
            radicals.set(i, '\u{0621}');
            assert(radicals@ =~= stem@.update(i as int, '\u{0621}'));
            let filtered = consonants_of(&radicals);
            if filtered.len() >= 3 {
                let ty = if i == 0 {
                    RootType::HamzatedFirst
                } else if i == n - 1 {
                    RootType::HamzatedLast
                } else {
                    RootType::HamzatedMiddle
                };
                push_root(&mut out, make_root(first_chars(&filtered, 3), ty, "heuristic:hamzated", ExtractionMethod::HamzaPattern, 400_000));
            }
        }
        assert(roots_view(out@) =~= hamzated_roots(stem@));
        out
    }

    /// The doubled root of `stem`, if its last two letters are equal.
    fn handle_doubled_root(&self, stem: &Vec<char>) -> (r: Vec<RootCandidate>)
        ensures
            roots_view(r@) == doubled_roots(stem@),
    {
        let mut out: Vec<RootCandidate> = Vec::new();
        let n = stem.len();
        if n < 2 {
            assert(roots_view(out@) =~= doubled_roots(stem@));
            return out;
        }
        let last = stem[n - 1];
        let second_last = stem[n - 2];
        if last == second_last {
            let text = if n >= 3 {
                three(stem[0], last, last)
            } else {
                three(last, last, last)
            };
            let r = RootCandidate {
                text: string_from_chars(text.as_slice()),
                root_type: RootType::Doubled,
                radicals: three(stem[0], last, last),
                source: owned("heuristic:doubled"),
                extraction_method: ExtractionMethod::GeminateSplit,
                confidence: 450_000,
            };
            push_root(&mut out, r);
        }
        assert(roots_view(out@) =~= doubled_roots(stem@));
        out
    }

    /// The guessed root of `stem`, if it has three radicals.
    fn guess_root(&self, stem: &Vec<char>) -> (r: Vec<RootCandidate>)
        ensures
            roots_view(r@) == guessed_roots(stem@),
    {
        let c = consonants_of(stem);
        let mut out: Vec<RootCandidate> = Vec::new();
        if c.len() >= 3 {
            push_root(&mut out, make_root(first_chars(&c, 3), RootType::Sound, "heuristic:guess", ExtractionMethod::Guess, 200_000));
        }
        assert(roots_view(out@) =~= guessed_roots(stem@));
        out
    }
}

/// Appends `b` to `a`.
fn append_roots(a: &mut Vec<RootCandidate>, b: Vec<RootCandidate>)
    ensures
        roots_view(final(a)@) == roots_view(old(a)@) + roots_view(b@),
{
    let mut b = b;
    let ghost av = a@;
    let ghost bv = b@;
    a.append(&mut b);
    assert(roots_view(a@) =~= roots_view(av) + roots_view(bv));
}

/// Inserts `x` into `v` after every element of at least its confidence.
fn insert_root(v: &mut Vec<RootCandidate>, x: RootCandidate)
    ensures
        roots_view(final(v)@) == insert_root_desc(roots_view(old(v)@), root_view(x)),
    decreases old(v)@.len(),
{
    let n = v.len();
    if n == 0 {
        push_root(v, x);
        return;
    }
    if v[n - 1].confidence >= x.confidence {
        push_root(v, x);
        return;
    }
    let ghost before = v@;
    match v.pop() {
        Some(last) => {
            assert(roots_view(v@) =~= roots_view(before).drop_last());
            insert_root(v, x);
            push_root(v, last);
        },
        None => {},
    }
}

/// `v` ordered by confidence, highest first, equal confidences in order.
fn sort_roots(v: Vec<RootCandidate>) -> (r: Vec<RootCandidate>)
    ensures
        roots_view(r@) == sort_roots_desc(roots_view(v@)),
{
    let ghost all = v@;
    let mut out: Vec<RootCandidate> = Vec::new();
    assert(roots_view(all).take(0) =~= Seq::<RootSpec>::empty());
    assert(roots_view(out@) =~= Seq::<RootSpec>::empty());
    for x in it: v.into_iter()
        invariant
            it.seq() == all,
            roots_view(out@) == sort_roots_desc(roots_view(all).take(it.index() as int)),
    {
        let ghost idx: int = it.index() as int;
        proof {
            assert(roots_view(all).take(idx + 1).drop_last() =~= roots_view(all).take(idx));
            assert(roots_view(all).take(idx + 1).last() == root_view(x));
        }
        insert_root(&mut out, x);
    }
    assert(roots_view(all).take(all.len() as int) =~= roots_view(all));
    out
}

impl MorphologicalParser {
    /// The root candidates of `stem`: every enabled heuristic in turn, the
    /// guess if enabled and nothing else applies; ordered by confidence and
    /// cut to `max_root_candidates`.
    fn extract_roots(&self, stem: &Vec<char>) -> (r: Vec<RootCandidate>)
        ensures
            roots_view(r@) == root_candidates(self.config, stem@),
    {
        let mut roots = self.extract_triliteral(stem);
        append_roots(&mut roots, self.extract_quadriliteral(stem));
        if self.config.enable_weak_heuristics {
            append_roots(&mut roots, self.handle_weak_root(stem));
        }
        if self.config.enable_hamza_heuristics {
            append_roots(&mut roots, self.handle_hamzated_root(stem));
        }
        if self.config.enable_geminate_heuristics {
            append_roots(&mut roots, self.handle_doubled_root(stem));
        }
        if roots.len() == 0 && self.config.enable_guess {
            append_roots(&mut roots, self.guess_root(stem));
            assert(roots_view(roots@) =~= guessed_roots(stem@));
        }
        let mut sorted = sort_roots(roots);
        let ghost full = roots_view(sorted@);
        if sorted.len() > self.config.max_root_candidates {
            sorted.truncate(self.config.max_root_candidates);
            assert(roots_view(sorted@) =~= full.take(self.config.max_root_candidates as int));
        }
        sorted
    }
}

// Knowledge-base lookups.

/// Whether `stem` is known as a noun: by its KB-0004 override (noun or
/// adjective) if it has one, else by the built-in list.
pub open spec fn known_noun_stem(kb: Option<Kb0004>, stem: Seq<char>) -> bool {
    match kb {
        Some(k) => match entry_for_stem(k.stems(), stem) {
            Some(e) => e.pos == PartOfSpeech::Noun || e.pos == PartOfSpeech::Adjective,
            None => common_nouns_3l().contains(stem),
        },
        None => common_nouns_3l().contains(stem),
    }
}

/// Whether `stem` is known as a verb: by its KB-0004 override if it has one,
/// else by the built-in list.
pub open spec fn known_verb_stem(kb: Option<Kb0004>, stem: Seq<char>) -> bool {
    match kb {
        Some(k) => match entry_for_stem(k.stems(), stem) {
            Some(e) => e.pos == PartOfSpeech::Verb,
            None => common_verbs_3l().contains(stem),
        },
        None => common_verbs_3l().contains(stem),
    }
}

/// The confidence of verb form `form`: from KB-0004 if it profiles the form
/// (the boosted value when `boosted`), else `fallback`.
pub open spec fn verb_form_conf(kb: Option<Kb0004>, form: u8, boosted: bool, fallback: u32) -> u32 {
    match kb {
        Some(k) => {
            let ps = profiles_for_form(k.verbs(), form);
            if ps.len() > 0 {
                if boosted {
                    boosted_confidence(ps)
                } else {
                    max_default_confidence(ps)
                }
            } else {
                fallback
            }
        },
        None => fallback,
    }
}

/// The confidence of noun pattern `pattern`: from its KB-0004 profile if
/// there is one, else `fallback`.
pub open spec fn noun_pattern_conf(kb: Option<Kb0004>, pattern: Seq<char>, fallback: u32) -> u32 {
    match kb {
        Some(k) => match profile_for_pattern(k.nouns(), pattern) {
            Some(p) => p.default_confidence,
            None => fallback,
        },
        None => fallback,
    }
}

/// Whether KB-0004 profiles noun pattern `pattern` as an adjective.
pub open spec fn noun_pattern_adjective(kb: Option<Kb0004>, pattern: Seq<char>) -> bool {
    match kb {
        Some(k) => match profile_for_pattern(k.nouns(), pattern) {
            Some(p) => p.default_pos == PartOfSpeech::Adjective,
            None => false,
        },
        None => false,
    }
}

impl MorphologicalParser {
    /// Whether `stem` is known as a noun (KB-0004 first, then the built-in list).
    fn is_known_noun_stem(&self, stem: &Vec<char>, nouns: &Vec<Vec<char>>) -> (r: bool)
        requires
            table_view(nouns@) == common_nouns_3l(),
        ensures
            r == known_noun_stem(self.kb, stem@),
    {
        match &self.kb {
            Some(kb) => {
                match kb.stem_pos_override(stem) {
                    Some(e) => {
                        return e.pos == PartOfSpeech::Noun || e.pos == PartOfSpeech::Adjective;
                    },
                    None => {},
                }
            },
            None => {},
        }
        in_table(nouns, stem)
    }

    /// Whether `stem` is known as a verb (KB-0004 first, then the built-in list).
    fn is_known_verb_stem(&self, stem: &Vec<char>, verbs: &Vec<Vec<char>>) -> (r: bool)
        requires
            table_view(verbs@) == common_verbs_3l(),
        ensures
            r == known_verb_stem(self.kb, stem@),
    {
        match &self.kb {
            Some(kb) => {
                match kb.stem_pos_override(stem) {
                    Some(e) => {
                        return e.pos == PartOfSpeech::Verb;
                    },
                    None => {},
                }
            },
            None => {},
        }
        in_table(verbs, stem)
    }

    /// The confidence of verb form `form` (KB-0004 if it profiles the form, else `fallback`).
    fn verb_form_confidence(&self, form: u8, is_boosted: bool, fallback: u32) -> (r: u32)
        ensures
            r == verb_form_conf(self.kb, form, is_boosted, fallback),
    {
        match &self.kb {
            Some(kb) => {
                if kb.has_verb_profiles(form) {
                    if is_boosted {
                        return kb.verb_boosted_confidence(form);
                    }
                    return kb.verb_confidence(form);
                }
            },
            None => {},
        }
        fallback
    }

    /// The confidence of noun pattern `pattern` (its KB-0004 profile, else `fallback`).
    fn noun_pattern_confidence(&self, pattern: &str, fallback: u32) -> (r: u32)
        ensures
            r == noun_pattern_conf(self.kb, pattern@, fallback),
    {
        match &self.kb {
            Some(kb) => {
                match kb.noun_profile(&chars_of(pattern)) {
                    Some(p) => {
                        return p.default_confidence;
                    },
                    None => {},
                }
            },
            None => {},
        }
        fallback
    }

    /// Whether KB-0004 profiles noun pattern `pattern` as an adjective.
    fn noun_pattern_is_adjective(&self, pattern: &Vec<char>) -> (r: bool)
        ensures
            r == noun_pattern_adjective(self.kb, pattern@),
    {
        match &self.kb {
            Some(kb) => {
                match kb.noun_profile(pattern) {
                    Some(p) => p.default_pos == PartOfSpeech::Adjective,
                    None => false,
                }
            },
            None => false,
        }
    }
}

// Pattern (wazan) identification.

/// A pattern candidate as values: text, verb form, category, source and
/// confidence (millionths).
pub type WazanSpec = (Seq<char>, Option<u8>, WazanCategory, Seq<char>, u32);

/// The values of a pattern candidate.
pub open spec fn wazan_view(w: WazanCandidate) -> WazanSpec {
    (w.text@, w.form, w.category, w.source@, w.confidence)
}

/// The values of a list of pattern candidates.
pub open spec fn wazans_view(v: Seq<WazanCandidate>) -> Seq<WazanSpec> {
    v.map_values(|w: WazanCandidate| wazan_view(w))
}

/// The confidence with which stem `s` (root `root`) matches verb form `form`,
/// 0 if it cannot be that form. A stem ending like a noun (ta marbuta, or
/// the plural endings -at, -un, -in) or a known three-letter noun is no verb.
pub open spec fn verb_form_score(
    kb: Option<Kb0004>,
    s: Seq<char>,
    root: RootSpec,
    form: u8,
) -> u32 {
    let n = s.len();
    let alif = '\u{0627}';
    let ta = '\u{062A}';
    if ends_with_char(s, '\u{0629}') || ends_with_seq(s, "\u{0627}\u{062A}"@) || ends_with_seq(
        s,
        "\u{0648}\u{0646}"@,
    ) || ends_with_seq(s, "\u{064A}\u{0646}"@) {
        0
    } else if n == 3 && known_noun_stem(kb, s) {
        0
    } else if form == 1 {
        if n == 3 && known_verb_stem(kb, s) {
            verb_form_conf(kb, 1, true, 350_000)
        } else if n == 3 {
            verb_form_conf(kb, 1, false, 300_000)
        } else if n == 4 && (starts_with_char(s, '\u{064A}') || starts_with_char(s, ta)
            || starts_with_char(s, '\u{0623}') || starts_with_char(s, '\u{0646}')) {
            verb_form_conf(kb, 1, false, 250_000)
        } else if n == 4 && starts_with_char(s, alif) {
            verb_form_conf(kb, 1, false, 200_000)
        } else {
            0
        }
    } else if form == 2 {
        if n >= 3 && root.1 == RootType::Doubled {
            verb_form_conf(kb, 2, false, 350_000)
        } else if 3 <= n <= 4 && s[1] == s[2] {
            verb_form_conf(kb, 2, false, 200_000)
        } else if n == 3 && is_weak_letter(s[1]) {
            verb_form_conf(kb, 2, false, 150_000)
        } else {
            0
        }
    } else if form == 3 {
        if n >= 4 && s[1] == alif {
            verb_form_conf(kb, 3, false, 200_000)
        } else {
            0
        }
    } else if form == 4 {
        if n >= 4 && (starts_with_char(s, '\u{0623}') || starts_with_char(s, '\u{0625}')) {
            verb_form_conf(kb, 4, false, 200_000)
        } else {
            0
        }
    } else if form == 5 {
        if n >= 4 && starts_with_char(s, ta) {
            verb_form_conf(kb, 5, false, 200_000)
        } else {
            0
        }
    } else if form == 6 {
        if n >= 5 && starts_with_char(s, ta) && s[2] == alif {
            verb_form_conf(kb, 6, false, 150_000)
        } else {
            0
        }
    } else if form == 7 {
        if n >= 5 && starts_with_char(s, alif) {
            verb_form_conf(kb, 7, false, 150_000)
        } else {
            0
        }
    } else if form == 8 {
        if n >= 5 && s[2] == ta {
            verb_form_conf(kb, 8, false, 200_000)
        } else {
            0
        }
    } else if form == 9 {
        if n >= 4 && s.last() == s[n - 2] {
            verb_form_conf(kb, 9, false, 100_000)
        } else {
            0
        }
    } else if form == 10 {
        if n >= 6 && starts_with_char(s, alif) {
            verb_form_conf(kb, 10, false, 100_000)
        } else {
            0
        }
    } else if 11 <= form <= 15 {
        if n >= 5 {
            verb_form_conf(kb, form, false, 50_000)
        } else {
            0
        }
    } else {
        0
    }
}

/// The order in which verb forms are tried: Andalusian grammar puts form IV
/// before III and VIII before VII.
pub open spec fn form_order(school: GrammarSchool) -> Seq<u8> {
    if school == GrammarSchool::Andalus {
        seq![1u8, 2, 4, 3, 5, 6, 8, 7, 9, 10]
    } else {
        seq![1u8, 2, 3, 4, 5, 6, 7, 8, 9, 10]
    }
}

/// The canonical pattern of verb form `form`.
pub open spec fn verb_pattern(form: u8) -> Seq<char> {
    if form == 1 {
        "\u{0641}\u{064E}\u{0639}\u{064E}\u{0644}\u{064E}"@
    } else if form == 2 {
        "\u{0641}\u{064E}\u{0639}\u{064E}\u{0651}\u{0644}\u{064E}"@
    } else if form == 3 {
        "\u{0641}\u{064E}\u{0627}\u{0639}\u{064E}\u{0644}\u{064E}"@
    } else if form == 4 {
        "\u{0623}\u{064E}\u{0641}\u{0652}\u{0639}\u{064E}\u{0644}\u{064E}"@
    } else if form == 5 {
        "\u{062A}\u{064E}\u{0641}\u{064E}\u{0639}\u{064E}\u{0651}\u{0644}\u{064E}"@
    } else if form == 6 {
        "\u{062A}\u{064E}\u{0641}\u{064E}\u{0627}\u{0639}\u{064E}\u{0644}\u{064E}"@
    } else if form == 7 {
        "\u{0627}\u{0650}\u{0646}\u{0652}\u{0641}\u{064E}\u{0639}\u{064E}\u{0644}\u{064E}"@
    } else if form == 8 {
        "\u{0627}\u{0650}\u{0641}\u{0652}\u{062A}\u{064E}\u{0639}\u{064E}\u{0644}\u{064E}"@
    } else if form == 9 {
        "\u{0627}\u{0650}\u{0641}\u{0652}\u{0639}\u{064E}\u{0644}\u{064E}\u{0651}"@
    } else {
        "\u{0627}\u{0650}\u{0633}\u{0652}\u{062A}\u{064E}\u{0641}\u{0652}\u{0639}\u{064E}\u{0644}\u{064E}"@
    }
}

/// The category of verb form `form` (1 to 10).
pub open spec fn verb_category(form: u8) -> WazanCategory {
    if form == 1 {
        WazanCategory::VerbFormI
    } else if form == 2 {
        WazanCategory::VerbFormII
    } else if form == 3 {
        WazanCategory::VerbFormIII
    } else if form == 4 {
        WazanCategory::VerbFormIV
    } else if form == 5 {
        WazanCategory::VerbFormV
    } else if form == 6 {
        WazanCategory::VerbFormVI
    } else if form == 7 {
        WazanCategory::VerbFormVII
    } else if form == 8 {
        WazanCategory::VerbFormVIII
    } else if form == 9 {
        WazanCategory::VerbFormIX
    } else {
        WazanCategory::VerbFormX
    }
}

/// The source of a verb-form candidate.
pub open spec fn verb_source(kb: Option<Kb0004>, form: u8) -> Seq<char> {
    if kb is Some {
        "kb0004:verb_form:"@ + decimal(form as nat)
    } else {
        "heuristic:verb_form"@
    }
}

/// The verb-form candidates of `s` for the forms of `forms`, in order: those
/// with a positive confidence.
pub open spec fn verb_candidates(kb: Option<Kb0004>, s: Seq<char>, root: RootSpec, forms: Seq<u8>) -> Seq<WazanSpec>
    decreases forms.len(),
{
    if forms.len() == 0 {
        Seq::empty()
    } else {
        let before = verb_candidates(kb, s, root, forms.drop_last());
        let f = forms.last();
        let c = verb_form_score(kb, s, root, f);
        if c > 0 {
            before.push((verb_pattern(f), Some(f), verb_category(f), verb_source(kb, f), c))
        } else {
            before
        }
    }
}

/// The source of a noun-pattern candidate.
pub open spec fn noun_source(kb: Option<Kb0004>, pattern: Seq<char>) -> Seq<char> {
    if kb is Some {
        "kb0004:noun_pattern:"@ + pattern
    } else {
        "heuristic:noun_pattern"@
    }
}

/// A noun-pattern candidate.
pub open spec fn noun_candidate(kb: Option<Kb0004>, pattern: Seq<char>, cat: WazanCategory, fallback: u32) -> WazanSpec {
    (pattern, None, cat, noun_source(kb, pattern), noun_pattern_conf(kb, pattern, fallback))
}

/// The noun patterns of the stem `s`: active participle, passive participle
/// and verbal noun always; broken plural with a plural ending; place noun for
/// a stem starting with mim (of four bytes or more); a feminine pattern for
/// a final ta marbuta, or else for an alif followed by hamza.
pub open spec fn noun_candidates(kb: Option<Kb0004>, s: Seq<char>) -> Seq<WazanSpec> {
    let fail = "\u{0641}\u{064E}\u{0627}\u{0639}\u{0650}\u{0644}"@;
    let maful = "\u{0645}\u{064E}\u{0641}\u{0652}\u{0639}\u{064F}\u{0648}\u{0644}"@;
    let masdar = "\u{0645}\u{064E}\u{0635}\u{0652}\u{062F}\u{064E}\u{0631}"@;
    let jam = "\u{062C}\u{064E}\u{0645}\u{0652}\u{0639}"@;
    let maf_al = "\u{0645}\u{064E}\u{0641}\u{0652}\u{0639}\u{064E}\u{0644}"@;
    let fa_la = "\u{0641}\u{064E}\u{0639}\u{0652}\u{0644}\u{064E}\u{0629}"@;
    let fa_la_ = "\u{0641}\u{064E}\u{0639}\u{0652}\u{0644}\u{064E}\u{0627}\u{0621}"@;
    let plural = ends_with_seq(s, "\u{0648}\u{0646}"@) || ends_with_seq(s, "\u{064A}\u{0646}"@)
        || ends_with_seq(s, "\u{0627}\u{062A}"@) || ends_with_seq(s, "\u{0627}\u{0646}"@);
    let base = seq![
        noun_candidate(kb, fail, WazanCategory::NounIsmFail, if s.len() >= 4 { 200_000 } else { 100_000 }),
        noun_candidate(kb, maful, WazanCategory::NounIsmMaful, 150_000),
        noun_candidate(kb, masdar, WazanCategory::NounMasdar, if s.len() == 3 { 250_000 } else { 150_000 }),
    ];
    let with_plural = if plural {
        base.push(noun_candidate(kb, jam, WazanCategory::NounBrokenPlural, 250_000))
    } else {
        base
    };
    let with_place = if starts_with_char(s, '\u{0645}') && byte_len(s) >= 4 {
        with_plural.push(noun_candidate(kb, maf_al, WazanCategory::NounIsmMakan, 150_000))
    } else {
        with_plural
    };
    if ends_with_char(s, '\u{0629}') {
        with_place.push(noun_candidate(kb, fa_la, WazanCategory::NounOther, 300_000))
    } else if contains_seq(s, "\u{0627}\u{0621}"@) {
        with_place.push(noun_candidate(kb, fa_la_, WazanCategory::NounOther, 300_000))
    } else {
        with_place
    }
}

/// `s` with `x` inserted after every element of at least its confidence.
pub open spec fn insert_wazan_desc(s: Seq<WazanSpec>, x: WazanSpec) -> Seq<WazanSpec>
    decreases s.len(),
{
    if s.len() == 0 {
        seq![x]
    } else if s.last().4 >= x.4 {
        s.push(x)
    } else {
        insert_wazan_desc(s.drop_last(), x).push(s.last())
    }
}

/// `s` ordered by confidence, highest first, equal confidences in order.
pub open spec fn sort_wazans_desc(s: Seq<WazanSpec>) -> Seq<WazanSpec>
    decreases s.len(),
{
    if s.len() == 0 {
        s
    } else {
        insert_wazan_desc(sort_wazans_desc(s.drop_last()), s.last())
    }
}

/// The pattern candidates of stem `s` with root `root`: the verb forms, then
/// the noun patterns; ordered by confidence and cut to `max_wazan_candidates`.
pub open spec fn wazan_candidates(
    cfg: MorphologicalParserConfig,
    kb: Option<Kb0004>,
    s: Seq<char>,
    root: RootSpec,
) -> Seq<WazanSpec> {
    cut(
        sort_wazans_desc(verb_candidates(kb, s, root, form_order(cfg.school)) + noun_candidates(kb, s)),
        cfg.max_wazan_candidates,
    )
}

/// The built-in word lists, held as characters.
struct Lexicon {
    particles: Vec<Vec<char>>,
    pronouns: Vec<Vec<char>>,
    nouns: Vec<Vec<char>>,
    verbs: Vec<Vec<char>>,
}

spec fn lexicon_ok(lx: Lexicon) -> bool {
    &&& table_view(lx.particles@) == common_particles()
    &&& table_view(lx.pronouns@) == common_pronouns()
    &&& table_view(lx.nouns@) == common_nouns_3l()
    &&& table_view(lx.verbs@) == common_verbs_3l()
}

fn lexicon() -> (r: Lexicon)
    ensures
        lexicon_ok(r),
{
    Lexicon {
        particles: particle_table(),
        pronouns: pronoun_table(),
        nouns: noun_stem_table(),
        verbs: verb_stem_table(),
    }
}

fn verb_pattern_str(form: u8) -> (r: &'static str)
    ensures
        r@ == verb_pattern(form),
{
    if form == 1 {
        "\u{0641}\u{064E}\u{0639}\u{064E}\u{0644}\u{064E}"
    } else if form == 2 {
        "\u{0641}\u{064E}\u{0639}\u{064E}\u{0651}\u{0644}\u{064E}"
    } else if form == 3 {
        "\u{0641}\u{064E}\u{0627}\u{0639}\u{064E}\u{0644}\u{064E}"
    } else if form == 4 {
        "\u{0623}\u{064E}\u{0641}\u{0652}\u{0639}\u{064E}\u{0644}\u{064E}"
    } else if form == 5 {
        "\u{062A}\u{064E}\u{0641}\u{064E}\u{0639}\u{064E}\u{0651}\u{0644}\u{064E}"
    } else if form == 6 {
        "\u{062A}\u{064E}\u{0641}\u{064E}\u{0627}\u{0639}\u{064E}\u{0644}\u{064E}"
    } else if form == 7 {
        "\u{0627}\u{0650}\u{0646}\u{0652}\u{0641}\u{064E}\u{0639}\u{064E}\u{0644}\u{064E}"
    } else if form == 8 {
        "\u{0627}\u{0650}\u{0641}\u{0652}\u{062A}\u{064E}\u{0639}\u{064E}\u{0644}\u{064E}"
    } else if form == 9 {
        "\u{0627}\u{0650}\u{0641}\u{0652}\u{0639}\u{064E}\u{0644}\u{064E}\u{0651}"
    } else {
        "\u{0627}\u{0650}\u{0633}\u{0652}\u{062A}\u{064E}\u{0641}\u{0652}\u{0639}\u{064E}\u{0644}\u{064E}"
    }
}

fn verb_category_of(form: u8) -> (r: WazanCategory)
    ensures
        r == verb_category(form),
{
    if form == 1 {
        WazanCategory::VerbFormI
    } else if form == 2 {
        WazanCategory::VerbFormII
    } else if form == 3 {
        WazanCategory::VerbFormIII
    } else if form == 4 {
        WazanCategory::VerbFormIV
    } else if form == 5 {
        WazanCategory::VerbFormV
    } else if form == 6 {
        WazanCategory::VerbFormVI
    } else if form == 7 {
        WazanCategory::VerbFormVII
    } else if form == 8 {
        WazanCategory::VerbFormVIII
    } else if form == 9 {
        WazanCategory::VerbFormIX
    } else {
        WazanCategory::VerbFormX
    }
}

fn push_wazan(out: &mut Vec<WazanCandidate>, w: WazanCandidate)
    ensures
        wazans_view(final(out)@) == wazans_view(old(out)@).push(wazan_view(w)),
{
    out.push(w);
    assert(wazans_view(out@) =~= wazans_view(old(out)@).push(wazan_view(w)));
}

impl MorphologicalParser {
    /// The confidence with which `stem` (root `root`) matches verb form `form`.
    fn check_verb_form(&self, stem: &Vec<char>, root: &RootCandidate, form: u8, lx: &Lexicon) -> (r: u32)
        requires
            lexicon_ok(*lx),
        ensures
            r == verb_form_score(self.kb, stem@, root_view(*root), form),
    {
        let n = stem.len();
        let alif = '\u{0627}';
        let ta = '\u{062A}';
        if last_is(stem, '\u{0629}') || ends_with_lit(stem, "\u{0627}\u{062A}") || ends_with_lit(
            stem,
            "\u{0648}\u{0646}",
        ) || ends_with_lit(stem, "\u{064A}\u{0646}") {
            return 0;
        }
        if n == 3 && self.is_known_noun_stem(stem, &lx.nouns) {
            return 0;
        }
        if form == 1 {
            if n == 3 && self.is_known_verb_stem(stem, &lx.verbs) {
                self.verb_form_confidence(1, true, 350_000)
            } else if n == 3 {
                self.verb_form_confidence(1, false, 300_000)
            } else if n == 4 && (first_is(stem, '\u{064A}') || first_is(stem, ta) || first_is(
                stem,
                '\u{0623}',
            ) || first_is(stem, '\u{0646}')) {
                self.verb_form_confidence(1, false, 250_000)
            } else if n == 4 && first_is(stem, alif) {
                self.verb_form_confidence(1, false, 200_000)
            } else {
                0
            }
        } else if form == 2 {
            if n >= 3 && root.root_type == RootType::Doubled {
                self.verb_form_confidence(2, false, 350_000)
            } else if 3 <= n && n <= 4 && stem[1] == stem[2] {
                self.verb_form_confidence(2, false, 200_000)
            } else if n == 3 && weak_letter(stem[1]) {
                self.verb_form_confidence(2, false, 150_000)
            } else {
                0
            }
        } else if form == 3 {
            if n >= 4 && stem[1] == alif {
                self.verb_form_confidence(3, false, 200_000)
            } else {
                0
            }
        } else if form == 4 {
            if n >= 4 && (first_is(stem, '\u{0623}') || first_is(stem, '\u{0625}')) {
                self.verb_form_confidence(4, false, 200_000)
            } else {
                0
            }
        } else if form == 5 {
            if n >= 4 && first_is(stem, ta) {
                self.verb_form_confidence(5, false, 200_000)
            } else {
                0
            }
        } else if form == 6 {
            if n >= 5 && first_is(stem, ta) && stem[2] == alif {
                self.verb_form_confidence(6, false, 150_000)
            } else {
                0
            }
        } else if form == 7 {
            if n >= 5 && first_is(stem, alif) {
                self.verb_form_confidence(7, false, 150_000)
            } else {
                0
            }
        } else if form == 8 {
            if n >= 5 && stem[2] == ta {
                self.verb_form_confidence(8, false, 200_000)
            } else {
                0
            }
        } else if form == 9 {
            if n >= 4 && stem[n - 1] == stem[n - 2] {
                self.verb_form_confidence(9, false, 100_000)
            } else {
                0
            }
        } else if form == 10 {
            if n >= 6 && first_is(stem, alif) {
                self.verb_form_confidence(10, false, 100_000)
            } else {
                0
            }
        } else if 11 <= form && form <= 15 {
            if n >= 5 {
                self.verb_form_confidence(form, false, 50_000)
            } else {
                0
            }
        } else {
            0
        }
    }

    /// Appends the verb-form candidates of `stem`, in the school's form order.
    fn match_verb_forms(
        &self,
        stem: &Vec<char>,
        root: &RootCandidate,
        candidates: &mut Vec<WazanCandidate>,
        lx: &Lexicon,
    )
        requires
            lexicon_ok(*lx),
        ensures
            wazans_view(final(candidates)@) == wazans_view(old(candidates)@) + verb_candidates(
                self.kb,
                stem@,
                root_view(*root),
                form_order(self.config.school),
            ),
    {
        let mut forms: Vec<u8> = Vec::new();
        if self.config.school == GrammarSchool::Andalus {
            forms.push(1);
            forms.push(2);
            forms.push(4);
            forms.push(3);
            forms.push(5);
            forms.push(6);
            forms.push(8);
            forms.push(7);
            forms.push(9);
            forms.push(10);
        } else {
            let mut f: u8 = 1;
            while f <= 10
                invariant
                    1 <= f <= 11,
                    forms@.len() == f - 1,
                    forall|j: int| 0 <= j < forms@.len() ==> forms@[j] == j + 1,
                decreases 11 - f,
            {
                forms.push(f);
                f = f + 1;
            }
        }
        assert(forms@ =~= form_order(self.config.school));
        let ghost fv = forms@;
        let ghost start = wazans_view(candidates@);
        let ghost rv = root_view(*root);
        let mut i: usize = 0;
        assert(fv.take(0) =~= Seq::<u8>::empty());
        assert(start + verb_candidates(self.kb, stem@, rv, fv.take(0)) =~= start);
        while i < forms.len()
            invariant
                fv == forms@,
                lexicon_ok(*lx),
                rv == root_view(*root),
                0 <= i <= fv.len(),
                wazans_view(candidates@) == start + verb_candidates(self.kb, stem@, rv, fv.take(i as int)),
            decreases fv.len() - i,
        {
            let form = forms[i];
            proof {
                assert(fv.take(i + 1).drop_last() =~= fv.take(i as int));
                assert(fv.take(i + 1).last() == form);
            }
            let confidence = self.check_verb_form(stem, root, form, lx);
            if confidence > 0 {
                let source = match &self.kb {
                    Some(_) => {
                        let mut v: Vec<char> = Vec::new();
                        append_str(&mut v, "kb0004:verb_form:");
                        push_decimal(&mut v, form as u64);
                        string_from_chars(v.as_slice())
                    },
                    None => owned("heuristic:verb_form"),
                };
                let w = WazanCandidate {
                    text: owned(verb_pattern_str(form)),
                    form: Some(form),
                    category: verb_category_of(form),
                    source,
                    confidence,
                };
                let ghost before = wazans_view(candidates@);
                push_wazan(candidates, w);
                assert(wazans_view(candidates@) =~= start + verb_candidates(self.kb, stem@, rv, fv.take(i + 1)));
            }
            i = i + 1;
        }
        assert(fv.take(fv.len() as int) =~= fv);
    }

    /// The noun-pattern candidate for `pattern`, with its confidence.
    fn noun_wazan(&self, pattern: &str, category: WazanCategory, fallback: u32) -> (r: WazanCandidate)
        ensures
            wazan_view(r) == noun_candidate(self.kb, pattern@, category, fallback),
    {
        let confidence = self.noun_pattern_confidence(pattern, fallback);
        let source = match &self.kb {
            Some(_) => {
                let mut v: Vec<char> = Vec::new();
                append_str(&mut v, "kb0004:noun_pattern:");
                append_str(&mut v, pattern);
                string_from_chars(v.as_slice())
            },
            None => owned("heuristic:noun_pattern"),
        };
        WazanCandidate { text: owned(pattern), form: None, category, source, confidence }
    }

    /// Appends the noun-pattern candidates of `stem`.
    fn match_noun_patterns(&self, stem: &Vec<char>, candidates: &mut Vec<WazanCandidate>)
        ensures
            wazans_view(final(candidates)@) == wazans_view(old(candidates)@) + noun_candidates(self.kb, stem@),
    {
        let ghost start = wazans_view(candidates@);
        let has_ta_marbuta = last_is(stem, '\u{0629}');
        let has_alif_mamduda = contains_lit(stem, "\u{0627}\u{0621}");
        let has_plural_suffix = ends_with_lit(stem, "\u{0648}\u{0646}") || ends_with_lit(
            stem,
            "\u{064A}\u{0646}",
        ) || ends_with_lit(stem, "\u{0627}\u{062A}") || ends_with_lit(stem, "\u{0627}\u{0646}");
        let n = stem.len();
        let mut added: Vec<WazanCandidate> = Vec::new();
        push_wazan(&mut added, self.noun_wazan("\u{0641}\u{064E}\u{0627}\u{0639}\u{0650}\u{0644}", WazanCategory::NounIsmFail, if n >= 4 { 200_000 } else { 100_000 }));
        push_wazan(&mut added, self.noun_wazan("\u{0645}\u{064E}\u{0641}\u{0652}\u{0639}\u{064F}\u{0648}\u{0644}", WazanCategory::NounIsmMaful, 150_000));
        push_wazan(&mut added, self.noun_wazan("\u{0645}\u{064E}\u{0635}\u{0652}\u{062F}\u{064E}\u{0631}", WazanCategory::NounMasdar, if n == 3 { 250_000 } else { 150_000 }));
        if has_plural_suffix {
            push_wazan(&mut added, self.noun_wazan("\u{062C}\u{064E}\u{0645}\u{0652}\u{0639}", WazanCategory::NounBrokenPlural, 250_000));
        }
        if first_is(stem, '\u{0645}') && crate::text::chars_byte_len(stem) >= 4 {
            push_wazan(&mut added, self.noun_wazan("\u{0645}\u{064E}\u{0641}\u{0652}\u{0639}\u{064E}\u{0644}", WazanCategory::NounIsmMakan, 150_000));
        }
        if has_ta_marbuta {
            push_wazan(&mut added, self.noun_wazan("\u{0641}\u{064E}\u{0639}\u{0652}\u{0644}\u{064E}\u{0629}", WazanCategory::NounOther, 300_000));
        } else if has_alif_mamduda {
            push_wazan(&mut added, self.noun_wazan("\u{0641}\u{064E}\u{0639}\u{0652}\u{0644}\u{064E}\u{0627}\u{0621}", WazanCategory::NounOther, 300_000));
        }
        assert(wazans_view(added@) =~= noun_candidates(self.kb, stem@));
        let ghost av = wazans_view(added@);
        candidates.append(&mut added);
        assert(wazans_view(candidates@) =~= start + av);
    }
}

/// Inserts `x` into `v` after every element of at least its confidence.
fn insert_wazan(v: &mut Vec<WazanCandidate>, x: WazanCandidate)
    ensures
        wazans_view(final(v)@) == insert_wazan_desc(wazans_view(old(v)@), wazan_view(x)),
    decreases old(v)@.len(),
{
    let n = v.len();
    if n == 0 {
        push_wazan(v, x);
        return;
    }
    if v[n - 1].confidence >= x.confidence {
        push_wazan(v, x);
        return;
    }
    let ghost before = v@;
    match v.pop() {
        Some(last) => {
            assert(wazans_view(v@) =~= wazans_view(before).drop_last());
            insert_wazan(v, x);
            push_wazan(v, last);
        },
        None => {},
    }
}

/// `v` ordered by confidence, highest first, equal confidences in order.
fn sort_wazans(v: Vec<WazanCandidate>) -> (r: Vec<WazanCandidate>)
    ensures
        wazans_view(r@) == sort_wazans_desc(wazans_view(v@)),
{
    let ghost all = v@;
    let mut out: Vec<WazanCandidate> = Vec::new();
    assert(wazans_view(all).take(0) =~= Seq::<WazanSpec>::empty());
    assert(wazans_view(out@) =~= Seq::<WazanSpec>::empty());
    for x in it: v.into_iter()
        invariant
            it.seq() == all,
            wazans_view(out@) == sort_wazans_desc(wazans_view(all).take(it.index() as int)),
    {
        let ghost idx: int = it.index() as int;
        proof {
            assert(wazans_view(all).take(idx + 1).drop_last() =~= wazans_view(all).take(idx));
            assert(wazans_view(all).take(idx + 1).last() == wazan_view(x));
        }
        insert_wazan(&mut out, x);
    }
    assert(wazans_view(all).take(all.len() as int) =~= wazans_view(all));
    out
}

impl MorphologicalParser {
    /// The pattern candidates of `stem` with root `root`: verb forms, then
    /// noun patterns; ordered by confidence and cut to `max_wazan_candidates`.
    fn identify_wazan(&self, stem: &Vec<char>, root: &RootCandidate, lx: &Lexicon) -> (r: Vec<WazanCandidate>)
        requires
            lexicon_ok(*lx),
        ensures
            wazans_view(r@) == wazan_candidates(self.config, self.kb, stem@, root_view(*root)),
    {
        let mut candidates: Vec<WazanCandidate> = Vec::new();
        assert(wazans_view(candidates@) =~= Seq::<WazanSpec>::empty());
        self.match_verb_forms(stem, root, &mut candidates, lx);
        self.match_noun_patterns(stem, &mut candidates);
        assert(wazans_view(candidates@) =~= verb_candidates(self.kb, stem@, root_view(*root), form_order(self.config.school)) + noun_candidates(self.kb, stem@));
        let mut sorted = sort_wazans(candidates);
        let ghost full = wazans_view(sorted@);
        if sorted.len() > self.config.max_wazan_candidates {
            sorted.truncate(self.config.max_wazan_candidates);
            assert(wazans_view(sorted@) =~= full.take(self.config.max_wazan_candidates as int));
        }
        sorted
    }
}

// Part of speech and features.

/// Whether `c` is a verb-form category.
pub open spec fn is_verb_category(c: WazanCategory) -> bool {
    match c {
        WazanCategory::VerbFormI | WazanCategory::VerbFormII | WazanCategory::VerbFormIII
        | WazanCategory::VerbFormIV | WazanCategory::VerbFormV | WazanCategory::VerbFormVI
        | WazanCategory::VerbFormVII | WazanCategory::VerbFormVIII | WazanCategory::VerbFormIX
        | WazanCategory::VerbFormX | WazanCategory::VerbFormXI | WazanCategory::VerbFormXII
        | WazanCategory::VerbFormXIII | WazanCategory::VerbFormXIV | WazanCategory::VerbFormXV => true,
        _ => false,
    }
}

/// The part of speech of stem `s` read with pattern `w`: a verb form makes a
/// verb; a noun pattern makes an adjective if KB-0004 profiles it so or the
/// stem ends in the nisba ya, else a noun.
pub open spec fn pos_for(kb: Option<Kb0004>, s: Seq<char>, w: WazanSpec) -> PartOfSpeech {
    if is_verb_category(w.2) {
        PartOfSpeech::Verb
    } else if noun_pattern_adjective(kb, w.0) {
        PartOfSpeech::Adjective
    } else if ends_with_char(s, '\u{064A}') && !ends_with_char(s, '\u{0629}') {
        PartOfSpeech::Adjective
    } else {
        PartOfSpeech::Noun
    }
}

/// A feature as values: name, value, confidence (millionths), source.
pub type FeatureSpec = (Seq<char>, Seq<char>, u32, Seq<char>);

/// The values of a feature assignment.
pub open spec fn feature_view(f: FeatureAssignment) -> FeatureSpec {
    (f.name@, f.value@, f.confidence, f.source@)
}

/// The values of a list of feature assignments.
pub open spec fn features_view(v: Seq<FeatureAssignment>) -> Seq<FeatureSpec> {
    v.map_values(|f: FeatureAssignment| feature_view(f))
}

/// Whether stem `s` starts with an imperfect prefix (ya, ta, alif with hamza, nun).
pub open spec fn has_imperfect_prefix(s: Seq<char>) -> bool {
    starts_with_char(s, '\u{064A}') || starts_with_char(s, '\u{062A}') || starts_with_char(s, '\u{0623}')
        || starts_with_char(s, '\u{0646}')
}

/// The tense of a verb stem with its bitfield value: past for a perfect
/// ending (ta, alif, waw) without an imperfect prefix, present with such a
/// prefix, imperative otherwise.
pub open spec fn verb_tense(s: Seq<char>) -> (FeatureSpec, u64) {
    let perfect = ends_with_char(s, '\u{062A}') || ends_with_char(s, '\u{0627}') || ends_with_char(s, '\u{0648}');
    if !has_imperfect_prefix(s) && perfect {
        (("tense"@, "past"@, 500_000, "affix_analysis"@), 0)
    } else if has_imperfect_prefix(s) {
        (("tense"@, "present"@, 500_000, "affix_analysis"@), 1)
    } else {
        (("tense"@, "imperative"@, 300_000, "affix_analysis"@), 2)
    }
}

/// The person of a verb stem from its prefix, if it shows one.
pub open spec fn verb_person(s: Seq<char>) -> Option<(FeatureSpec, u64)> {
    if starts_with_char(s, '\u{0623}') {
        Some((("person"@, "first"@, 400_000, "prefix_analysis"@), 0))
    } else if starts_with_char(s, '\u{062A}') {
        Some((("person"@, "second"@, 400_000, "prefix_analysis"@), 1))
    } else if starts_with_char(s, '\u{064A}') || starts_with_char(s, '\u{0646}') {
        Some((("person"@, "third"@, 400_000, "prefix_analysis"@), 2))
    } else {
        None
    }
}

/// The gender of a verb stem from its prefix and ending.
pub open spec fn verb_gender(s: Seq<char>) -> (FeatureSpec, u64) {
    let fem_ending = ends_with_seq(s, "\u{064A}\u{0646}"@) || ends_with_char(s, '\u{0646}');
    if starts_with_char(s, '\u{064A}') || starts_with_char(s, '\u{0623}') || starts_with_char(s, '\u{0646}') {
        if fem_ending {
            (("gender"@, "feminine"@, 350_000, "suffix_analysis"@), 1)
        } else {
            (("gender"@, "masculine"@, 300_000, "prefix_analysis"@), 0)
        }
    } else if starts_with_char(s, '\u{062A}') {
        if fem_ending {
            (("gender"@, "feminine"@, 400_000, "suffix_analysis"@), 1)
        } else {
            (("gender"@, "feminine"@, 300_000, "prefix_analysis"@), 1)
        }
    } else if ends_with_char(s, '\u{064A}') || ends_with_char(s, '\u{0646}') {
        (("gender"@, "feminine"@, 400_000, "suffix_analysis"@), 1)
    } else {
        (("gender"@, "masculine"@, 300_000, "default"@), 0)
    }
}

/// The number of a verb stem from its ending.
pub open spec fn verb_number(s: Seq<char>) -> (FeatureSpec, u64) {
    if ends_with_char(s, '\u{0648}') || ends_with_seq(s, "\u{0648}\u{0646}"@) {
        (("number"@, "plural"@, 400_000, "suffix_analysis"@), 2)
    } else if ends_with_char(s, '\u{0627}') && !starts_with_char(s, '\u{0627}') {
        (("number"@, "dual"@, 350_000, "suffix_analysis"@), 1)
    } else {
        (("number"@, "singular"@, 300_000, "default"@), 0)
    }
}

/// The features of a verb stem read with pattern `w`: its form (if the
/// pattern has one), tense, person (if shown), gender and number.
pub open spec fn verb_features(s: Seq<char>, w: WazanSpec) -> Seq<FeatureSpec> {
    let form = match w.1 {
        Some(f) => seq![("verb_form"@, decimal(f as nat), w.4, "wazan"@)],
        None => Seq::empty(),
    };
    let person = match verb_person(s) {
        Some(p) => seq![p.0],
        None => Seq::empty(),
    };
    form + seq![verb_tense(s).0] + person + seq![verb_gender(s).0, verb_number(s).0]
}

/// The bitfield `raw` with the verb features of `s` set.
pub open spec fn verb_bits(s: Seq<char>, raw: u64) -> u64 {
    let t = with_field(raw, TENSE_START, TENSE_WIDTH, verb_tense(s).1);
    let p = match verb_person(s) {
        Some(x) => with_field(t, PERSON_START, PERSON_WIDTH, x.1),
        None => t,
    };
    let g = with_field(p, GENDER_START, GENDER_WIDTH, verb_gender(s).1);
    with_field(g, NUMBER_START, NUMBER_WIDTH, verb_number(s).1)
}

/// The gender of a noun stem: feminine with a final ta marbuta or an alif
/// followed by hamza.
pub open spec fn noun_gender(s: Seq<char>) -> (FeatureSpec, u64) {
    if ends_with_char(s, '\u{0629}') || contains_seq(s, "\u{0627}\u{0621}"@) {
        (("gender"@, "feminine"@, 400_000, "suffix_analysis"@), 1)
    } else {
        (("gender"@, "masculine"@, 200_000, "default"@), 0)
    }
}

/// The number of a noun stem from its ending.
pub open spec fn noun_number(s: Seq<char>) -> (FeatureSpec, u64) {
    if ends_with_seq(s, "\u{0648}\u{0646}"@) || ends_with_seq(s, "\u{064A}\u{0646}"@) || ends_with_seq(
        s,
        "\u{0627}\u{062A}"@,
    ) {
        (("number"@, "plural"@, 500_000, "suffix_analysis"@), 2)
    } else if ends_with_seq(s, "\u{0627}\u{0646}"@) {
        (("number"@, "dual"@, 450_000, "suffix_analysis"@), 1)
    } else {
        (("number"@, "singular"@, 300_000, "default"@), 0)
    }
}

/// The definiteness of a noun stem: definite with the article al-.
pub open spec fn noun_state(s: Seq<char>) -> FeatureSpec {
    if starts_with_seq(s, "\u{0627}\u{0644}"@) {
        ("state"@, "definite"@, 600_000, "prefix_analysis"@)
    } else {
        ("state"@, "indefinite"@, 300_000, "default"@)
    }
}

/// The features of a noun stem: gender, number and state.
pub open spec fn noun_features(s: Seq<char>) -> Seq<FeatureSpec> {
    seq![noun_gender(s).0, noun_number(s).0, noun_state(s)]
}

/// The bitfield `raw` with the noun features of `s` set.
pub open spec fn noun_bits(s: Seq<char>, raw: u64) -> u64 {
    with_field(with_field(raw, GENDER_START, GENDER_WIDTH, noun_gender(s).1), NUMBER_START, NUMBER_WIDTH, noun_number(s).1)
}

/// The features of stem `s` read with pattern `w` as part of speech `pos`.
pub open spec fn features_for(s: Seq<char>, w: WazanSpec, pos: PartOfSpeech) -> Seq<FeatureSpec> {
    if pos == PartOfSpeech::Verb {
        verb_features(s, w)
    } else if pos == PartOfSpeech::Noun || pos == PartOfSpeech::Adjective {
        noun_features(s)
    } else {
        Seq::empty()
    }
}

/// The feature bitfield of stem `s` read with pattern `w` as `pos`.
pub open spec fn bits_for(s: Seq<char>, pos: PartOfSpeech) -> u64 {
    let base = with_field(0, POS_START, POS_WIDTH, pos_code(pos) as u64);
    if pos == PartOfSpeech::Verb {
        verb_bits(s, base)
    } else if pos == PartOfSpeech::Noun || pos == PartOfSpeech::Adjective {
        noun_bits(s, base)
    } else {
        base
    }
}

/// The summed confidences of `fs`.
pub open spec fn confidence_sum(fs: Seq<FeatureSpec>) -> nat
    decreases fs.len(),
{
    if fs.len() == 0 {
        0
    } else {
        confidence_sum(fs.drop_last()) + fs.last().2 as nat
    }
}

/// The mean confidence of `fs`, rounded down, or 0 without features.
pub open spec fn mean_confidence(fs: Seq<FeatureSpec>) -> u32 {
    if fs.len() == 0 {
        0
    } else {
        (confidence_sum(fs) / fs.len()) as u32
    }
}

fn feature(name: &str, value: &str, confidence: u32, source: &str) -> (r: FeatureAssignment)
    ensures
        feature_view(r) == (name@, value@, confidence, source@),
{
    FeatureAssignment { name: owned(name), value: owned(value), confidence, source: owned(source) }
}

fn push_feature(out: &mut Vec<FeatureAssignment>, f: FeatureAssignment)
    ensures
        features_view(final(out)@) == features_view(old(out)@).push(feature_view(f)),
{
    out.push(f);
    assert(features_view(out@) =~= features_view(old(out)@).push(feature_view(f)));
}

impl MorphologicalParser {
    /// The part of speech of `stem` read with pattern `wazan`.
    fn determine_pos(&self, stem: &Vec<char>, wazan: &WazanCandidate) -> (r: PartOfSpeech)
        ensures
            r == pos_for(self.kb, stem@, wazan_view(*wazan)),
    {
        match wazan.category {
            WazanCategory::VerbFormI | WazanCategory::VerbFormII | WazanCategory::VerbFormIII
            | WazanCategory::VerbFormIV | WazanCategory::VerbFormV | WazanCategory::VerbFormVI
            | WazanCategory::VerbFormVII | WazanCategory::VerbFormVIII | WazanCategory::VerbFormIX
            | WazanCategory::VerbFormX | WazanCategory::VerbFormXI | WazanCategory::VerbFormXII
            | WazanCategory::VerbFormXIII | WazanCategory::VerbFormXIV
            | WazanCategory::VerbFormXV => PartOfSpeech::Verb,
            _ => {
                if self.noun_pattern_is_adjective(&chars_of(wazan.text.as_str())) {
                    return PartOfSpeech::Adjective;
                }
                if last_is(stem, '\u{064A}') && !last_is(stem, '\u{0629}') {
                    PartOfSpeech::Adjective
                } else {
                    PartOfSpeech::Noun
                }
            },
        }
    }

    /// Appends the verb features of `stem` read with `wazan`, and sets their bits.
    fn extract_verb_features(
        &self,
        stem: &Vec<char>,
        wazan: &WazanCandidate,
        features: &mut Vec<FeatureAssignment>,
        bitfield: &mut FeatureBitfield,
    )
        ensures
            features_view(final(features)@) == features_view(old(features)@) + verb_features(stem@, wazan_view(*wazan)),
            final(bitfield)@ == verb_bits(stem@, old(bitfield)@),
    {
        let ghost start = features_view(features@);
        let ghost s = stem@;
        match wazan.form {
            Some(form) => {
                let mut v: Vec<char> = Vec::new();
                push_decimal(&mut v, form as u64);
                let value = string_from_chars(v.as_slice());
                push_feature(features, FeatureAssignment { name: owned("verb_form"), value, confidence: wazan.confidence, source: owned("wazan") });
            },
            None => {},
        }
        let ghost after_form = features_view(features@);
        let has_prefix = first_is(stem, '\u{064A}') || first_is(stem, '\u{062A}') || first_is(stem, '\u{0623}') || first_is(stem, '\u{0646}');
        let has_perfect_suffix = last_is(stem, '\u{062A}') || last_is(stem, '\u{0627}') || last_is(stem, '\u{0648}');
        if !has_prefix && has_perfect_suffix {
            push_feature(features, feature("tense", "past", 500_000, "affix_analysis"));
            *bitfield = bitfield.with_tense(0);
        } else if has_prefix {
            push_feature(features, feature("tense", "present", 500_000, "affix_analysis"));
            *bitfield = bitfield.with_tense(1);
        } else {
            push_feature(features, feature("tense", "imperative", 300_000, "affix_analysis"));
            *bitfield = bitfield.with_tense(2);
        }
        if first_is(stem, '\u{0623}') {
            push_feature(features, feature("person", "first", 400_000, "prefix_analysis"));
            *bitfield = bitfield.with_person(0);
        } else if first_is(stem, '\u{062A}') {
            push_feature(features, feature("person", "second", 400_000, "prefix_analysis"));
            *bitfield = bitfield.with_person(1);
        } else if first_is(stem, '\u{064A}') || first_is(stem, '\u{0646}') {
            push_feature(features, feature("person", "third", 400_000, "prefix_analysis"));
            *bitfield = bitfield.with_person(2);
        }
        let fem_ending = ends_with_lit(stem, "\u{064A}\u{0646}") || last_is(stem, '\u{0646}');
        if first_is(stem, '\u{064A}') || first_is(stem, '\u{0623}') || first_is(stem, '\u{0646}') {
            if fem_ending {
                push_feature(features, feature("gender", "feminine", 350_000, "suffix_analysis"));
                *bitfield = bitfield.with_gender(1);
            } else {
                push_feature(features, feature("gender", "masculine", 300_000, "prefix_analysis"));
                *bitfield = bitfield.with_gender(0);
            }
        } else if first_is(stem, '\u{062A}') {
            if fem_ending {
                push_feature(features, feature("gender", "feminine", 400_000, "suffix_analysis"));
                *bitfield = bitfield.with_gender(1);
            } else {
                push_feature(features, feature("gender", "feminine", 300_000, "prefix_analysis"));
                *bitfield = bitfield.with_gender(1);
            }
        } else {
            if last_is(stem, '\u{064A}') || last_is(stem, '\u{0646}') {
                push_feature(features, feature("gender", "feminine", 400_000, "suffix_analysis"));
                *bitfield = bitfield.with_gender(1);
            } else {
                push_feature(features, feature("gender", "masculine", 300_000, "default"));
                *bitfield = bitfield.with_gender(0);
            }
        }
        if last_is(stem, '\u{0648}') || ends_with_lit(stem, "\u{0648}\u{0646}") {
            push_feature(features, feature("number", "plural", 400_000, "suffix_analysis"));
            *bitfield = bitfield.with_number(2);
        } else if last_is(stem, '\u{0627}') && !first_is(stem, '\u{0627}') {
            push_feature(features, feature("number", "dual", 350_000, "suffix_analysis"));
            *bitfield = bitfield.with_number(1);
        } else {
            push_feature(features, feature("number", "singular", 300_000, "default"));
            *bitfield = bitfield.with_number(0);
        }
        assert(features_view(features@) =~= start + verb_features(s, wazan_view(*wazan)));
    }

    /// Appends the noun features of `stem`, and sets their bits.
    fn extract_noun_features(
        &self,
        stem: &Vec<char>,
        features: &mut Vec<FeatureAssignment>,
        bitfield: &mut FeatureBitfield,
    )
        ensures
            features_view(final(features)@) == features_view(old(features)@) + noun_features(stem@),
            final(bitfield)@ == noun_bits(stem@, old(bitfield)@),
    {
        let ghost start = features_view(features@);
        if last_is(stem, '\u{0629}') || contains_lit(stem, "\u{0627}\u{0621}") {
            push_feature(features, feature("gender", "feminine", 400_000, "suffix_analysis"));
            *bitfield = bitfield.with_gender(1);
        } else {
            push_feature(features, feature("gender", "masculine", 200_000, "default"));
            *bitfield = bitfield.with_gender(0);
        }
        if ends_with_lit(stem, "\u{0648}\u{0646}") || ends_with_lit(stem, "\u{064A}\u{0646}") || ends_with_lit(stem, "\u{0627}\u{062A}") {
            push_feature(features, feature("number", "plural", 500_000, "suffix_analysis"));
            *bitfield = bitfield.with_number(2);
        } else if ends_with_lit(stem, "\u{0627}\u{0646}") {
            push_feature(features, feature("number", "dual", 450_000, "suffix_analysis"));
            *bitfield = bitfield.with_number(1);
        } else {
            push_feature(features, feature("number", "singular", 300_000, "default"));
            *bitfield = bitfield.with_number(0);
        }
        if starts_with_lit(stem, "\u{0627}\u{0644}") {
            push_feature(features, feature("state", "definite", 600_000, "prefix_analysis"));
        } else {
            push_feature(features, feature("state", "indefinite", 300_000, "default"));
        }
        assert(features_view(features@) =~= start + noun_features(stem@));
    }

    /// The features of `stem` read with `wazan` as `pos`, their bitfield and
    /// mean confidence.
    fn extract_features(
        &self,
        stem: &Vec<char>,
        root: &RootCandidate,
        wazan: &WazanCandidate,
        pos: PartOfSpeech,
    ) -> (r: FeatureSet)
        ensures
            features_view(r.features@) == features_for(stem@, wazan_view(*wazan), pos),
            r.bitfield == bits_for(stem@, pos),
            r.confidence == mean_confidence(features_for(stem@, wazan_view(*wazan), pos)),
    {
        let mut feature_assignments: Vec<FeatureAssignment> = Vec::new();
        let mut bitfield = FeatureBitfield::new();
        bitfield = bitfield.with_pos(pos.code());
        assert(features_view(feature_assignments@) =~= Seq::<FeatureSpec>::empty());
        match pos {
            PartOfSpeech::Verb => {
                self.extract_verb_features(stem, wazan, &mut feature_assignments, &mut bitfield);
            },
            PartOfSpeech::Noun | PartOfSpeech::Adjective => {
                self.extract_noun_features(stem, &mut feature_assignments, &mut bitfield);
            },
            _ => {},
        }
        let ghost fv = features_view(feature_assignments@);
        assert(fv =~= features_for(stem@, wazan_view(*wazan), pos));
        let mut sum: u64 = 0;
        let mut i: usize = 0;
        assert(fv.take(0) =~= Seq::<FeatureSpec>::empty());
        while i < feature_assignments.len()
            invariant
                fv == features_view(feature_assignments@),
                0 <= i <= fv.len(),
                sum == confidence_sum(fv.take(i as int)),
                sum <= i * 0xFFFF_FFFF,
                fv.len() <= 8,
            decreases fv.len() - i,
        {
            proof {
                assert(fv.take(i + 1).drop_last() =~= fv.take(i as int));
                assert(fv.take(i + 1).last() == feature_view(feature_assignments@[i as int]));
            }
            sum = sum + feature_assignments[i].confidence as u64;
            i = i + 1;
        }
        assert(fv.take(fv.len() as int) =~= fv);
        let n = feature_assignments.len() as u64;
        let confidence: u32 = if n == 0 {
            0
        } else {
            assert(sum / n <= 0xFFFF_FFFF) by (nonlinear_arith)
                requires
                    sum <= n * 0xFFFF_FFFF,
                    n > 0,
            ;
            (sum / n) as u32
        };
        FeatureSet { features: feature_assignments, bitfield: bitfield.to_raw(), confidence }
    }
}

// Analyses.

/// The name of a pattern category, as `Debug` prints it.
pub open spec fn category_name(c: WazanCategory) -> Seq<char> {
    match c {
        WazanCategory::VerbFormI => "VerbFormI"@,
        WazanCategory::VerbFormII => "VerbFormII"@,
        WazanCategory::VerbFormIII => "VerbFormIII"@,
        WazanCategory::VerbFormIV => "VerbFormIV"@,
        WazanCategory::VerbFormV => "VerbFormV"@,
        WazanCategory::VerbFormVI => "VerbFormVI"@,
        WazanCategory::VerbFormVII => "VerbFormVII"@,
        WazanCategory::VerbFormVIII => "VerbFormVIII"@,
        WazanCategory::VerbFormIX => "VerbFormIX"@,
        WazanCategory::VerbFormX => "VerbFormX"@,
        WazanCategory::VerbFormXI => "VerbFormXI"@,
        WazanCategory::VerbFormXII => "VerbFormXII"@,
        WazanCategory::VerbFormXIII => "VerbFormXIII"@,
        WazanCategory::VerbFormXIV => "VerbFormXIV"@,
        WazanCategory::VerbFormXV => "VerbFormXV"@,
        WazanCategory::NounMasdar => "NounMasdar"@,
        WazanCategory::NounIsmFail => "NounIsmFail"@,
        WazanCategory::NounIsmMaful => "NounIsmMaful"@,
        WazanCategory::NounSifatMusabbaha => "NounSifatMusabbaha"@,
        WazanCategory::NounIsmMakan => "NounIsmMakan"@,
        WazanCategory::NounIsmZaman => "NounIsmZaman"@,
        WazanCategory::NounIsmAlah => "NounIsmAlah"@,
        WazanCategory::NounSighahMubalaghah => "NounSighahMubalaghah"@,
        WazanCategory::NounTafdil => "NounTafdil"@,
        WazanCategory::NounNisbah => "NounNisbah"@,
        WazanCategory::NounBrokenPlural => "NounBrokenPlural"@,
        WazanCategory::NounOther => "NounOther"@,
    }
}

fn category_debug_name(c: WazanCategory) -> (r: &'static str)
    ensures
        r@ == category_name(c),
{
    match c {
        WazanCategory::VerbFormI => "VerbFormI",
        WazanCategory::VerbFormII => "VerbFormII",
        WazanCategory::VerbFormIII => "VerbFormIII",
        WazanCategory::VerbFormIV => "VerbFormIV",
        WazanCategory::VerbFormV => "VerbFormV",
        WazanCategory::VerbFormVI => "VerbFormVI",
        WazanCategory::VerbFormVII => "VerbFormVII",
        WazanCategory::VerbFormVIII => "VerbFormVIII",
        WazanCategory::VerbFormIX => "VerbFormIX",
        WazanCategory::VerbFormX => "VerbFormX",
        WazanCategory::VerbFormXI => "VerbFormXI",
        WazanCategory::VerbFormXII => "VerbFormXII",
        WazanCategory::VerbFormXIII => "VerbFormXIII",
        WazanCategory::VerbFormXIV => "VerbFormXIV",
        WazanCategory::VerbFormXV => "VerbFormXV",
        WazanCategory::NounMasdar => "NounMasdar",
        WazanCategory::NounIsmFail => "NounIsmFail",
        WazanCategory::NounIsmMaful => "NounIsmMaful",
        WazanCategory::NounSifatMusabbaha => "NounSifatMusabbaha",
        WazanCategory::NounIsmMakan => "NounIsmMakan",
        WazanCategory::NounIsmZaman => "NounIsmZaman",
        WazanCategory::NounIsmAlah => "NounIsmAlah",
        WazanCategory::NounSighahMubalaghah => "NounSighahMubalaghah",
        WazanCategory::NounTafdil => "NounTafdil",
        WazanCategory::NounNisbah => "NounNisbah",
        WazanCategory::NounBrokenPlural => "NounBrokenPlural",
        WazanCategory::NounOther => "NounOther",
    }
}

/// The part of speech that the fast path gives stem `s`: a particle or a
/// pronoun if its upper-case form is in the built-in lists.
pub open spec fn fast_path_pos(s: Seq<char>) -> Option<PartOfSpeech> {
    closed_class_of(uppercase(s))
}

/// The closed class of an upper-cased stem: particle or pronoun if the
/// built-in lists hold it.
pub open spec fn closed_class_of(upper: Seq<char>) -> Option<PartOfSpeech> {
    if common_particles().contains(upper) {
        Some(PartOfSpeech::Particle)
    } else if common_pronouns().contains(upper) {
        Some(PartOfSpeech::Pronoun)
    } else {
        None
    }
}

/// The closed class (particle or pronoun) of an upper-cased stem, if any.
pub fn closed_class(upper: &Vec<char>) -> (r: Option<PartOfSpeech>)
    ensures
        r == closed_class_of(upper@),
{
    let lx = lexicon();
    if in_table(&lx.particles, upper) {
        Some(PartOfSpeech::Particle)
    } else if in_table(&lx.pronouns, upper) {
        Some(PartOfSpeech::Pronoun)
    } else {
        None
    }
}

/// One analysis of a token, as the parser plans it.
pub enum AnalysisPlan {
    /// A particle or pronoun found by the fast path.
    FastPath { stem: Seq<char>, seg_id: Seq<char>, pos: PartOfSpeech },
    /// A stem read with a root and a pattern.
    Full { stem: Seq<char>, seg_id: Seq<char>, root: RootSpec, wazan: WazanSpec, ambiguous: bool },
    /// A stem with a root but no pattern.
    Partial { stem: Seq<char>, seg_id: Seq<char>, root: RootSpec },
}

/// The analyses `acc` followed by one per pattern of `ws` for stem `s` and
/// root `root`; each is marked ambiguous when more than one analysis precedes it.
pub open spec fn wazan_fold(
    s: Seq<char>,
    seg_id: Seq<char>,
    root: RootSpec,
    ws: Seq<WazanSpec>,
    acc: Seq<AnalysisPlan>,
) -> Seq<AnalysisPlan>
    decreases ws.len(),
{
    if ws.len() == 0 {
        acc
    } else {
        let a = wazan_fold(s, seg_id, root, ws.drop_last(), acc);
        a.push(AnalysisPlan::Full { stem: s, seg_id, root, wazan: ws.last(), ambiguous: a.len() > 1 })
    }
}

/// The analyses `acc` followed by those of every root of `rs` with each of its patterns.
pub open spec fn root_fold(
    cfg: MorphologicalParserConfig,
    kb: Option<Kb0004>,
    s: Seq<char>,
    seg_id: Seq<char>,
    rs: Seq<RootSpec>,
    acc: Seq<AnalysisPlan>,
) -> Seq<AnalysisPlan>
    decreases rs.len(),
{
    if rs.len() == 0 {
        acc
    } else {
        let a = root_fold(cfg, kb, s, seg_id, rs.drop_last(), acc);
        wazan_fold(s, seg_id, rs.last(), wazan_candidates(cfg, kb, s, rs.last()), a)
    }
}

/// The stem of a segmentation: its first stem morpheme, else the token text.
pub open spec fn stem_of(seg: Segmentation, token_text: Seq<char>) -> Seq<char> {
    let ms = seg.morphemes@;
    if exists|k: int| 0 <= k < ms.len() && #[trigger] ms[k].morpheme_type == MorphemeType::Stem {
        let k = choose|k: int|
            0 <= k < ms.len() && #[trigger] ms[k].morpheme_type == MorphemeType::Stem && forall|j: int|
                0 <= j < k ==> #[trigger] ms[j].morpheme_type != MorphemeType::Stem;
        ms[k].text@
    } else {
        token_text
    }
}

/// The analyses and unknown stems of the first `j` segmentations of a token,
/// after `acc` and `unknown`.
pub open spec fn segmentation_fold(
    cfg: MorphologicalParserConfig,
    kb: Option<Kb0004>,
    tok: SegmentedToken,
    j: int,
) -> (Seq<AnalysisPlan>, Seq<Seq<char>>)
    decreases j,
{
    if j <= 0 || j > tok.segmentations@.len() {
        (Seq::empty(), Seq::empty())
    } else {
        let (acc, unknown) = segmentation_fold(cfg, kb, tok, j - 1);
        let seg = tok.segmentations@[j - 1];
        let s = stem_of(seg, tok.raw_token.text@);
        match fast_path_pos(s) {
            Some(p) => (acc.push(AnalysisPlan::FastPath { stem: s, seg_id: seg.id@, pos: p }), unknown),
            None => {
                let roots = root_candidates(cfg, s);
                if roots.len() == 0 && !cfg.enable_guess {
                    (acc, unknown.push(s))
                } else {
                    let a = root_fold(cfg, kb, s, seg.id@, roots, acc);
                    if a.len() == 0 && roots.len() > 0 {
                        (a.push(AnalysisPlan::Partial { stem: s, seg_id: seg.id@, root: roots[0] }), unknown)
                    } else {
                        (a, unknown)
                    }
                }
            },
        }
    }
}

/// The analyses and unknown stems of a word token.
pub open spec fn token_plan(
    cfg: MorphologicalParserConfig,
    kb: Option<Kb0004>,
    tok: SegmentedToken,
) -> (Seq<AnalysisPlan>, Seq<Seq<char>>) {
    segmentation_fold(cfg, kb, tok, tok.segmentations@.len() as int)
}

/// `f` is the named form of the feature `x`.
pub open spec fn named_feature_is(f: NamedFeature, x: FeatureSpec) -> bool {
    &&& f.name@ == x.0
    &&& f.value@ == x.1
    &&& f.confidence == x.2
    &&& f.source@ == x.3
    &&& f.category == feature_category_of(x.0)
}

/// `e` is the evidence entry of an analysis of token `id`.
pub open spec fn evidence_is(
    e: EvidenceEntry,
    id: Seq<char>,
    rule: Seq<char>,
    input: Seq<char>,
    output: Seq<char>,
    delta: Seq<char>,
    confidence: u32,
    token_id: usize,
) -> bool {
    &&& e.id@ == id
    &&& e.timestamp@ == Seq::<char>::empty()
    &&& e.stage@ == "MOD-04"@
    &&& e.stage_iteration == 0
    &&& e.category == EvidenceCategory::Morphology
    &&& e.rule_or_algorithm@ == rule
    &&& e.version@ == "1.0"@
    &&& e.input_description@ == input
    &&& e.input_state_hash@ == Seq::<char>::empty()
    &&& e.output_description@ == output
    &&& e.output_delta@ == delta
    &&& e.confidence == confidence
    &&& e.token_indices@ == seq![token_id]
}

/// `r` refers to root `root`.
pub open spec fn root_ref_is(r: Option<RootRef>, root: RootSpec) -> bool {
    r matches Some(x) && x.text@ == root.0 && x.source@ == root.3 && x.confidence == root.5
}

/// `sa` is the analysis planned as `a` for token `token_id`.
pub open spec fn analysis_is(sa: StemAnalysis, a: AnalysisPlan, kb: Option<Kb0004>, token_id: usize) -> bool {
    let tid = decimal(token_id as nat);
    &&& sa.alternatives@.len() == 0
    &&& match a {
        AnalysisPlan::FastPath { stem, seg_id, pos } => {
            &&& sa.analysis_id@ == (if pos == PartOfSpeech::Particle {
                "ana-particle-"@
            } else {
                "ana-pronoun-"@
            }) + seg_id
            &&& sa.segmentation_id@ == seg_id
            &&& sa.stem@ == stem
            &&& sa.root is None
            &&& sa.wazan is None
            &&& sa.pos == pos
            &&& sa.features@.len() == 0
            &&& !sa.is_ambiguous
            &&& sa.evidence@.len() == 0
        },
        AnalysisPlan::Full { stem, seg_id, root, wazan, ambiguous } => {
            let pos = pos_for(kb, stem, wazan);
            let fs = features_for(stem, wazan, pos);
            &&& sa.analysis_id@ == "ana-"@ + tid + "-"@ + root.0 + "-"@ + wazan.0
            &&& sa.segmentation_id@ == seg_id
            &&& sa.stem@ == stem
            &&& root_ref_is(sa.root, root)
            &&& sa.wazan matches Some(w) && w.text@ == wazan.0 && w.source@ == wazan.3 && w.form
                == wazan.1 && w.confidence == wazan.4
            &&& sa.pos == pos
            &&& sa.features@.len() == fs.len()
            &&& forall|k: int| 0 <= k < fs.len() ==> named_feature_is(#[trigger] sa.features@[k], fs[k])
            &&& sa.is_ambiguous == ambiguous
            &&& sa.evidence@.len() == 1
            &&& evidence_is(
                sa.evidence@[0],
                "ev-"@ + tid + "-morph"@,
                "morph_analysis("@ + stem + ", "@ + root.0 + ", "@ + category_name(wazan.2) + ")"@,
                "stem="@ + stem,
                root.0 + " analysis"@,
                "root="@ + root.0 + ", wazan="@ + wazan.0,
                ((root.5 as int * wazan.4 as int) / 2_000_000) as u32,
                token_id,
            )
        },
        AnalysisPlan::Partial { stem, seg_id, root } => {
            &&& sa.analysis_id@ == "ana-partial-"@ + tid + "-"@ + root.0
            &&& sa.segmentation_id@ == seg_id
            &&& sa.stem@ == stem
            &&& root_ref_is(sa.root, root)
            &&& sa.wazan is None
            &&& sa.pos == PartOfSpeech::Unknown
            &&& sa.features@.len() == 0
            &&& !sa.is_ambiguous
            &&& sa.evidence@.len() == 1
            &&& evidence_is(
                sa.evidence@[0],
                "ev-"@ + tid + "-partial"@,
                "partial_analysis"@,
                "stem="@ + stem,
                "root="@ + root.0,
                "partial_analysis"@,
                root.5 / 2,
                token_id,
            )
        },
    }
}

fn empty_analysis_lists() -> (r: (Vec<NamedFeature>, Vec<StemAnalysis>, Vec<EvidenceEntry>))
    ensures
        r.0@.len() == 0,
        r.1@.len() == 0,
        r.2@.len() == 0,
{
    (Vec::new(), Vec::new(), Vec::new())
}

/// `prefix` followed by `text`.
fn joined(prefix: &str, text: &Vec<char>) -> (r: String)
    ensures
        r@ == prefix@ + text@,
{
    let mut v: Vec<char> = Vec::new();
    append_str(&mut v, prefix);
    let ghost a = v@;
    let mut i: usize = 0;
    while i < text.len()
        invariant
            0 <= i <= text@.len(),
            v@ == a + text@.take(i as int),
        decreases text@.len() - i,
    {
        v.push(text[i]);
        assert(text@.take(i + 1) =~= text@.take(i as int).push(text@[i as int]));
        i = i + 1;
    }
    assert(text@.take(text@.len() as int) =~= text@);
    string_from_chars(v.as_slice())
}

/// Appends the characters of `text` to `out`.
fn append_chars(out: &mut Vec<char>, text: &Vec<char>)
    ensures
        final(out)@ == old(out)@ + text@,
{
    let ghost a = out@;
    let mut i: usize = 0;
    while i < text.len()
        invariant
            0 <= i <= text@.len(),
            out@ == a + text@.take(i as int),
        decreases text@.len() - i,
    {
        out.push(text[i]);
        assert(text@.take(i + 1) =~= text@.take(i as int).push(text@[i as int]));
        i = i + 1;
    }
    assert(text@.take(text@.len() as int) =~= text@);
}

fn root_ref_of(root: &RootCandidate) -> (r: RootRef)
    ensures
        root_ref_is(Some(r), root_view(*root)),
{
    RootRef { text: owned(root.text.as_str()), source: owned(root.source.as_str()), confidence: root.confidence }
}

fn single_index(id: usize) -> (r: Vec<usize>)
    ensures
        r@ == seq![id],
{
    let mut v: Vec<usize> = Vec::new();
    v.push(id);
    v
}

impl MorphologicalParser {
    /// The analysis of a stem that the fast path recognizes as a particle or
    /// pronoun, if it does.
    fn check_fast_path(&self, stem: &Vec<char>, seg: &Segmentation) -> (r: Option<StemAnalysis>)
        ensures
            match fast_path_pos(stem@) {
                Some(p) => r matches Some(sa) && analysis_is(sa, AnalysisPlan::FastPath { stem: stem@, seg_id: seg.id@, pos: p }, self.kb, 0),
                None => r is None,
            },
    {
        let text = string_from_chars(stem.as_slice());
        let upper = chars_of(to_uppercase(text.as_str()).as_str());
        let pos = match closed_class(&upper) {
            Some(p) => p,
            None => {
                return None;
            },
        };
        let seg_id = chars_of(seg.id.as_str());
        let analysis_id = if pos == PartOfSpeech::Particle {
            joined("ana-particle-", &seg_id)
        } else {
            joined("ana-pronoun-", &seg_id)
        };
        let (features, alternatives, evidence) = empty_analysis_lists();
        Some(
            StemAnalysis {
                analysis_id,
                segmentation_id: owned(seg.id.as_str()),
                stem: text,
                root: None,
                wazan: None,
                pos,
                features,
                is_ambiguous: false,
                alternatives,
                evidence,
            },
        )
    }

    /// The analysis of a stem with a root but no pattern.
    fn make_partial_analysis(
        &self,
        seg_token: &SegmentedToken,
        segmentation: &Segmentation,
        stem: &Vec<char>,
        root: &RootCandidate,
    ) -> (r: StemAnalysis)
        ensures
            analysis_is(r, AnalysisPlan::Partial { stem: stem@, seg_id: segmentation.id@, root: root_view(*root) }, self.kb, seg_token.raw_token.id),
    {
        let id = seg_token.raw_token.id;
        let root_text = chars_of(root.text.as_str());
        let mut aid: Vec<char> = Vec::new();
        append_str(&mut aid, "ana-partial-");
        push_decimal(&mut aid, id as u64);
        append_str(&mut aid, "-");
        append_chars(&mut aid, &root_text);
        let mut eid: Vec<char> = Vec::new();
        append_str(&mut eid, "ev-");
        push_decimal(&mut eid, id as u64);
        append_str(&mut eid, "-partial");
        let entry = EvidenceEntry {
            id: string_from_chars(eid.as_slice()),
            timestamp: String::new(),
            stage: owned("MOD-04"),
            stage_iteration: 0,
            category: EvidenceCategory::Morphology,
            rule_or_algorithm: owned("partial_analysis"),
            version: owned("1.0"),
            input_description: joined("stem=", stem),
            input_state_hash: String::new(),
            output_description: joined("root=", &root_text),
            output_delta: owned("partial_analysis"),
            confidence: root.confidence / 2,
            token_indices: single_index(id),
        };
        let (features, alternatives, mut evidence) = empty_analysis_lists();
        evidence.push(entry);
        StemAnalysis {
            analysis_id: string_from_chars(aid.as_slice()),
            segmentation_id: owned(segmentation.id.as_str()),
            stem: string_from_chars(stem.as_slice()),
            root: Some(root_ref_of(root)),
            wazan: None,
            pos: PartOfSpeech::Unknown,
            features,
            is_ambiguous: false,
            alternatives,
            evidence,
        }
    }

    /// The analysis of `stem` read with `root` and `wazan`.
    fn full_analysis(
        &self,
        token_id: usize,
        segmentation: &Segmentation,
        stem: &Vec<char>,
        root: &RootCandidate,
        wazan: &WazanCandidate,
        ambiguous: bool,
    ) -> (r: StemAnalysis)
        ensures
            analysis_is(
                r,
                AnalysisPlan::Full { stem: stem@, seg_id: segmentation.id@, root: root_view(*root), wazan: wazan_view(*wazan), ambiguous },
                self.kb,
                token_id,
            ),
    {
        let pos = self.determine_pos(stem, wazan);
        let feature_set = self.extract_features(stem, root, wazan, pos);
        let ghost fs = features_view(feature_set.features@);
        let ghost fa = feature_set.features@;
        let mut named_features: Vec<NamedFeature> = Vec::new();
        for fa_item in it: feature_set.features.into_iter()
            invariant
                it.seq() == fa,
                fs == features_view(fa),
                named_features@.len() == it.index(),
                forall|k: int| 0 <= k < it.index() ==> named_feature_is(#[trigger] named_features@[k], fs[k]),
        {
            let ghost idx: int = it.index() as int;
            let ghost before = named_features@;
            assert(fs[idx] == feature_view(fa_item));
            let nf = NamedFeature::from(fa_item);
            named_features.push(nf);
            assert forall|k: int| 0 <= k < idx + 1 implies named_feature_is(#[trigger] named_features@[k], fs[k]) by {
                if k < idx {
                    assert(named_features@[k] == before[k]);
                }
            }
        }
        let root_text = chars_of(root.text.as_str());
        let wazan_text = chars_of(wazan.text.as_str());
        let mut aid: Vec<char> = Vec::new();
        append_str(&mut aid, "ana-");
        push_decimal(&mut aid, token_id as u64);
        append_str(&mut aid, "-");
        append_chars(&mut aid, &root_text);
        append_str(&mut aid, "-");
        append_chars(&mut aid, &wazan_text);
        let mut eid: Vec<char> = Vec::new();
        append_str(&mut eid, "ev-");
        push_decimal(&mut eid, token_id as u64);
        append_str(&mut eid, "-morph");
        let mut rule: Vec<char> = Vec::new();
        append_str(&mut rule, "morph_analysis(");
        append_chars(&mut rule, stem);
        append_str(&mut rule, ", ");
        append_chars(&mut rule, &root_text);
        append_str(&mut rule, ", ");
        append_str(&mut rule, category_debug_name(wazan.category));
        append_str(&mut rule, ")");
        let mut output: Vec<char> = Vec::new();
        append_chars(&mut output, &root_text);
        append_str(&mut output, " analysis");
        let mut delta: Vec<char> = Vec::new();
        append_str(&mut delta, "root=");
        append_chars(&mut delta, &root_text);
        append_str(&mut delta, ", wazan=");
        append_chars(&mut delta, &wazan_text);
        let rc: u64 = root.confidence as u64;
        let wc: u64 = wazan.confidence as u64;
        assert(rc * wc <= u64::MAX) by (nonlinear_arith)
            requires
                rc <= 0xffff_ffff,
                wc <= 0xffff_ffff,
        ;
        let product: u64 = rc * wc;
        let confidence = #[verifier::truncate] ((product / 2_000_000) as u32);
        let entry = EvidenceEntry {
            id: string_from_chars(eid.as_slice()),
            timestamp: String::new(),
            stage: owned("MOD-04"),
            stage_iteration: 0,
            category: EvidenceCategory::Morphology,
            rule_or_algorithm: string_from_chars(rule.as_slice()),
            version: owned("1.0"),
            input_description: joined("stem=", stem),
            input_state_hash: String::new(),
            output_description: string_from_chars(output.as_slice()),
            output_delta: string_from_chars(delta.as_slice()),
            confidence,
            token_indices: single_index(token_id),
        };
        let (unused, alternatives, mut evidence) = empty_analysis_lists();
        evidence.push(entry);
        StemAnalysis {
            analysis_id: string_from_chars(aid.as_slice()),
            segmentation_id: owned(segmentation.id.as_str()),
            stem: string_from_chars(stem.as_slice()),
            root: Some(root_ref_of(root)),
            wazan: Some(
                WazanRef {
                    text: owned(wazan.text.as_str()),
                    source: owned(wazan.source.as_str()),
                    form: wazan.form,
                    confidence: wazan.confidence,
                },
            ),
            pos,
            features: named_features,
            is_ambiguous: ambiguous,
            alternatives,
            evidence,
        }
    }
}

/// The text of the first stem morpheme of `seg`, else `token_text`.
fn stem_text_of(seg: &Segmentation, token_text: &String) -> (r: Vec<char>)
    ensures
        r@ == stem_of(*seg, token_text@),
{
    let ghost ms = seg.morphemes@;
    let mut k: usize = 0;
    while k < seg.morphemes.len()
        invariant
            ms == seg.morphemes@,
            0 <= k <= ms.len(),
            forall|j: int| 0 <= j < k ==> #[trigger] ms[j].morpheme_type != MorphemeType::Stem,
        decreases ms.len() - k,
    {
        if seg.morphemes[k].morpheme_type == MorphemeType::Stem {
            let r = chars_of(seg.morphemes[k].text.as_str());
            proof {
                let kk = k as int;
                assert(0 <= kk < ms.len() && ms[kk].morpheme_type == MorphemeType::Stem);
                let c = choose|c: int|
                    0 <= c < ms.len() && #[trigger] ms[c].morpheme_type == MorphemeType::Stem && forall|j: int|
                        0 <= j < c ==> #[trigger] ms[j].morpheme_type != MorphemeType::Stem;
                assert(0 <= c < ms.len() && ms[c].morpheme_type == MorphemeType::Stem && forall|j: int|
                        0 <= j < c ==> #[trigger] ms[j].morpheme_type != MorphemeType::Stem);
                if c < kk {
                    assert(ms[c].morpheme_type != MorphemeType::Stem);
                } else if c > kk {
                    assert(ms[kk].morpheme_type != MorphemeType::Stem);
                }
                assert(c == kk);
            }
            return r;
        }
        k = k + 1;
    }
    chars_of(token_text.as_str())
}

/// The analyses in `sas` are those planned in `plan`, one for one, for token `token_id`.
pub open spec fn plan_matches(sas: Seq<StemAnalysis>, plan: Seq<AnalysisPlan>, kb: Option<Kb0004>, token_id: usize) -> bool {
    &&& sas.len() == plan.len()
    &&& forall|k: int| 0 <= k < plan.len() ==> analysis_is(#[trigger] sas[k], plan[k], kb, token_id)
}

proof fn lemma_plan_push(
    sas: Seq<StemAnalysis>,
    plan: Seq<AnalysisPlan>,
    kb: Option<Kb0004>,
    token_id: usize,
    sa: StemAnalysis,
    a: AnalysisPlan,
)
    requires
        plan_matches(sas, plan, kb, token_id),
        analysis_is(sa, a, kb, token_id),
    ensures
        plan_matches(sas.push(sa), plan.push(a), kb, token_id),
{
    assert forall|k: int| 0 <= k < plan.len() + 1 implies analysis_is(#[trigger] sas.push(sa)[k], plan.push(a)[k], kb, token_id) by {
        if k < plan.len() {
            assert(sas.push(sa)[k] == sas[k]);
            assert(plan.push(a)[k] == plan[k]);
        }
    }
}

impl MorphologicalParser {
    /// Appends the analyses of `stem` with each root of `roots` and each of its patterns.
    fn analyze_roots(
        &self,
        id: usize,
        seg: &Segmentation,
        stem: &Vec<char>,
        roots: &Vec<RootCandidate>,
        lx: &Lexicon,
        analyses: &mut Vec<StemAnalysis>,
        Ghost(acc): Ghost<Seq<AnalysisPlan>>,
    )
        requires
            lexicon_ok(*lx),
            plan_matches(old(analyses)@, acc, self.kb, id),
        ensures
            plan_matches(final(analyses)@, root_fold(self.config, self.kb, stem@, seg.id@, roots_view(roots@), acc), self.kb, id),
    {
        let ghost cfg = self.config;
        let ghost kb = self.kb;
        let ghost s = stem@;
        let ghost seg_id = seg.id@;
        let ghost rs = roots_view(roots@);
        let nr = roots.len();
        assert(rs.take(0) =~= Seq::<RootSpec>::empty());
        for ri in 0..nr
            invariant
                nr == roots@.len(),
                rs == roots_view(roots@),
                cfg == self.config,
                kb == self.kb,
                lexicon_ok(*lx),
                s == stem@,
                seg_id == seg.id@,
                plan_matches(analyses@, root_fold(cfg, kb, s, seg_id, rs.take(ri as int), acc), kb, id),
        {
            let ghost base = root_fold(cfg, kb, s, seg_id, rs.take(ri as int), acc);
            let root = &roots[ri];
            let wazans = self.identify_wazan(stem, root, lx);
            let ghost ws = wazans_view(wazans@);
            let nw = wazans.len();
            assert(ws.take(0) =~= Seq::<WazanSpec>::empty());
            for wi in 0..nw
                invariant
                    nw == wazans@.len(),
                    ws == wazans_view(wazans@),
                    kb == self.kb,
                    s == stem@,
                    seg_id == seg.id@,
                    plan_matches(analyses@, wazan_fold(s, seg_id, root_view(*root), ws.take(wi as int), base), kb, id),
            {
                let ghost before = wazan_fold(s, seg_id, root_view(*root), ws.take(wi as int), base);
                assert(ws.take(wi + 1).drop_last() =~= ws.take(wi as int));
                let ambiguous = analyses.len() > 1;
                let sa = self.full_analysis(id, seg, stem, root, &wazans[wi], ambiguous);
                proof {
                    let a = AnalysisPlan::Full { stem: s, seg_id, root: root_view(*root), wazan: ws[wi as int], ambiguous };
                    lemma_plan_push(analyses@, before, kb, id, sa, a);
                }
                analyses.push(sa);
            }
            assert(ws.take(nw as int) =~= ws);
            assert(rs.take(ri + 1).drop_last() =~= rs.take(ri as int));
        }
        assert(rs.take(nr as int) =~= rs);
    }

    /// Appends the analyses, or the unknown stem, of segmentation `j` of `tok`.
    fn analyze_segmentation(
        &self,
        tok: &SegmentedToken,
        j: usize,
        lx: &Lexicon,
        analyses: &mut Vec<StemAnalysis>,
        unknown: &mut Vec<Vec<char>>,
    )
        requires
            j < tok.segmentations@.len(),
            lexicon_ok(*lx),
            plan_matches(old(analyses)@, segmentation_fold(self.config, self.kb, *tok, j as int).0, self.kb, tok.raw_token.id),
            table_view(old(unknown)@) == segmentation_fold(self.config, self.kb, *tok, j as int).1,
        ensures
            plan_matches(final(analyses)@, segmentation_fold(self.config, self.kb, *tok, j + 1).0, self.kb, tok.raw_token.id),
            table_view(final(unknown)@) == segmentation_fold(self.config, self.kb, *tok, j + 1).1,
    {
        let ghost cfg = self.config;
        let ghost kb = self.kb;
        let id = tok.raw_token.id;
        let ghost acc0 = segmentation_fold(cfg, kb, *tok, j as int).0;
        let seg = &tok.segmentations[j];
        let stem = stem_text_of(seg, &tok.raw_token.text);
        let ghost s = stem@;
        let ghost seg_id = seg.id@;
        match self.check_fast_path(&stem, seg) {
            Some(sa) => {
                proof {
                    let a = AnalysisPlan::FastPath { stem: s, seg_id, pos: fast_path_pos(s).unwrap() };
                    assert(analysis_is(sa, a, kb, id));
                    lemma_plan_push(analyses@, acc0, kb, id, sa, a);
                }
                analyses.push(sa);
            },
            None => {
                let roots = self.extract_roots(&stem);
                let ghost rs = roots_view(roots@);
                if roots.len() == 0 && !self.config.enable_guess {
                    let ghost before = unknown@;
                    unknown.push(stem);
                    assert(table_view(unknown@) =~= table_view(before).push(s));
                } else {
                    self.analyze_roots(id, seg, &stem, &roots, lx, analyses, Ghost(acc0));
                    if analyses.len() == 0 && roots.len() > 0 {
                        let sa = self.make_partial_analysis(tok, seg, &stem, &roots[0]);
                        proof {
                            let a = AnalysisPlan::Partial { stem: s, seg_id, root: rs[0] };
                            lemma_plan_push(analyses@, root_fold(cfg, kb, s, seg_id, rs, acc0), kb, id, sa, a);
                        }
                        analyses.push(sa);
                    }
                }
            },
        }
    }

    /// The analyses of one word token, and the stems of its segmentations
    /// for which no root was found.
    fn analyze_token(&self, tok: &SegmentedToken, lx: &Lexicon) -> (r: (Vec<StemAnalysis>, Vec<Vec<char>>))
        requires
            lexicon_ok(*lx),
        ensures
            plan_matches(r.0@, token_plan(self.config, self.kb, *tok).0, self.kb, tok.raw_token.id),
            table_view(r.1@) == token_plan(self.config, self.kb, *tok).1,
    {
        let mut analyses: Vec<StemAnalysis> = Vec::new();
        let mut unknown: Vec<Vec<char>> = Vec::new();
        let n = tok.segmentations.len();
        assert(table_view(unknown@) =~= Seq::<Seq<char>>::empty());
        for j in 0..n
            invariant
                n == tok.segmentations@.len(),
                lexicon_ok(*lx),
                plan_matches(analyses@, segmentation_fold(self.config, self.kb, *tok, j as int).0, self.kb, tok.raw_token.id),
                table_view(unknown@) == segmentation_fold(self.config, self.kb, *tok, j as int).1,
        {
            self.analyze_segmentation(tok, j, lx, &mut analyses, &mut unknown);
        }
        (analyses, unknown)
    }
}

/// A word token with more analyses than `cfg` allows.
pub open spec fn over_limit(cfg: MorphologicalParserConfig, kb: Option<Kb0004>, t: SegmentedToken) -> bool {
    t.raw_token.token_type == TokenType::Word && token_plan(cfg, kb, t).0.len() > cfg.max_analyses
}

/// The word tokens of `toks` that get at least one analysis, in order.
pub open spec fn analyzed_tokens(cfg: MorphologicalParserConfig, kb: Option<Kb0004>, toks: Seq<SegmentedToken>) -> Seq<SegmentedToken>
    decreases toks.len(),
{
    if toks.len() == 0 {
        Seq::empty()
    } else {
        let a = analyzed_tokens(cfg, kb, toks.drop_last());
        let t = toks.last();
        if t.raw_token.token_type == TokenType::Word && token_plan(cfg, kb, t).0.len() > 0 {
            a.push(t)
        } else {
            a
        }
    }
}

/// The stems of the word tokens of `toks` for which no root was found, in order.
pub open spec fn unknown_stems_of(cfg: MorphologicalParserConfig, kb: Option<Kb0004>, toks: Seq<SegmentedToken>) -> Seq<Seq<char>>
    decreases toks.len(),
{
    if toks.len() == 0 {
        Seq::empty()
    } else {
        let u = unknown_stems_of(cfg, kb, toks.drop_last());
        let t = toks.last();
        if t.raw_token.token_type == TokenType::Word {
            u + token_plan(cfg, kb, t).1
        } else {
            u
        }
    }
}

/// How many tokens of `ts` have more than one analysis.
pub open spec fn ambiguous_count(cfg: MorphologicalParserConfig, kb: Option<Kb0004>, ts: Seq<SegmentedToken>) -> nat
    decreases ts.len(),
{
    if ts.len() == 0 {
        0
    } else {
        ambiguous_count(cfg, kb, ts.drop_last()) + if token_plan(cfg, kb, ts.last()).0.len() > 1 {
            1nat
        } else {
            0nat
        }
    }
}

/// `ta` holds the analyses planned for token `t`.
pub open spec fn token_analysis_is(ta: TokenAnalysis, cfg: MorphologicalParserConfig, kb: Option<Kb0004>, t: SegmentedToken) -> bool {
    &&& ta.token_id == t.raw_token.id
    &&& plan_matches(ta.stem_analyses@, token_plan(cfg, kb, t).0, kb, t.raw_token.id)
}

/// `out` is the analysis of `toks` when no token is over the limit.
pub open spec fn morph_output(
    cfg: MorphologicalParserConfig,
    kb: Option<Kb0004>,
    toks: Seq<SegmentedToken>,
    out: MorphologicalAnalysis,
) -> bool {
    let an = analyzed_tokens(cfg, kb, toks);
    let stems = strings_view(out.metadata.unknown_stems@);
    &&& out.spec@ == "SPEC-0001"@
    &&& out.version@ == "1.0"@
    &&& out.token_analyses@.len() == an.len()
    &&& forall|k: int| 0 <= k < an.len() ==> token_analysis_is(#[trigger] out.token_analyses@[k], cfg, kb, an[k])
    &&& out.metadata.total_tokens == toks.len()
    &&& out.metadata.analyzed_tokens == an.len()
    &&& out.metadata.ambiguous_tokens == ambiguous_count(cfg, kb, an)
    &&& strictly_sorted(stems)
    &&& stems.to_set() == unknown_stems_of(cfg, kb, toks).to_set()
    &&& out.metadata.unknown_tokens == stems.len()
}

/// What analysing `toks` gives: the error for the first word token with more
/// analyses than allowed, else the analysis.
pub open spec fn analysis_outcome(
    cfg: MorphologicalParserConfig,
    kb: Option<Kb0004>,
    toks: Seq<SegmentedToken>,
    r: PipelineResult<MorphologicalAnalysis>,
) -> bool {
    if exists|i: int| 0 <= i < toks.len() && over_limit(cfg, kb, #[trigger] toks[i]) {
        let i = choose|i: int|
            0 <= i < toks.len() && over_limit(cfg, kb, #[trigger] toks[i]) && forall|j: int|
                0 <= j < i ==> !over_limit(cfg, kb, #[trigger] toks[j]);
        r matches Err(e) && is_morph_pipeline_error(
            MorphError::MaxAnalysesExceeded {
                token_id: toks[i].raw_token.id,
                limit: cfg.max_analyses,
                actual: token_plan(cfg, kb, toks[i]).0.len() as usize,
            },
            "MOD-04"@,
            e,
        )
    } else {
        r matches Ok(out) && morph_output(cfg, kb, toks, out)
    }
}

fn append_table(out: &mut Vec<Vec<char>>, items: Vec<Vec<char>>)
    ensures
        table_view(final(out)@) == table_view(old(out)@) + table_view(items@),
{
    let ghost start = table_view(out@);
    let ghost iv = table_view(items@);
    for x in it: items.into_iter()
        invariant
            it.seq() == items@,
            iv == table_view(items@),
            table_view(out@) == start + iv.take(it.index() as int),
    {
        let ghost before = out@;
        let ghost k: int = it.index() as int;
        out.push(x);
        assert(table_view(out@) =~= table_view(before).push(x@));
        assert(iv.take(k + 1) =~= iv.take(k).push(x@));
    }
    assert(iv.take(iv.len() as int) =~= iv);
}

/// The distinct entries of `items`, in ascending order, as strings.
fn sorted_unique_strings(items: &Vec<Vec<char>>) -> (r: Vec<String>)
    ensures
        strictly_sorted(strings_view(r@)),
        strings_view(r@).to_set() == table_view(items@).to_set(),
{
    let ghost iv = table_view(items@);
    let mut sorted: Vec<Vec<char>> = Vec::new();
    assert(table_view(sorted@) =~= Seq::<Seq<char>>::empty());
    assert(iv.take(0).to_set() =~= Set::<Seq<char>>::empty());
    for i in 0..items.len()
        invariant
            iv == table_view(items@),
            strictly_sorted(table_view(sorted@)),
            table_view(sorted@).to_set() == iv.take(i as int).to_set(),
    {
        let x = chars_range(&items[i], 0, items[i].len());
        assert(items[i as int]@.subrange(0, items[i as int]@.len() as int) =~= items[i as int]@);
        insert_sorted_unique(&mut sorted, x);
        assert(iv.take(i + 1) =~= iv.take(i as int).push(iv[i as int]));
        proof {
            iv.take(i as int).lemma_push_to_set_commute(iv[i as int]);
        }
    }
    assert(iv.take(items@.len() as int) =~= iv);
    let ghost sv = table_view(sorted@);
    let mut out: Vec<String> = Vec::new();
    for j in 0..sorted.len()
        invariant
            sv == table_view(sorted@),
            strings_view(out@) == sv.take(j as int),
    {
        let ghost before = out@;
        out.push(string_from_chars(sorted[j].as_slice()));
        assert(strings_view(out@) =~= strings_view(before).push(sv[j as int]));
        assert(sv.take(j + 1) =~= sv.take(j as int).push(sv[j as int]));
    }
    assert(sv.take(sorted@.len() as int) =~= sv);
    out
}

impl MorphologicalParser {
    /// Analyses the morphology of every word token of a segmented stream.
    ///
    /// Fails with `MaxAnalysesExceeded` at the first word token that has more
    /// analyses than `config.max_analyses`.
    #[verifier::rlimit(40)]
    pub fn analyze(&self, input: SegmentedTokenStream) -> (r: PipelineResult<MorphologicalAnalysis>)
        ensures
            analysis_outcome(self.config, self.kb, input.tokens@, r),
    {
        let lx = lexicon();
        let ghost toks = input.tokens@;
        let ghost cfg = self.config;
        let ghost kb = self.kb;
        let mut token_analyses: Vec<TokenAnalysis> = Vec::new();
        let mut unknown: Vec<Vec<char>> = Vec::new();
        let mut ambiguous: u64 = 0;
        let n = input.tokens.len();
        assert(toks.take(0) =~= Seq::<SegmentedToken>::empty());
        assert(table_view(unknown@) =~= Seq::<Seq<char>>::empty());
        for i in 0..n
            invariant
                n == toks.len(),
                toks == input.tokens@,
                cfg == self.config,
                kb == self.kb,
                lexicon_ok(lx),
                forall|j: int| 0 <= j < i ==> !over_limit(cfg, kb, #[trigger] toks[j]),
                token_analyses@.len() == analyzed_tokens(cfg, kb, toks.take(i as int)).len(),
                forall|k: int| 0 <= k < token_analyses@.len() ==> token_analysis_is(
                    #[trigger] token_analyses@[k], cfg, kb, analyzed_tokens(cfg, kb, toks.take(i as int))[k]),
                table_view(unknown@) == unknown_stems_of(cfg, kb, toks.take(i as int)),
                ambiguous == ambiguous_count(cfg, kb, analyzed_tokens(cfg, kb, toks.take(i as int))),
                ambiguous <= token_analyses@.len() <= i,
        {
            let ghost pre = toks.take(i as int);
            let ghost an0 = analyzed_tokens(cfg, kb, pre);
            let tok = &input.tokens[i];
            assert(toks.take(i + 1).drop_last() =~= pre);
            assert(toks.take(i + 1).last() == toks[i as int]);
            if tok.raw_token.token_type == TokenType::Word {
                let (analyses, unk) = self.analyze_token(tok, &lx);
                if analyses.len() > self.config.max_analyses {
                    proof {
                        assert(over_limit(cfg, kb, toks[i as int]));
                        let c = choose|c: int|
                            0 <= c < toks.len() && over_limit(cfg, kb, #[trigger] toks[c]) && forall|j: int|
                                0 <= j < c ==> !over_limit(cfg, kb, #[trigger] toks[j]);
                        if c < i {
                            assert(!over_limit(cfg, kb, toks[c]));
                        } else if c > i {
                            assert(!over_limit(cfg, kb, toks[i as int]));
                        }
                        assert(c == i);
                    }
                    return Err(
                        MorphError::MaxAnalysesExceeded {
                            token_id: tok.raw_token.id,
                            limit: self.config.max_analyses,
                            actual: analyses.len(),
                        }.into_pipeline("MOD-04"),
                    );
                }
                append_table(&mut unknown, unk);
                if analyses.len() > 0 {
                    if analyses.len() > 1 {
                        ambiguous = ambiguous + 1;
                    }
                    let ghost before = token_analyses@;
                    token_analyses.push(TokenAnalysis { token_id: tok.raw_token.id, stem_analyses: analyses });
                    assert(analyzed_tokens(cfg, kb, toks.take(i + 1)) == an0.push(toks[i as int]));
                    assert forall|k: int| 0 <= k < token_analyses@.len() implies token_analysis_is(
                        #[trigger] token_analyses@[k], cfg, kb, analyzed_tokens(cfg, kb, toks.take(i + 1))[k]) by {
                        if k < before.len() {
                            assert(token_analyses@[k] == before[k]);
                        }
                    }
                    assert(an0.push(toks[i as int]).drop_last() =~= an0);
                }
            }
        }
        assert(toks.take(n as int) =~= toks);
        let unknown_stems = sorted_unique_strings(&unknown);
        let analyzed = token_analyses.len() as u64;
        let unknown_count = unknown_stems.len() as u64;
        proof {
            assert(!exists|i: int| 0 <= i < toks.len() && over_limit(cfg, kb, #[trigger] toks[i]));
        }
        Ok(
            MorphologicalAnalysis {
                spec: owned("SPEC-0001"),
                version: owned("1.0"),
                token_analyses,
                metadata: MorphologicalAnalysisMetadata {
                    total_tokens: n as u64,
                    analyzed_tokens: analyzed,
                    ambiguous_tokens: ambiguous,
                    unknown_tokens: unknown_count,
                    unknown_stems,
                },
            },
        )
    }
}

/// Whether `path` names an existing directory (std `Path::is_dir`, which
/// reads the file system). Nothing is stated of the result: it depends on
/// what is on disk when the call is made.
#[verifier::external_body]
fn is_directory(path: &str) -> (r: bool) {
    std::path::Path::new(path).is_dir()
}

/// The message of the error for a missing KB-0004 directory.
pub open spec fn kb_dir_message(path: Seq<char>) -> Seq<char> {
    "KB-0004 directory not found or is not a directory: "@ + path
}

impl MorphologicalParser {
    /// A parser with `config` and no KB-0004.
    pub fn new(config: MorphologicalParserConfig) -> (r: Self)
        ensures
            r.config == config,
            r.kb is None,
    {
        Self { config, kb: None }
    }

    /// A parser with `config` that consults `kb` before its built-in lists.
    pub fn with_kb(config: MorphologicalParserConfig, kb: Kb0004) -> (r: Self)
        ensures
            r.config == config,
            r.kb == Some(kb),
    {
        Self { config, kb: Some(kb) }
    }

    /// Checks the configuration, given whether the KB-0004 directory exists:
    /// `max_analyses` must be positive, and an enabled KB-0004 needs its directory.
    pub fn check_config(&self, kb_dir_present: bool) -> (r: PipelineResult<()>)
        ensures
            self.config.max_analyses == 0 ==> (r matches Err(e) && crate::error::is_plain_error(
                e,
                codes::INVALID_REQUEST@,
                "MorphologicalParserConfig.max_analyses must be > 0"@,
                "MOD-04"@,
                true,
            )),
            self.config.max_analyses > 0 && self.config.kb_config.enabled && !kb_dir_present ==> (r matches Err(e)
                && crate::error::is_plain_error(
                e,
                codes::KB_LOAD_FAILURE@,
                kb_dir_message(self.config.kb_config.path@),
                "MOD-04"@,
                true,
            )),
            self.config.max_analyses > 0 && (!self.config.kb_config.enabled || kb_dir_present) ==> r is Ok,
    {
        if self.config.max_analyses == 0 {
            return Err(
                PipelineError::fatal(
                    codes::INVALID_REQUEST,
                    "MorphologicalParserConfig.max_analyses must be > 0",
                    "MOD-04",
                ),
            );
        }
        if self.config.kb_config.enabled && !kb_dir_present {
            let path = chars_of(self.config.kb_config.path.as_str());
            let message = joined("KB-0004 directory not found or is not a directory: ", &path);
            return Err(PipelineError::fatal(codes::KB_LOAD_FAILURE, message.as_str(), "MOD-04"));
        }
        Ok(())
    }
}

impl PipelineStage<SegmentedTokenStream, MorphologicalAnalysis> for MorphologicalParser {
    fn stage_id(&self) -> (r: &'static str)
        ensures
            r@ == "MOD-04"@,
    {
        "MOD-04"
    }

    fn process(&self, input: SegmentedTokenStream, ctx: &PipelineContext) -> (r: PipelineResult<
        MorphologicalAnalysis,
    >)
        ensures
            analysis_outcome(self.config, self.kb, input.tokens@, r),
    {
        self.analyze(input)
    }

    /// Checks the configuration; an enabled KB-0004 is looked for on disk.
    fn validate_config(&self, ctx: &PipelineContext) -> (r: PipelineResult<()>)
        ensures
            self.config.max_analyses == 0 ==> (r matches Err(e) && crate::error::is_plain_error(
                e,
                codes::INVALID_REQUEST@,
                "MorphologicalParserConfig.max_analyses must be > 0"@,
                "MOD-04"@,
                true,
            )),
            self.config.max_analyses > 0 && !self.config.kb_config.enabled ==> r is Ok,
            self.config.max_analyses > 0 && self.config.kb_config.enabled ==> (r is Ok || (r matches Err(e)
                && crate::error::is_plain_error(
                e,
                codes::KB_LOAD_FAILURE@,
                kb_dir_message(self.config.kb_config.path@),
                "MOD-04"@,
                true,
            ))),
    {
        let present = if self.config.max_analyses > 0 && self.config.kb_config.enabled {
            is_directory(self.config.kb_config.path.as_str())
        } else {
            true
        };
        self.check_config(present)
    }
}

impl Default for MorphologicalParser {
    /// A parser with the default configuration, which loads no KB-0004.
    fn default() -> (r: Self)
        ensures
            r.config.school == GrammarSchool::Basra,
            r.config.max_analyses == 256,
            !r.config.enable_guess,
            r.config.enable_weak_heuristics,
            r.config.enable_hamza_heuristics,
            r.config.enable_geminate_heuristics,
            r.config.max_root_candidates == 8,
            r.config.max_wazan_candidates == 16,
            !r.config.kb_config.enabled,
            r.kb is None,
    {
        Self::new(MorphologicalParserConfig::default())
    }
}

/// The unknown stems of an analysis are determined by its input: any two
/// outputs allowed for the same tokens list the same stems in the same order.
pub proof fn lemma_unknown_stems_determined(
    cfg: MorphologicalParserConfig,
    kb: Option<Kb0004>,
    toks: Seq<SegmentedToken>,
    a: MorphologicalAnalysis,
    b: MorphologicalAnalysis,
)
    requires
        morph_output(cfg, kb, toks, a),
        morph_output(cfg, kb, toks, b),
    ensures
        strings_view(a.metadata.unknown_stems@) == strings_view(b.metadata.unknown_stems@),
        a.metadata.unknown_tokens == b.metadata.unknown_tokens,
{
    crate::text::lemma_strictly_sorted_unique(
        strings_view(a.metadata.unknown_stems@),
        strings_view(b.metadata.unknown_stems@),
    );
}

proof fn lemma_analyzed_from_input(cfg: MorphologicalParserConfig, kb: Option<Kb0004>, toks: Seq<SegmentedToken>)
    ensures
        forall|i: int| 0 <= i < analyzed_tokens(cfg, kb, toks).len() ==> exists|k: int|
            0 <= k < toks.len() && #[trigger] analyzed_tokens(cfg, kb, toks)[i] == toks[k],
    decreases toks.len(),
{
    if toks.len() > 0 {
        let t = toks.drop_last();
        lemma_analyzed_from_input(cfg, kb, t);
        let a = analyzed_tokens(cfg, kb, t);
        assert forall|i: int| 0 <= i < analyzed_tokens(cfg, kb, toks).len() implies exists|k: int|
            0 <= k < toks.len() && #[trigger] analyzed_tokens(cfg, kb, toks)[i] == toks[k] by {
            if i < a.len() {
                let k = choose|k: int| 0 <= k < t.len() && #[trigger] a[i] == t[k];
                assert(toks[k] == t[k]);
            } else {
                assert(analyzed_tokens(cfg, kb, toks)[i] == toks[toks.len() - 1]);
            }
        }
    }
}

/// Tokens with distinct ids give token analyses with distinct ids.
pub proof fn lemma_analyzed_ids_distinct(
    cfg: MorphologicalParserConfig,
    kb: Option<Kb0004>,
    toks: Seq<SegmentedToken>,
)
    requires
        forall|i: int, j: int| 0 <= i < j < toks.len() ==> #[trigger] toks[i].raw_token.id != #[trigger] toks[j].raw_token.id,
    ensures
        forall|i: int, j: int|
            0 <= i < j < analyzed_tokens(cfg, kb, toks).len() ==> #[trigger] analyzed_tokens(cfg, kb, toks)[i].raw_token.id
                != #[trigger] analyzed_tokens(cfg, kb, toks)[j].raw_token.id,
    decreases toks.len(),
{
    if toks.len() > 0 {
        let t = toks.drop_last();
        assert forall|i: int, j: int| 0 <= i < j < t.len() implies #[trigger] t[i].raw_token.id != #[trigger] t[j].raw_token.id by {
            assert(t[i] == toks[i] && t[j] == toks[j]);
        }
        lemma_analyzed_ids_distinct(cfg, kb, t);
        lemma_analyzed_from_input(cfg, kb, t);
        let a = analyzed_tokens(cfg, kb, t);
        let full = analyzed_tokens(cfg, kb, toks);
        assert forall|i: int, j: int| 0 <= i < j < full.len() implies #[trigger] full[i].raw_token.id != #[trigger] full[j].raw_token.id by {
            if j >= a.len() {
                let k = choose|k: int| 0 <= k < t.len() && #[trigger] a[i] == t[k];
                assert(full[i] == a[i]);
                assert(full[j] == toks[toks.len() - 1]);
                assert(toks[k] == t[k]);
            } else {
                assert(full[i] == a[i] && full[j] == a[j]);
            }
        }
    }
}

/// Analysing tokens with distinct ids yields token analyses with distinct
/// ids, so the syntax stage parses every analyzed token.
pub proof fn lemma_every_analysis_reaches_syntax(
    cfg: MorphologicalParserConfig,
    kb: Option<Kb0004>,
    toks: Seq<SegmentedToken>,
    out: MorphologicalAnalysis,
)
    requires
        morph_output(cfg, kb, toks, out),
        forall|i: int, j: int| 0 <= i < j < toks.len() ==> #[trigger] toks[i].raw_token.id != #[trigger] toks[j].raw_token.id,
    ensures
        crate::syntax_parser::sorted_token_ids(out.token_analyses@).len() == out.metadata.analyzed_tokens,
{
    lemma_analyzed_ids_distinct(cfg, kb, toks);
    let tas = out.token_analyses@;
    let an = analyzed_tokens(cfg, kb, toks);
    assert forall|i: int, j: int| 0 <= i < j < tas.len() implies #[trigger] tas[i].token_id != #[trigger] tas[j].token_id by {
        assert(token_analysis_is(tas[i], cfg, kb, an[i]));
        assert(token_analysis_is(tas[j], cfg, kb, an[j]));
    }
    crate::syntax_parser::lemma_every_analyzed_token_parsed(tas);
}

} // verus!
