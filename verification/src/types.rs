//! Shared vocabulary of the pipeline: configuration enums, token and
//! morpheme kinds, parts of speech, syntactic roles and flags.

use vstd::prelude::*;

use crate::version::KnowledgeVersionMap;

verus! {

/// Log level for pipeline stages.
#[derive(Debug, Clone, Copy, PartialEq, Eq, Structural)]
pub enum LogLevel {
    Debug,
    Info,
    Warn,
    Error,
}

/// Base configuration for every pipeline stage.
pub struct StageConfig {
    /// Stage identifier (e.g., "MOD-01")
    pub stage_id: String,
    /// Versions of knowledge bases used by this stage
    pub knowledge_versions: KnowledgeVersionMap,
    /// Logging level for this stage
    pub log_level: LogLevel,
}

/// The grammar school configuration.
#[derive(Debug, Clone, Copy, PartialEq, Eq, Structural)]
pub enum GrammarSchool {
    Basra,
    Kufa,
    Baghdad,
    Andalus,
    Modern,
}

/// The lower-case name of a grammar school.
pub open spec fn school_name(s: GrammarSchool) -> Seq<char> {
    match s {
        GrammarSchool::Basra => "basra"@,
        GrammarSchool::Kufa => "kufa"@,
        GrammarSchool::Baghdad => "baghdad"@,
        GrammarSchool::Andalus => "andalus"@,
        GrammarSchool::Modern => "modern"@,
    }
}

impl GrammarSchool {
    pub fn as_str(&self) -> (r: &'static str)
        ensures
            r@ == school_name(*self),
    {
        match self {
            GrammarSchool::Basra => "basra",
            GrammarSchool::Kufa => "kufa",
            GrammarSchool::Baghdad => "baghdad",
            GrammarSchool::Andalus => "andalus",
            GrammarSchool::Modern => "modern",
        }
    }
}

/// Pipeline execution mode.
#[derive(Debug, Clone, Copy, PartialEq, Eq, Structural)]
pub enum PipelineMode {
    Full,
    MorphologyOnly,
    TokenizationOnly,
    SyntaxOnly,
}

/// Explanation output format.
#[derive(Debug, Clone, Copy, PartialEq, Eq, Structural)]
pub enum ExplanationFormat {
    Text,
    Html,
    Json,
    Pdf,
}

/// Supported explanation languages.
#[derive(Debug, Clone, PartialEq, Eq)]
pub enum ExplanationLanguage {
    Arabic,
    English,
    Urdu,
    Malay,
    Indonesian,
    French,
    Turkish,
    Other(String),
}

/// The language code of an explanation language.
pub open spec fn language_code(l: ExplanationLanguage) -> Seq<char> {
    match l {
        ExplanationLanguage::Arabic => "ar"@,
        ExplanationLanguage::English => "en"@,
        ExplanationLanguage::Urdu => "ur"@,
        ExplanationLanguage::Malay => "ms"@,
        ExplanationLanguage::Indonesian => "id"@,
        ExplanationLanguage::French => "fr"@,
        ExplanationLanguage::Turkish => "tr"@,
        ExplanationLanguage::Other(c) => c@,
    }
}

impl ExplanationLanguage {
    pub fn code(&self) -> (r: &str)
        ensures
            r@ == language_code(*self),
    {
        match self {
            ExplanationLanguage::Arabic => "ar",
            ExplanationLanguage::English => "en",
            ExplanationLanguage::Urdu => "ur",
            ExplanationLanguage::Malay => "ms",
            ExplanationLanguage::Indonesian => "id",
            ExplanationLanguage::French => "fr",
            ExplanationLanguage::Turkish => "tr",
            ExplanationLanguage::Other(c) => c.as_str(),
        }
    }
}

/// Raw token type classification.
#[derive(Debug, Clone, Copy, PartialEq, Eq, Structural)]
pub enum TokenType {
    Word,
    Punctuation,
    Number,
    Whitespace,
    Symbol,
    Unknown,
}

/// Morpheme type within a segmented token.
#[derive(Debug, Clone, Copy, PartialEq, Eq, Structural)]
pub enum MorphemeType {
    Prefix,
    Stem,
    Suffix,
    Clitic,
    Particle,
}

/// Part of speech; each determines which morphological features apply.
#[derive(Debug, Clone, Copy, PartialEq, Eq, Structural)]
pub enum PartOfSpeech {
    Verb,
    Noun,
    Particle,
    Pronoun,
    Adjective,
    Adverb,
    Preposition,
    Conjunction,
    ProperNoun,
    Interrogative,
    Unknown,
}

/// The numeric code of a part of speech in the feature bitfield (bits 0–3).
pub open spec fn pos_code(p: PartOfSpeech) -> u8 {
    match p {
        PartOfSpeech::Verb => 0,
        PartOfSpeech::Noun => 1,
        PartOfSpeech::Particle => 2,
        PartOfSpeech::Pronoun => 3,
        PartOfSpeech::Adjective => 4,
        PartOfSpeech::Adverb => 5,
        PartOfSpeech::Preposition => 6,
        PartOfSpeech::Conjunction => 7,
        PartOfSpeech::ProperNoun => 8,
        PartOfSpeech::Interrogative => 9,
        PartOfSpeech::Unknown => 15,
    }
}

/// The part of speech whose code is `c`; every code without one maps to `Unknown`.
pub open spec fn pos_from_code(c: u8) -> PartOfSpeech {
    if c == 0 {
        PartOfSpeech::Verb
    } else if c == 1 {
        PartOfSpeech::Noun
    } else if c == 2 {
        PartOfSpeech::Particle
    } else if c == 3 {
        PartOfSpeech::Pronoun
    } else if c == 4 {
        PartOfSpeech::Adjective
    } else if c == 5 {
        PartOfSpeech::Adverb
    } else if c == 6 {
        PartOfSpeech::Preposition
    } else if c == 7 {
        PartOfSpeech::Conjunction
    } else if c == 8 {
        PartOfSpeech::ProperNoun
    } else if c == 9 {
        PartOfSpeech::Interrogative
    } else {
        PartOfSpeech::Unknown
    }
}

impl PartOfSpeech {
    /// The numeric code used in the 64-bit feature bitfield (bits 0-3).
    pub fn code(&self) -> (r: u8)
        ensures
            r == pos_code(*self),
    {
        match self {
            PartOfSpeech::Verb => 0,
            PartOfSpeech::Noun => 1,
            PartOfSpeech::Particle => 2,
            PartOfSpeech::Pronoun => 3,
            PartOfSpeech::Adjective => 4,
            PartOfSpeech::Adverb => 5,
            PartOfSpeech::Preposition => 6,
            PartOfSpeech::Conjunction => 7,
            PartOfSpeech::ProperNoun => 8,
            PartOfSpeech::Interrogative => 9,
            PartOfSpeech::Unknown => 15,
        }
    }

    /// The part of speech with the numeric code `code`.
    pub fn from_code(code: u8) -> (r: Self)
        ensures
            r == pos_from_code(code),
    {
        match code {
            0 => PartOfSpeech::Verb,
            1 => PartOfSpeech::Noun,
            2 => PartOfSpeech::Particle,
            3 => PartOfSpeech::Pronoun,
            4 => PartOfSpeech::Adjective,
            5 => PartOfSpeech::Adverb,
            6 => PartOfSpeech::Preposition,
            7 => PartOfSpeech::Conjunction,
            8 => PartOfSpeech::ProperNoun,
            9 => PartOfSpeech::Interrogative,
            _ => PartOfSpeech::Unknown,
        }
    }
}

/// Decoding the code of a part of speech gives it back, and every code fits in
/// the four bits of the `pos` field.
pub proof fn lemma_pos_code_roundtrip(p: PartOfSpeech)
    ensures
        pos_from_code(pos_code(p)) == p,
        pos_code(p) < 16,
{
}

/// A code is the code of the part of speech it decodes to exactly when it is
/// 0 through 9 or 15; distinct parts of speech have distinct codes.
pub proof fn lemma_pos_code_injective(c: u8, p: PartOfSpeech, q: PartOfSpeech)
    ensures
        pos_code(pos_from_code(c)) == c <==> (c <= 9 || c == 15),
        pos_code(p) == pos_code(q) ==> p == q,
{
}

/// Syntactic role in Arabic grammar (i'rab).
#[derive(Debug, Clone, Copy, PartialEq, Eq, Structural)]
pub enum SyntacticRole {
    Mubtada,
    Khabar,
    FiL,
    Fail,
    MafulBiHi,
    MafulMutlaq,
    MafulFih,
    MafulLahu,
    MafulMahU,
    Hal,
    Tamyiz,
    Nat,
    Idafa,
    Mudaf,
    MudafIlayh,
    HarfJarr,
    Majrur,
    HarfNasb,
    HarfJazm,
    Zarf,
    Qayd,
    Takid,
    Badal,
    Atasf,
    Istithna,
    Nida,
    Jawab,
    Shart,
    Jaza,
    Sila,
    Rabits,
    Unknown,
}

/// Arabic sentence type classification.
#[derive(Debug, Clone, Copy, PartialEq, Eq, Structural)]
pub enum SentenceType {
    JumlahIsmiyyah,
    JumlahFiliyyah,
    JumlahShartiyyah,
    JumlahZarfiyyah,
    Phrase,
    Incomplete,
    Unknown,
}

/// Node type in a syntactic constituency tree.
#[derive(Debug, Clone, Copy, PartialEq, Eq, Structural)]
pub enum NodeType {
    Word,
    Phrase,
    Clause,
}

/// A grammatical flag raised during analysis.
#[derive(Debug, Clone)]
pub struct GrammaticalFlag {
    /// Severity of the flag
    pub flag_type: FlagSeverity,
    /// Machine-readable error/warning code
    pub code: String,
    /// Human-readable message
    pub message: String,
    /// Indices of affected tokens
    pub token_indices: Vec<usize>,
    /// ID of the rule that raised this flag
    pub rule_id: String,
}

/// Severity of a grammatical flag.
#[derive(Debug, Clone, Copy, PartialEq, Eq, Structural)]
pub enum FlagSeverity {
    Error,
    Warning,
    Info,
}

/// Confidence level for ambiguous analyses.
#[derive(Debug, Clone, Copy, PartialEq, Eq, Structural)]
pub enum Confidence {
    High,
    Medium,
    Low,
}

impl Confidence {
    /// The level as a fraction, in millionths: high 0.9, medium 0.6, low 0.3.
    pub fn as_millionths(&self) -> (r: u32)
        ensures
            r == match *self {
                Confidence::High => 900_000u32,
                Confidence::Medium => 600_000u32,
                Confidence::Low => 300_000u32,
            },
    {
        match self {
            Confidence::High => 900_000,
            Confidence::Medium => 600_000,
            Confidence::Low => 300_000,
        }
    }
}

/// Cache backend type.
#[derive(Debug, Clone, Copy, PartialEq, Eq, Structural)]
pub enum CacheBackend {
    Memory,
    Redis,
    Filesystem,
    Database,
}

} // verus!
