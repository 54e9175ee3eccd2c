//! Entry types of the eight knowledge bases, the generic store that holds a
//! loaded base, and the identifiers that name each base and its file.

use vstd::prelude::*;

use crate::feature::{AgreementRule, FeatureConstraint, FeatureDefinition, InferenceRule};
use crate::version::SemVer;

verus! {

/// Identifier of each knowledge base.
#[derive(Debug, Clone, Copy, PartialEq, Eq, Hash, Structural)]
pub enum KbId {
    Kb0001,
    Kb0002,
    Kb0003,
    Kb0004,
    Kb0005,
    Kb0006,
    Kb0007,
    Kb0008,
}

/// The canonical code of a knowledge base ("KB-0001" ...).
pub open spec fn kb_code(k: KbId) -> Seq<char> {
    match k {
        KbId::Kb0001 => "KB-0001"@,
        KbId::Kb0002 => "KB-0002"@,
        KbId::Kb0003 => "KB-0003"@,
        KbId::Kb0004 => "KB-0004"@,
        KbId::Kb0005 => "KB-0005"@,
        KbId::Kb0006 => "KB-0006"@,
        KbId::Kb0007 => "KB-0007"@,
        KbId::Kb0008 => "KB-0008"@,
    }
}

/// The human-readable name of a knowledge base.
pub open spec fn kb_name(k: KbId) -> Seq<char> {
    match k {
        KbId::Kb0001 => "Roots"@,
        KbId::Kb0002 => "Wazan"@,
        KbId::Kb0003 => "VerbForms"@,
        KbId::Kb0004 => "NounPatterns"@,
        KbId::Kb0005 => "Particles"@,
        KbId::Kb0006 => "Pronouns"@,
        KbId::Kb0007 => "Features"@,
        KbId::Kb0008 => "ParticlesDev"@,
    }
}

/// The storage file name of a knowledge base, without extension.
pub open spec fn kb_file_stem(k: KbId) -> Seq<char> {
    match k {
        KbId::Kb0001 => "kb-0001-roots"@,
        KbId::Kb0002 => "kb-0002-wazan"@,
        KbId::Kb0003 => "kb-0003-verb-forms"@,
        KbId::Kb0004 => "kb-0004-noun-patterns"@,
        KbId::Kb0005 => "kb-0005-particles"@,
        KbId::Kb0006 => "kb-0006-pronouns"@,
        KbId::Kb0007 => "kb-0007-features"@,
        KbId::Kb0008 => "kb-0008-particles-dev"@,
    }
}

impl KbId {
    /// The canonical code (e.g. "KB-0001").
    pub fn as_str(&self) -> (r: &'static str)
        ensures
            r@ == kb_code(*self),
    {
        match self {
            KbId::Kb0001 => "KB-0001",
            KbId::Kb0002 => "KB-0002",
            KbId::Kb0003 => "KB-0003",
            KbId::Kb0004 => "KB-0004",
            KbId::Kb0005 => "KB-0005",
            KbId::Kb0006 => "KB-0006",
            KbId::Kb0007 => "KB-0007",
            KbId::Kb0008 => "KB-0008",
        }
    }

    /// The human-readable name (e.g. "Roots").
    pub fn name(&self) -> (r: &'static str)
        ensures
            r@ == kb_name(*self),
    {
        match self {
            KbId::Kb0001 => "Roots",
            KbId::Kb0002 => "Wazan",
            KbId::Kb0003 => "VerbForms",
            KbId::Kb0004 => "NounPatterns",
            KbId::Kb0005 => "Particles",
            KbId::Kb0006 => "Pronouns",
            KbId::Kb0007 => "Features",
            KbId::Kb0008 => "ParticlesDev",
        }
    }

    /// The storage file name, without extension.
    pub fn file_name(&self) -> (r: &'static str)
        ensures
            r@ == kb_file_stem(*self),
    {
        match self {
            KbId::Kb0001 => "kb-0001-roots",
            KbId::Kb0002 => "kb-0002-wazan",
            KbId::Kb0003 => "kb-0003-verb-forms",
            KbId::Kb0004 => "kb-0004-noun-patterns",
            KbId::Kb0005 => "kb-0005-particles",
            KbId::Kb0006 => "kb-0006-pronouns",
            KbId::Kb0007 => "kb-0007-features",
            KbId::Kb0008 => "kb-0008-particles-dev",
        }
    }

    /// The extension of a compiled knowledge-base file.
    pub fn extension(&self) -> (r: &'static str)
        ensures
            r@ == "agos-kb"@,
    {
        "agos-kb"
    }
}

/// Distinct knowledge bases have distinct codes, names and file names.
pub proof fn lemma_kb_ids_distinct(a: KbId, b: KbId)
    requires
        a != b,
    ensures
        kb_code(a) != kb_code(b),
        kb_name(a) != kb_name(b),
        kb_file_stem(a) != kb_file_stem(b),
{
    reveal_strlit("KB-0001");
    reveal_strlit("KB-0002");
    reveal_strlit("KB-0003");
    reveal_strlit("KB-0004");
    reveal_strlit("KB-0005");
    reveal_strlit("KB-0006");
    reveal_strlit("KB-0007");
    reveal_strlit("KB-0008");
    reveal_strlit("Roots");
    reveal_strlit("Wazan");
    reveal_strlit("VerbForms");
    reveal_strlit("NounPatterns");
    reveal_strlit("Particles");
    reveal_strlit("Pronouns");
    reveal_strlit("Features");
    reveal_strlit("ParticlesDev");
    reveal_strlit("kb-0001-roots");
    reveal_strlit("kb-0002-wazan");
    reveal_strlit("kb-0003-verb-forms");
    reveal_strlit("kb-0004-noun-patterns");
    reveal_strlit("kb-0005-particles");
    reveal_strlit("kb-0006-pronouns");
    reveal_strlit("kb-0007-features");
    reveal_strlit("kb-0008-particles-dev");
    if kb_code(a) == kb_code(b) {
        assert(kb_code(a)[6] != kb_code(b)[6]);
    }
    if kb_name(a) == kb_name(b) {
        assert(kb_name(a).len() != kb_name(b).len() || kb_name(a)[0] != kb_name(b)[0] || kb_name(a)[1]
            != kb_name(b)[1] || kb_name(a)[kb_name(a).len() - 1] != kb_name(b)[kb_name(b).len() - 1]);
    }
    if kb_file_stem(a) == kb_file_stem(b) {
        assert(kb_file_stem(a)[6] != kb_file_stem(b)[6]);
    }
}

/// Format of a compiled knowledge base's data section.
#[derive(Debug, Clone, Copy, PartialEq, Eq, Structural)]
pub enum KbFormat {
    BinaryTrie,
    HashIndex,
    TableBinary,
    FeatureMap,
    CompiledKb,
}

/// Metadata of a compiled knowledge-base file.
pub struct KbMetadata {
    /// Knowledge-base identifier
    pub kb_id: KbId,
    /// Semantic version of this knowledge base
    pub version: SemVer,
    /// Name of the knowledge base
    pub name: String,
    /// Description of its contents
    pub description: String,
    /// SHA-256 checksum of the content
    pub checksum_sha256: String,
    /// Format of the compiled data
    pub format: KbFormat,
    /// Number of entries
    pub entry_count: u64,
    /// Compilation timestamp (ISO 8601)
    pub compiled_at: String,
    /// Dependency versions (knowledge-base code to minimum version)
    pub dependencies: vstd::hash_map::StringHashMap<String>,
    /// Version of the compiler that produced the file
    pub compiler_version: String,
}

/// An empty dependency map, for building metadata.
pub fn dependency_map() -> (r: vstd::hash_map::StringHashMap<String>)
    ensures
        r@ == Map::<Seq<char>, String>::empty(),
{
    vstd::hash_map::StringHashMap::new()
}

// KB-0001: roots.

/// A root entry of KB-0001.
#[derive(Debug, Clone)]
pub struct RootEntry {
    pub id: String,
    /// Root consonants
    pub root: String,
    pub root_type: RootType,
    /// Primary meaning in English
    pub meaning: String,
    /// Arabic meaning or gloss
    pub meaning_ar: Option<String>,
    /// Verb forms (I to XV) this root takes
    pub verb_forms: Vec<u8>,
    pub derived_nouns: Vec<String>,
    pub semantic_field: Option<String>,
    pub cognates: Vec<String>,
    pub cross_references: RootCrossReferences,
    pub attestations: Vec<String>,
}

/// Cross-references of a root entry.
#[derive(Debug, Clone)]
pub struct RootCrossReferences {
    pub related_roots: Vec<String>,
    pub antonyms: Vec<String>,
    pub synonyms: Vec<String>,
}

/// Root type classification of KB-0001.
#[derive(Debug, Clone, Copy, PartialEq, Eq, Structural)]
pub enum RootType {
    Sound,
    WeakInitial,
    WeakMiddle,
    WeakFinal,
    Hamzated,
    Doubled,
    SoundQuadriliteral,
    WeakQuadriliteral,
    Unspecified,
}

// KB-0002: patterns.

/// A pattern (wazan) entry of KB-0002.
#[derive(Debug, Clone)]
pub struct WazanEntry {
    pub id: String,
    /// Pattern template
    pub pattern: String,
    pub pattern_type: PatternType,
    pub meaning: String,
    /// Verb form (I to XV) of a verb pattern
    pub form: Option<u8>,
    pub example: String,
    /// Signature hash for constant-time matching
    pub signature_hash: u64,
    /// Consonant/vowel skeleton
    pub phonological_template: String,
    pub weak_variants: Vec<String>,
}

/// Kind of morphological pattern.
#[derive(Debug, Clone, Copy, PartialEq, Eq, Structural)]
pub enum PatternType {
    VerbForm,
    NounPattern,
    WeakVariant,
    Quadriliteral,
}

// KB-0003: verb forms.

/// A conjugation paradigm of KB-0003.
#[derive(Debug, Clone)]
pub struct VerbParadigm {
    pub id: String,
    /// Verb form (I to XV)
    pub form: u8,
    pub class: ConjugationClass,
    pub root_type: RootType,
    /// The thirteen perfect slots (3ms, 3fs, 2ms, 2fs, 1s, 3md, 3fd, 2d, 3mp, 3fp, 2mp, 2fp, 1p)
    pub perfect: [String; 13],
    /// The thirteen imperfect slots
    pub imperfect: [String; 13],
    pub moods: MoodSlots,
}

/// Conjugation class of a verb.
#[derive(Debug, Clone, Copy, PartialEq, Eq, Structural)]
pub enum ConjugationClass {
    Sound,
    Hollow,
    Defective,
    Assimilated,
    Doubled,
    HamzatedFirst,
    HamzatedMid,
    HamzatedLast,
    LafifMafruq,
    LafifMakrun,
    SoundQuad,
    WeakQuad,
}

/// The mood conjugations of an imperfect verb, thirteen slots each.
#[derive(Debug, Clone)]
pub struct MoodSlots {
    pub indicative: [String; 13],
    pub subjunctive: [String; 13],
    pub jussive: [String; 13],
    pub energetic_i: [String; 13],
    pub energetic_ii: [String; 13],
}

// KB-0004: noun patterns.

/// A derived noun pattern of KB-0004.
#[derive(Debug, Clone)]
pub struct NounPatternEntry {
    pub id: String,
    pub noun_type: NounType,
    pub pattern: String,
    pub meaning: String,
    pub gender: NounGender,
    pub declension: DeclensionClass,
    pub feminine_form: Option<String>,
    pub sound_plural: Option<String>,
    pub broken_plurals: Vec<BrokenPluralMapping>,
    pub weak_variants: Vec<String>,
}

/// Noun type classification of KB-0004.
#[derive(Debug, Clone, Copy, PartialEq, Eq, Structural)]
pub enum NounType {
    Masdar,
    IsmFail,
    IsmMafUl,
    IsmMakan,
    IsmZaman,
    IsmAlah,
    SifahMushabbahah,
    Tafdil,
    Nisbah,
    JamTaksir,
    IsmMarrati,
    IsmHayati,
    Jins,
    IsmTasghir,
    NotANoun,
}

/// Grammatical gender of a noun.
#[derive(Debug, Clone, Copy, PartialEq, Eq, Structural)]
pub enum NounGender {
    Masculine,
    Feminine,
    Common,
}

/// Declension class of a noun.
#[derive(Debug, Clone, Copy, PartialEq, Eq, Structural)]
pub enum DeclensionClass {
    Triptote,
    Diptote,
    Indeclinable,
}

/// A broken plural pattern of a singular noun pattern.
#[derive(Debug, Clone)]
pub struct BrokenPluralMapping {
    pub plural_pattern: String,
    /// Frequency rank; 1 is the most common
    pub frequency: u8,
    pub notes: Option<String>,
}

// KB-0005: particles.

/// A particle entry of KB-0005.
#[derive(Debug, Clone)]
pub struct ParticleEntry {
    pub id: String,
    pub text: String,
    pub category: ParticleCategory,
    pub governance: ParticleGovernance,
    pub sub_type: Option<String>,
    pub meaning: String,
    pub notes: Option<String>,
    /// Homograph resolution score
    pub homograph_score: Option<u8>,
}

/// Functional category of a particle.
#[derive(Debug, Clone, Copy, PartialEq, Eq, Structural)]
pub enum ParticleCategory {
    Preposition,
    Conjunction,
    Subjunctive,
    Jussive,
    Conditional,
    Interrogative,
    Negative,
    Vocative,
    InnaSister,
    KanaSister,
    AnswerException,
    MasdarForming,
    Other,
}

/// The grammatical government of a particle.
#[derive(Debug, Clone)]
pub struct ParticleGovernance {
    /// Case governed (prepositions)
    pub case_government: Option<CaseGovernment>,
    /// Mood governed (subjunctive and jussive particles)
    pub mood_government: Option<MoodGovernment>,
    pub government_type: GovernmentType,
}

/// Case government.
#[derive(Debug, Clone, Copy, PartialEq, Eq, Structural)]
pub enum CaseGovernment {
    Genitive,
    Accusative,
    Nominative,
}

/// Mood government.
#[derive(Debug, Clone, Copy, PartialEq, Eq, Structural)]
pub enum MoodGovernment {
    Subjunctive,
    Jussive,
}

/// Kind of government.
#[derive(Debug, Clone, Copy, PartialEq, Eq, Structural)]
pub enum GovernmentType {
    Independent,
    RequiresComplement,
}

// KB-0006: pronouns.

/// A pronoun entry of KB-0006.
#[derive(Debug, Clone)]
pub struct PronounEntry {
    pub id: String,
    pub text: String,
    pub pronoun_type: PronounType,
    /// Person (1, 2 or 3)
    pub person: u8,
    pub number: PronounNumber,
    pub pronoun_gender: PronounGender,
    pub attachment: AttachmentType,
    pub phonetic_variants: Vec<String>,
    pub script_forms: Vec<String>,
}

/// Pronoun type classification.
#[derive(Debug, Clone, Copy, PartialEq, Eq, Structural)]
pub enum PronounType {
    PersonalAttached,
    PersonalDetached,
    Demonstrative,
    Relative,
    Interrogative,
    Conditional,
    Compound,
    NotAPronoun,
}

/// Pronoun number.
#[derive(Debug, Clone, Copy, PartialEq, Eq, Structural)]
pub enum PronounNumber {
    Singular,
    Dual,
    Plural,
}

/// Pronoun gender.
#[derive(Debug, Clone, Copy, PartialEq, Eq, Structural)]
pub enum PronounGender {
    Masculine,
    Feminine,
    Common,
}

/// How a pronoun attaches.
#[derive(Debug, Clone, Copy, PartialEq, Eq, Structural)]
pub enum AttachmentType {
    Standalone,
    Suffix,
    Prefix,
}

// KB-0007: features.

/// The KB-0007 feature database.
#[derive(Debug, Clone)]
pub struct FeatureDatabase {
    pub features: Vec<FeatureDefinition>,
    pub agreement_rules: Vec<AgreementRule>,
    pub inference_rules: Vec<InferenceRule>,
    pub constraints: Vec<FeatureConstraint>,
}

/// A loaded knowledge base.
pub enum KnowledgeBase {
    Roots(KbStore<RootEntry>),
    Wazan(KbStore<WazanEntry>),
    VerbForms(KbStore<VerbParadigm>),
    NounPatterns(KbStore<NounPatternEntry>),
    Particles(KbStore<ParticleEntry>),
    Pronouns(KbStore<PronounEntry>),
    Features(FeatureDatabase),
}

/// The entries of a loaded knowledge base, with an index from keys (root
/// text, particle text ...) to entry positions.
#[verifier::reject_recursive_types(T)]
pub struct KbStore<T> {
    pub metadata: KbMetadata,
    pub entries: Vec<T>,
    pub index: vstd::hash_map::StringHashMap<Vec<usize>>,
}

impl<T> KbStore<T> {
    /// An empty store with `metadata`.
    pub fn new(metadata: KbMetadata) -> (r: Self)
        ensures
            r.metadata == metadata,
            r.entries@ == Seq::<T>::empty(),
            r.index@ == Map::<Seq<char>, Vec<usize>>::empty(),
    {
        Self { metadata, entries: Vec::new(), index: vstd::hash_map::StringHashMap::new() }
    }

    /// The entry at position `index`, if there is one.
    pub fn get(&self, index: usize) -> (r: Option<&T>)
        ensures
            index < self.entries@.len() ==> r == Some(&self.entries@[index as int]),
            index >= self.entries@.len() ==> r is None,
    {
        if index < self.entries.len() {
            Some(&self.entries[index])
        } else {
            None
        }
    }

    /// The positions of the entries filed under `key`, if any.
    pub fn lookup(&self, key: &str) -> (r: Option<&Vec<usize>>)
        ensures
            self.index@.contains_key(key@) ==> r == Some(&self.index@[key@]),
            !self.index@.contains_key(key@) ==> r is None,
    {
        self.index.get(key)
    }

    /// The number of entries.
    pub fn len(&self) -> (r: usize)
        ensures
            r == self.entries@.len(),
    {
        self.entries.len()
    }

    /// Whether the store holds no entry.
    pub fn is_empty(&self) -> (r: bool)
        ensures
            r == (self.entries@.len() == 0),
    {
        self.entries.len() == 0
    }
}

} // verus!
