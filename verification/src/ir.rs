//! Intermediate representations passed between the pipeline stages.
//!
//! Confidences, which are fractions between 0 and 1, are held as integers in
//! millionths (0 to 1_000_000).

use vstd::prelude::*;

use crate::evidence::EvidenceEntry;
use crate::feature::NamedFeature;
use crate::types::{GrammaticalFlag, MorphemeType, NodeType, PartOfSpeech, SentenceType, SyntacticRole, TokenType};
use crate::version::KnowledgeVersionMap;

verus! {

// IR-1: NormalizedText

/// IR-1: Validated and normalized Arabic text.
#[derive(Debug, Clone)]
pub struct NormalizedText {
    pub spec: String,
    pub version: String,
    /// NFKC-normalized, validated text
    pub normalized_text: String,
    /// Exact original input (unchanged)
    pub original_text: String,
    /// Metadata about the normalization process
    pub metadata: NormalizedTextMetadata,
    /// Snapshot of the configuration that produced this IR
    pub config_snapshot: NormalizedTextConfig,
}

/// Metadata from Unicode validation.
#[derive(Debug, Clone)]
pub struct NormalizedTextMetadata {
    pub char_count: u64,
    pub byte_count: u64,
    pub word_count_estimate: u64,
    pub has_tashkeel: bool,
    pub has_tatweel: bool,
    pub has_quranic_symbols: bool,
    pub has_non_arabic: bool,
    pub normalization_applied: Vec<String>,
}

/// Configuration snapshot of the validator.
#[derive(Debug, Clone)]
pub struct NormalizedTextConfig {
    pub normalize_tashkeel: bool,
    pub strip_tatweel: bool,
    pub strict_arabic_only: bool,
    pub max_input_size: u64,
}

// IR-2: TokenStream

/// IR-2: Stream of raw tokens from the lexer.
#[derive(Debug, Clone)]
pub struct TokenStream {
    pub spec: String,
    pub version: String,
    /// The normalized input text
    pub text: String,
    /// Ordered list of raw tokens
    pub tokens: Vec<RawToken>,
    pub metadata: TokenStreamMetadata,
}

/// A single raw token produced by the lexer.
#[derive(Debug, Clone)]
pub struct RawToken {
    /// 0-based sequential ID
    pub id: usize,
    /// Token text (substring of the input)
    pub text: String,
    /// Classification of the token
    pub token_type: TokenType,
    /// Byte offset in the input text (start, inclusive)
    pub start_offset: usize,
    /// Byte offset in the input text (end, exclusive)
    pub end_offset: usize,
}

/// Metadata for the token stream.
#[derive(Debug, Clone)]
pub struct TokenStreamMetadata {
    pub token_count: u64,
    pub word_count: u64,
    pub has_tokens: bool,
}

// IR-3: SegmentedTokenStream

/// IR-3: Tokens segmented into morphemes.
#[derive(Debug, Clone)]
pub struct SegmentedTokenStream {
    pub spec: String,
    pub version: String,
    /// Tokens with their segmentation alternatives
    pub tokens: Vec<SegmentedToken>,
    pub metadata: SegmentedTokenStreamMetadata,
}

/// A token with its segmentation alternatives.
#[derive(Debug, Clone)]
pub struct SegmentedToken {
    /// The raw token from IR-2
    pub raw_token: RawToken,
    /// Segmentation alternatives, ordered by confidence (descending)
    pub segmentations: Vec<Segmentation>,
}

/// A single segmentation of a token into morphemes.
#[derive(Debug, Clone)]
pub struct Segmentation {
    /// Unique segmentation ID
    pub id: String,
    /// Ordered morphemes: prefix, stem, suffix
    pub morphemes: Vec<Morpheme>,
    /// Confidence in millionths
    pub confidence: u32,
    /// Source of this segmentation
    pub source: String,
}

/// A single morpheme within a segmentation.
#[derive(Debug, Clone)]
pub struct Morpheme {
    /// Morpheme text
    pub text: String,
    /// Morpheme type
    pub morpheme_type: MorphemeType,
    /// Byte offset within the raw token text
    pub original_offset: usize,
    /// Byte length of the morpheme
    pub length: usize,
}

/// Metadata for the segmented token stream.
#[derive(Debug, Clone)]
pub struct SegmentedTokenStreamMetadata {
    pub total_tokens: u64,
    pub segmentable_tokens: u64,
    pub ambiguous_tokens: u64,
    /// Segmentations per segmentable token, in millionths
    pub total_ambiguity: u64,
}

// IR-4: MorphologicalAnalysis

/// IR-4: Morphological analysis of each token.
#[derive(Debug)]
pub struct MorphologicalAnalysis {
    pub spec: String,
    pub version: String,
    /// Analyses for each token
    pub token_analyses: Vec<TokenAnalysis>,
    pub metadata: MorphologicalAnalysisMetadata,
}

/// Morphological analysis for a single token.
#[derive(Debug)]
pub struct TokenAnalysis {
    /// Token ID from IR-2/IR-3
    pub token_id: usize,
    /// Stem analyses (one per segmentation)
    pub stem_analyses: Vec<StemAnalysis>,
}

/// Analysis of a single stem.
#[derive(Debug)]
pub struct StemAnalysis {
    /// Unique analysis ID
    pub analysis_id: String,
    /// Reference to the segmentation from IR-3
    pub segmentation_id: String,
    /// The core stem (after clitic removal)
    pub stem: String,
    /// Extracted root, if applicable
    pub root: Option<RootRef>,
    /// Identified morphological pattern (wazan), if applicable
    pub wazan: Option<WazanRef>,
    /// Part of speech
    pub pos: PartOfSpeech,
    /// Extracted morphological features
    pub features: Vec<NamedFeature>,
    /// Whether this analysis has alternatives
    pub is_ambiguous: bool,
    /// Alternative analyses
    pub alternatives: Vec<StemAnalysis>,
    /// Evidence trail for this analysis
    pub evidence: Vec<EvidenceEntry>,
}

/// Reference to a root entry.
#[derive(Debug, Clone)]
pub struct RootRef {
    /// Root text (e.g., "كتب")
    pub text: String,
    /// Source of the root
    pub source: String,
    /// Confidence in millionths
    pub confidence: u32,
}

/// Reference to a wazan (pattern) entry.
#[derive(Debug, Clone)]
pub struct WazanRef {
    /// Pattern text (e.g., "فَعَلَ")
    pub text: String,
    /// Source of the pattern
    pub source: String,
    /// Verb form (I-XV), or None for nouns
    pub form: Option<u8>,
    /// Confidence in millionths
    pub confidence: u32,
}

/// Metadata for morphological analysis.
#[derive(Debug, Clone)]
pub struct MorphologicalAnalysisMetadata {
    pub total_tokens: u64,
    pub analyzed_tokens: u64,
    pub ambiguous_tokens: u64,
    pub unknown_tokens: u64,
    pub unknown_stems: Vec<String>,
}

// IR-5: SyntaxTree

/// IR-5: Syntactic parse trees.
#[derive(Debug)]
pub struct SyntaxTree {
    pub spec: String,
    pub version: String,
    /// Parse trees ordered by confidence (descending)
    pub trees: Vec<ParseTree>,
    pub metadata: SyntaxTreeMetadata,
}

/// A single parse tree.
#[derive(Debug)]
pub struct ParseTree {
    /// Unique tree ID
    pub id: String,
    /// Sentence type
    pub tree_type: SentenceType,
    /// Root constituent
    pub root: Constituent,
    /// Overall confidence in millionths
    pub confidence: u32,
    /// Grammar school that produced this parse
    pub source: String,
}

/// A constituent in the parse tree.
#[derive(Debug)]
pub struct Constituent {
    /// Node type
    pub node_type: NodeType,
    /// Grammatical role
    pub role: SyntacticRole,
    /// Token IDs that belong to this constituent
    pub token_ids: Vec<usize>,
    /// Child constituents
    pub children: Vec<Constituent>,
    /// Feature map as (name, value) pairs with distinct names (e.g., ("case", "nominative"))
    pub features: Vec<(String, String)>,
    /// Whether this constituent is implied (ellipsis)
    pub implicit: bool,
}

/// Metadata for syntax parsing.
#[derive(Debug, Clone)]
pub struct SyntaxTreeMetadata {
    pub sentence_count: u64,
    pub tokens_parsed: u64,
    pub ambiguity_count: u64,
    /// Parse time in milliseconds
    pub parse_time_ms: u64,
}

// IR-6 to IR-11: records shared by the later stages

/// GIR pipeline metadata.
pub struct GIRMetadata {
    pub created_at: String,
    pub pipeline_version: String,
    pub knowledge_versions: KnowledgeVersionMap,
    pub school: String,
}

/// Clitics attached to a token.
#[derive(Debug, Clone)]
pub struct TokenClitics {
    pub prefixes: Vec<String>,
    pub suffixes: Vec<String>,
}

/// Target of a rule application.
#[derive(Debug, Clone)]
pub struct RuleApplicationTarget {
    pub token_indices: Vec<usize>,
    pub constituent_path: Vec<String>,
}

/// Result of a rule application.
#[derive(Debug, Clone)]
pub struct RuleApplicationResult {
    /// Analysis IDs that were confirmed
    pub confirmed: Vec<String>,
    /// Analysis IDs that were rejected
    pub rejected: Vec<String>,
    /// Features that were modified
    pub modified: Vec<FeatureModification>,
    /// Grammatical flag (if any)
    pub flag: Option<GrammaticalFlag>,
}

/// A single feature modification.
#[derive(Debug, Clone)]
pub struct FeatureModification {
    pub feature: String,
    pub from: String,
    pub to: String,
}

/// Resolved root entry.
#[derive(Debug, Clone)]
pub struct RootEntry {
    pub id: String,
    pub root: String,
    pub meaning: String,
    pub forms: Vec<String>,
    pub derived_nouns: Vec<String>,
    pub cognates: Vec<String>,
    pub semantic_field: String,
    pub cross_references: RootCrossReferences,
}

/// Cross-references for a root entry.
#[derive(Debug, Clone)]
pub struct RootCrossReferences {
    pub related_roots: Vec<String>,
    pub antonyms: Vec<String>,
    pub synonyms: Vec<String>,
}

/// Resolved wazan entry.
#[derive(Debug, Clone)]
pub struct WazanEntry {
    pub id: String,
    pub pattern: String,
    pub meaning: String,
    pub form: Option<u8>,
    pub example: String,
}

/// Dictionary entry for a word.
pub struct DictionaryEntry {
    pub id: String,
    pub word: String,
    pub definition: String,
    /// Translations keyed by language code
    pub translations: vstd::hash_map::StringHashMap<String>,
    pub usage_examples: Vec<String>,
}

/// A logical section within the bytecode.
#[derive(Debug, Clone)]
pub struct BytecodeSection {
    pub section_type: BytecodeSectionType,
    pub data: Vec<u8>,
    pub offset: u64,
    pub size: u64,
}

/// Type of a bytecode section.
#[derive(Debug, Clone, Copy, PartialEq, Eq, Structural)]
pub enum BytecodeSectionType {
    Header,
    Metadata,
    Tokens,
    Morphology,
    Syntax,
    Rules,
    Evidence,
    Strings,
    End,
}

/// Combined feature view for a token.
#[derive(Debug, Clone)]
pub struct AnalysisTokenFeatures {
    pub morphological: MorphologicalFeatureSet,
    pub syntactic: SyntacticFeatureSet,
    pub semantic: SemanticFeatureSet,
}

/// Morphological features for display.
#[derive(Debug, Clone)]
pub struct MorphologicalFeatureSet {
    pub root: Option<String>,
    pub wazan: Option<String>,
    pub pos: String,
    pub gender: Option<String>,
    pub number: Option<String>,
    pub person: Option<String>,
    pub tense: Option<String>,
    pub mood: Option<String>,
    pub voice: Option<String>,
    pub case: Option<String>,
    pub state: Option<String>,
}

/// Syntactic features for display.
#[derive(Debug, Clone)]
pub struct SyntacticFeatureSet {
    pub role: Option<String>,
    pub governor: Option<usize>,
}

/// Semantic features for display.
#[derive(Debug, Clone)]
pub struct SemanticFeatureSet {
    pub tags: Vec<String>,
    pub definition: Option<String>,
    pub root_meaning: Option<String>,
}

/// A word-by-word i'rab entry.
#[derive(Debug, Clone)]
pub struct IrabEntry {
    pub token: String,
    pub root: Option<String>,
    pub pos: String,
    pub features: Vec<FeatureDisplay>,
    pub syntactic_role: Option<String>,
    pub explanation: String,
}

/// A feature name-value pair for display.
#[derive(Debug, Clone)]
pub struct FeatureDisplay {
    pub name: String,
    pub value: String,
}

/// A notable grammatical construction.
#[derive(Debug, Clone)]
pub struct GrammaticalConstruction {
    pub name: String,
    pub description: String,
    pub tokens: Vec<usize>,
}

} // verus!
