//! The five-stage analysis of a text, run one stage at a time, and the
//! report that the analysis service answers with: a summary of the first
//! three stages' outputs, the full morphology and syntax, and the first
//! failure, if any.

use vstd::prelude::*;

use crate::config::UnicodeValidatorConfig;
use crate::error::{error_line, PipelineError, PipelineResult};
use crate::ir::{MorphologicalAnalysis, NormalizedText, SegmentedTokenStream, SyntaxTree, TokenStream};
use crate::lexer::{lex_outcome, Lexer};
use crate::morphological_parser::{analysis_outcome, MorphologicalParser};
use crate::syntax_parser::{parse_outcome, SyntaxParser};
use crate::text::{append_str, chars_of, owned, string_from_chars};
use crate::tokenizer::{segmentation_outcome, Tokenizer};
use crate::types::TokenType;
use crate::unicode_validator::{is_white_space, is_white_space_char, validation_outcome, UnicodeValidator};

verus! {

/// The text holds nothing but white space.
pub open spec fn blank(s: Seq<char>) -> bool {
    forall|i: int| 0 <= i < s.len() ==> is_white_space(#[trigger] s[i])
}

/// Whether `text` is empty once white space is trimmed.
pub fn is_blank(text: &str) -> (r: bool)
    ensures
        r == blank(text@),
{
    let v = chars_of(text);
    let mut i: usize = 0;
    while i < v.len()
        invariant
            v@ == text@,
            i <= v@.len(),
            forall|j: int| 0 <= j < i ==> is_white_space(#[trigger] v@[j]),
        decreases v@.len() - i,
    {
        if !is_white_space_char(v[i]) {
            return false;
        }
        i = i + 1;
    }
    true
}

/// The validator configuration a request asks for: the default one with its
/// diacritic and tatweel settings replaced, or `None` when the request asks
/// for neither stripping, which is what the shared default validator does.
pub fn request_validator_config(strip_tashkeel: bool, strip_tatweel: bool) -> (r: Option<UnicodeValidatorConfig>)
    ensures
        r is None <==> (!strip_tashkeel && !strip_tatweel),
        r matches Some(c) ==> c.normalize_tashkeel == strip_tashkeel && c.strip_tatweel == strip_tatweel
            && !c.strict_arabic_only && crate::config::has_default_limits(c),
{
    if strip_tashkeel || strip_tatweel {
        let mut config = UnicodeValidatorConfig::default();
        config.normalize_tashkeel = strip_tashkeel;
        config.strip_tatweel = strip_tatweel;
        Some(config)
    } else {
        None
    }
}

/// The name of a token type.
pub open spec fn token_type_name(t: TokenType) -> Seq<char> {
    match t {
        TokenType::Word => "Word"@,
        TokenType::Punctuation => "Punctuation"@,
        TokenType::Number => "Number"@,
        TokenType::Whitespace => "Whitespace"@,
        TokenType::Symbol => "Symbol"@,
        TokenType::Unknown => "Unknown"@,
    }
}

fn token_type_text(t: TokenType) -> (r: &'static str)
    ensures
        r@ == token_type_name(t),
{
    match t {
        TokenType::Word => "Word",
        TokenType::Punctuation => "Punctuation",
        TokenType::Number => "Number",
        TokenType::Whitespace => "Whitespace",
        TokenType::Symbol => "Symbol",
        TokenType::Unknown => "Unknown",
    }
}

/// Summary of IR-1.
#[derive(Debug, Clone)]
pub struct NormalizedOutput {
    pub normalized_text: String,
    pub char_count: u64,
    pub word_count_estimate: u64,
    pub has_tashkeel: bool,
    pub has_tatweel: bool,
    pub has_non_arabic: bool,
}

/// Summary of one raw token.
#[derive(Debug, Clone)]
pub struct RawTokenSummary {
    pub id: usize,
    pub text: String,
    pub token_type: String,
}

/// Summary of IR-2.
#[derive(Debug, Clone)]
pub struct TokenOutput {
    pub token_count: u64,
    pub word_count: u64,
    pub tokens: Vec<RawTokenSummary>,
}

/// Summary of IR-3.
#[derive(Debug, Clone)]
pub struct SegmentedOutput {
    pub total_tokens: u64,
    pub segmentable_tokens: u64,
    pub ambiguous_tokens: u64,
}

/// The outputs of the stages that ran.
#[derive(Debug)]
pub struct StageOutputs {
    pub normalized: Option<NormalizedOutput>,
    pub tokens: Option<TokenOutput>,
    pub segmented: Option<SegmentedOutput>,
    pub morphology: Option<MorphologicalAnalysis>,
    pub syntax: Option<SyntaxTree>,
}

/// `o` summarizes `n`.
pub open spec fn summarizes_normalized(o: NormalizedOutput, n: NormalizedText) -> bool {
    &&& o.normalized_text@ == n.normalized_text@
    &&& o.char_count == n.metadata.char_count
    &&& o.word_count_estimate == n.metadata.word_count_estimate
    &&& o.has_tashkeel == n.metadata.has_tashkeel
    &&& o.has_tatweel == n.metadata.has_tatweel
    &&& o.has_non_arabic == n.metadata.has_non_arabic
}

/// `o` summarizes `t`.
pub open spec fn summarizes_tokens(o: TokenOutput, t: TokenStream) -> bool {
    &&& o.token_count == t.metadata.token_count
    &&& o.word_count == t.metadata.word_count
    &&& o.tokens@.len() == t.tokens@.len()
    &&& forall|i: int|
        0 <= i < t.tokens@.len() ==> {
            &&& (#[trigger] o.tokens@[i]).id == t.tokens@[i].id
            &&& o.tokens@[i].text@ == t.tokens@[i].text@
            &&& o.tokens@[i].token_type@ == token_type_name(t.tokens@[i].token_type)
        }
}

/// `o` summarizes `s`.
pub open spec fn summarizes_segmented(o: SegmentedOutput, s: SegmentedTokenStream) -> bool {
    &&& o.total_tokens == s.metadata.total_tokens
    &&& o.segmentable_tokens == s.metadata.segmentable_tokens
    &&& o.ambiguous_tokens == s.metadata.ambiguous_tokens
}

fn summarize_normalized(n: &NormalizedText) -> (r: NormalizedOutput)
    ensures
        summarizes_normalized(r, *n),
{
    NormalizedOutput {
        normalized_text: owned(n.normalized_text.as_str()),
        char_count: n.metadata.char_count,
        word_count_estimate: n.metadata.word_count_estimate,
        has_tashkeel: n.metadata.has_tashkeel,
        has_tatweel: n.metadata.has_tatweel,
        has_non_arabic: n.metadata.has_non_arabic,
    }
}

fn summarize_tokens(t: &TokenStream) -> (r: TokenOutput)
    ensures
        summarizes_tokens(r, *t),
{
    let mut tokens: Vec<RawTokenSummary> = Vec::new();
    let mut i: usize = 0;
    while i < t.tokens.len()
        invariant
            i <= t.tokens@.len(),
            tokens@.len() == i,
            forall|j: int|
                0 <= j < i ==> {
                    &&& (#[trigger] tokens@[j]).id == t.tokens@[j].id
                    &&& tokens@[j].text@ == t.tokens@[j].text@
                    &&& tokens@[j].token_type@ == token_type_name(t.tokens@[j].token_type)
                },
        decreases t.tokens@.len() - i,
    {
        let raw = &t.tokens[i];
        tokens.push(
            RawTokenSummary {
                id: raw.id,
                text: owned(raw.text.as_str()),
                token_type: owned(token_type_text(raw.token_type)),
            },
        );
        i = i + 1;
    }
    TokenOutput { token_count: t.metadata.token_count, word_count: t.metadata.word_count, tokens }
}

fn summarize_segmented(s: &SegmentedTokenStream) -> (r: SegmentedOutput)
    ensures
        summarizes_segmented(r, *s),
{
    SegmentedOutput {
        total_tokens: s.metadata.total_tokens,
        segmentable_tokens: s.metadata.segmentable_tokens,
        ambiguous_tokens: s.metadata.ambiguous_tokens,
    }
}

/// The identifier of stage `k + 1` (k from 0 to 4).
pub open spec fn stage_name(k: nat) -> Seq<char> {
    if k == 0 {
        "MOD-01"@
    } else if k == 1 {
        "MOD-02"@
    } else if k == 2 {
        "MOD-03"@
    } else if k == 3 {
        "MOD-04"@
    } else {
        "MOD-05"@
    }
}

/// The message of a failed stage: "<stage> failed: [stage] code: message".
pub open spec fn failure_message(stage: Seq<char>, e: PipelineError) -> Seq<char> {
    stage + " failed: "@ + error_line(e)
}

fn failure_text(stage: &str, e: &PipelineError) -> (r: String)
    ensures
        r@ == failure_message(stage@, *e),
{
    let mut v: Vec<char> = Vec::new();
    append_str(&mut v, stage);
    append_str(&mut v, " failed: ");
    let line = e.describe();
    append_str(&mut v, line.as_str());
    string_from_chars(v.as_slice())
}

/// The stages of the front end after validation, which a service shares
/// between requests (the validator may be configured per request).
pub struct AnalysisStages {
    pub lexer: Lexer,
    pub tokenizer: Tokenizer,
    pub morph_parser: MorphologicalParser,
    pub syntax_parser: SyntaxParser,
}

/// Where an analysis stands: the input of the next stage.
enum Pending {
    Text(String),
    Normalized(NormalizedText),
    Tokens(TokenStream),
    Segmented(SegmentedTokenStream),
    Analyzed(MorphologicalAnalysis),
    Finished(Option<MorphologicalAnalysis>),
}

/// An analysis in progress; each call of `advance` runs one stage.
pub struct PipelineRun {
    pending: Pending,
    outputs: StageOutputs,
    error: Option<String>,
}

/// No stage output is held yet.
pub open spec fn no_outputs(o: StageOutputs) -> bool {
    o.normalized is None && o.tokens is None && o.segmented is None && o.morphology is None
        && o.syntax is None
}

impl PipelineRun {
    /// How many stages have run successfully (0 to 5).
    pub closed spec fn completed(self) -> nat {
        match self.pending {
            Pending::Text(_) => 0,
            Pending::Normalized(_) => 1,
            Pending::Tokens(_) => 2,
            Pending::Segmented(_) => 3,
            Pending::Analyzed(_) => 4,
            Pending::Finished(_) => 5,
        }
    }

    /// Whether the run is over: all stages ran, or one failed.
    pub closed spec fn finished(self) -> bool {
        self.pending is Finished
    }

    /// The morphological analysis, once the fourth stage has succeeded.
    pub closed spec fn morphology_view(self) -> Option<MorphologicalAnalysis> {
        match self.pending {
            Pending::Analyzed(m) => Some(m),
            Pending::Finished(o) => o,
            _ => None,
        }
    }

    /// The text still to be validated, before the first stage.
    pub closed spec fn input_text(self) -> Seq<char> {
        match self.pending {
            Pending::Text(t) => t@,
            _ => Seq::empty(),
        }
    }

    /// The output of the last stage that ran, as the next stage's input.
    pub closed spec fn normalized_ir(self) -> NormalizedText {
        self.pending->Normalized_0
    }

    /// The token stream, when the lexer ran last.
    pub closed spec fn tokens_ir(self) -> TokenStream {
        self.pending->Tokens_0
    }

    /// The segmented stream, when the tokenizer ran last.
    pub closed spec fn segmented_ir(self) -> SegmentedTokenStream {
        self.pending->Segmented_0
    }

    /// The outputs gathered so far.
    pub closed spec fn outputs_view(self) -> StageOutputs {
        self.outputs
    }

    /// The failure, if a stage failed.
    pub closed spec fn error_view(self) -> Option<String> {
        self.error
    }

    /// A run of the five stages on `text`.
    pub fn new(text: String) -> (r: Self)
        ensures
            r.completed() == 0,
            !r.finished(),
            r.morphology_view() is None,
            r.input_text() == text@,
            no_outputs(r.outputs_view()),
            r.error_view() is None,
    {
        PipelineRun {
            pending: Pending::Text(text),
            outputs: StageOutputs { normalized: None, tokens: None, segmented: None, morphology: None, syntax: None },
            error: None,
        }
    }

    /// The identifier of the stage the next `advance` runs, if any.
    pub fn next_stage(&self) -> (r: Option<&'static str>)
        ensures
            self.finished() <==> r is None,
            r matches Some(id) ==> id@ == stage_name(self.completed()),
    {
        match self.pending {
            Pending::Text(_) => Some("MOD-01"),
            Pending::Normalized(_) => Some("MOD-02"),
            Pending::Tokens(_) => Some("MOD-03"),
            Pending::Segmented(_) => Some("MOD-04"),
            Pending::Analyzed(_) => Some("MOD-05"),
            Pending::Finished(_) => None,
        }
    }

    /// Runs the next stage on the previous one's output. On success the
    /// output is kept (a summary for the first three stages); on failure the
    /// run ends with the message "<stage> failed: <error>".
    #[verifier::rlimit(30)]
    pub fn advance(&mut self, validator: &UnicodeValidator, stages: &AnalysisStages)
        requires
            !old(self).finished(),
        ensures
            old(self).completed() == 0 ==> exists|r: PipelineResult<NormalizedText>|
                validation_outcome(validator.config, old(self).input_text(), r) && match r {
                    Ok(n) => final(self).completed() == 1 && !final(self).finished() && final(self).normalized_ir() == n && final(self).error_view() == old(self).error_view()
                        && (final(self).outputs_view().normalized matches Some(o) && summarizes_normalized(o, n)),
                    Err(e) => final(self).finished() && (final(self).error_view() matches Some(m) && m@
                        == failure_message("MOD-01"@, e)),
                },
            old(self).completed() == 1 ==> exists|r: PipelineResult<TokenStream>|
                lex_outcome(stages.lexer.config, old(self).normalized_ir().normalized_text@, r) && match r {
                    Ok(t) => final(self).completed() == 2 && !final(self).finished() && final(self).tokens_ir() == t && final(self).error_view() == old(self).error_view()
                        && (final(self).outputs_view().tokens matches Some(o) && summarizes_tokens(o, t)),
                    Err(e) => final(self).finished() && (final(self).error_view() matches Some(m) && m@
                        == failure_message("MOD-02"@, e)),
                },
            old(self).completed() == 2 ==> exists|r: PipelineResult<SegmentedTokenStream>|
                segmentation_outcome(stages.tokenizer.config.max_segmentations, old(self).tokens_ir().tokens@, r)
                    && match r {
                    Ok(s) => final(self).completed() == 3 && !final(self).finished() && final(self).segmented_ir() == s && final(self).error_view() == old(self).error_view()
                        && (final(self).outputs_view().segmented matches Some(o) && summarizes_segmented(o, s)),
                    Err(e) => final(self).finished() && (final(self).error_view() matches Some(m) && m@
                        == failure_message("MOD-03"@, e)),
                },
            old(self).completed() == 3 ==> exists|r: PipelineResult<MorphologicalAnalysis>|
                analysis_outcome(stages.morph_parser.config, stages.morph_parser.kb, old(self).segmented_ir().tokens@, r)
                    && match r {
                    Ok(m) => final(self).completed() == 4 && !final(self).finished()
                        && final(self).morphology_view() == Some(m) && final(self).error_view() == old(self).error_view(),
                    Err(e) => final(self).finished() && (final(self).error_view() matches Some(msg) && msg@
                        == failure_message("MOD-04"@, e)),
                },
            old(self).completed() == 4 ==> exists|r: PipelineResult<SyntaxTree>|
                parse_outcome(stages.syntax_parser.config, old(self).morphology_view().unwrap(), r) && match r {
                    Ok(t) => final(self).finished() && final(self).outputs_view().syntax == Some(t)
                        && final(self).error_view() == old(self).error_view(),
                    Err(e) => final(self).finished() && (final(self).error_view() matches Some(msg) && msg@
                        == failure_message("MOD-05"@, e)),
                },
            final(self).outputs_view().normalized == old(self).outputs_view().normalized || old(self).completed() == 0,
            final(self).outputs_view().tokens == old(self).outputs_view().tokens || old(self).completed() == 1,
            final(self).outputs_view().segmented == old(self).outputs_view().segmented || old(self).completed() == 2,
            final(self).outputs_view().morphology == old(self).outputs_view().morphology,
            final(self).morphology_view() == old(self).morphology_view() || old(self).completed() == 3,
            final(self).outputs_view().syntax == old(self).outputs_view().syntax || old(self).completed() == 4,
    {
        let mut pending = Pending::Finished(None);
        std::mem::swap(&mut pending, &mut self.pending);
        match pending {
            Pending::Text(text) => {
                let r = validator.validate_and_normalize(text);
                let ghost gr = r;
                match r {
                    Ok(n) => {
                        self.outputs.normalized = Some(summarize_normalized(&n));
                        self.pending = Pending::Normalized(n);
                    },
                    Err(e) => {
                        self.error = Some(failure_text("MOD-01", &e));
                    },
                }
                assert(validation_outcome(validator.config, old(self).input_text(), gr));
            },
            Pending::Normalized(n) => {
                let ghost gn = n;
                let r = stages.lexer.tokenize(n);
                let ghost gr = r;
                match r {
                    Ok(t) => {
                        self.outputs.tokens = Some(summarize_tokens(&t));
                        self.pending = Pending::Tokens(t);
                    },
                    Err(e) => {
                        self.error = Some(failure_text("MOD-02", &e));
                    },
                }
                assert(old(self).normalized_ir() == gn);
                assert(lex_outcome(stages.lexer.config, old(self).normalized_ir().normalized_text@, gr));
            },
            Pending::Tokens(t) => {
                let ghost gt = t;
                let r = stages.tokenizer.tokenize(t);
                let ghost gr = r;
                match r {
                    Ok(s) => {
                        self.outputs.segmented = Some(summarize_segmented(&s));
                        self.pending = Pending::Segmented(s);
                    },
                    Err(e) => {
                        self.error = Some(failure_text("MOD-03", &e));
                    },
                }
                assert(old(self).tokens_ir() == gt);
                assert(segmentation_outcome(stages.tokenizer.config.max_segmentations, old(self).tokens_ir().tokens@, gr));
            },
            Pending::Segmented(s) => {
                let ghost gs = s;
                let r = stages.morph_parser.analyze(s);
                let ghost gr = r;
                match r {
                    Ok(m) => {
                        self.pending = Pending::Analyzed(m);
                    },
                    Err(e) => {
                        self.error = Some(failure_text("MOD-04", &e));
                    },
                }
                assert(old(self).segmented_ir() == gs);
                assert(analysis_outcome(stages.morph_parser.config, stages.morph_parser.kb, old(self).segmented_ir().tokens@, gr));
            },
            Pending::Analyzed(m) => {
                let r = stages.syntax_parser.parse_analysis(&m);
                let ghost gr = r;
                match r {
                    Ok(t) => {
                        self.outputs.syntax = Some(t);
                    },
                    Err(e) => {
                        self.error = Some(failure_text("MOD-05", &e));
                    },
                }
                self.pending = Pending::Finished(Some(m));
                assert(old(self).morphology_view() == Some(m));
                assert(parse_outcome(stages.syntax_parser.config, old(self).morphology_view().unwrap(), gr));
            },
            Pending::Finished(o) => {
                self.pending = Pending::Finished(o);
            },
        }
    }
}


/// The answer of the analysis service: whether all stages succeeded, the
/// first failure, and the stage outputs gathered.
#[derive(Debug)]
pub struct AnalyzeReport {
    pub success: bool,
    pub error: Option<String>,
    pub stages: StageOutputs,
}

/// The report for a blank text, which is refused before any stage runs.
pub fn blank_text_report() -> (r: AnalyzeReport)
    ensures
        !r.success,
        r.error matches Some(m) && m@ == "Empty input text"@,
        no_outputs(r.stages),
{
    AnalyzeReport {
        success: false,
        error: Some(owned("Empty input text")),
        stages: StageOutputs { normalized: None, tokens: None, segmented: None, morphology: None, syntax: None },
    }
}

impl PipelineRun {
    /// The report of a finished run.
    pub fn finish(self) -> (r: AnalyzeReport)
        requires
            self.finished(),
        ensures
            r.success == (self.error_view() is None),
            r.error == self.error_view(),
            r.stages.normalized == self.outputs_view().normalized,
            r.stages.tokens == self.outputs_view().tokens,
            r.stages.segmented == self.outputs_view().segmented,
            r.stages.morphology == self.morphology_view(),
            r.stages.syntax == self.outputs_view().syntax,
    {
        let PipelineRun { pending, outputs, error } = self;
        let morphology = match pending {
            Pending::Finished(o) => o,
            _ => None,
        };
        let StageOutputs { normalized, tokens, segmented, morphology: _, syntax } = outputs;
        AnalyzeReport {
            success: error.is_none(),
            error,
            stages: StageOutputs { normalized, tokens, segmented, morphology, syntax },
        }
    }
}

} // verus!
