use agos::analysis_service::{
    blank_text_report, is_blank, request_validator_config, AnalysisStages, PipelineRun,
};
use agos::lexer::Lexer;
use agos::morphological_parser::MorphologicalParser;
use agos::syntax_parser::SyntaxParser;
use agos::tokenizer::{Tokenizer, TokenizerConfig};
use agos::unicode_validator::UnicodeValidator;

fn default_stages() -> AnalysisStages {
    AnalysisStages {
        lexer: Lexer::default(),
        tokenizer: Tokenizer::default(),
        morph_parser: MorphologicalParser::default(),
        syntax_parser: SyntaxParser::default(),
    }
}

fn run_all(validator: &UnicodeValidator, stages: &AnalysisStages, text: &str) -> (Vec<&'static str>, agos::analysis_service::AnalyzeReport) {
    let mut run = PipelineRun::new(text.to_string());
    let mut ran = Vec::new();
    while let Some(stage) = run.next_stage() {
        ran.push(stage);
        run.advance(validator, stages);
    }
    (ran, run.finish())
}

#[test]
fn test_blank_text_detection() {
    assert!(is_blank(""));
    assert!(is_blank("  \t\n \u{00A0}"));
    assert!(!is_blank("  كتب "));
}

#[test]
fn test_blank_text_report() {
    let r = blank_text_report();
    assert!(!r.success);
    assert_eq!(r.error.as_deref(), Some("Empty input text"));
    assert!(r.stages.normalized.is_none());
    assert!(r.stages.syntax.is_none());
}

#[test]
fn test_request_validator_config() {
    assert!(request_validator_config(false, false).is_none());
    let c = request_validator_config(true, true).unwrap();
    assert!(c.normalize_tashkeel);
    assert!(c.strip_tatweel);
    let c = request_validator_config(false, true).unwrap();
    assert!(!c.normalize_tashkeel);
    assert!(c.strip_tatweel);
    assert_eq!(c.max_input_size, 1_048_576);
    let c = request_validator_config(true, false).unwrap();
    assert!(c.normalize_tashkeel);
    assert!(!c.strip_tatweel);
}

#[test]
fn test_request_defaults_strip_tatweel() {
    let stages = default_stages();
    let validator = UnicodeValidator::new(request_validator_config(false, true).unwrap());
    let (_, report) = run_all(&validator, &stages, "السلام مــــد");
    let n = report.stages.normalized.unwrap();
    assert_eq!(n.normalized_text, "السلام مد");
    assert!(n.has_tatweel);
}

#[test]
fn test_full_run_succeeds() {
    let stages = default_stages();
    let (ran, report) = run_all(&UnicodeValidator::default(), &stages, "كتب زيد");
    assert_eq!(ran, vec!["MOD-01", "MOD-02", "MOD-03", "MOD-04", "MOD-05"]);
    assert!(report.success);
    assert!(report.error.is_none());
    let n = report.stages.normalized.unwrap();
    assert_eq!(n.normalized_text, "كتب زيد");
    assert_eq!(n.word_count_estimate, 2);
    let t = report.stages.tokens.unwrap();
    assert_eq!(t.token_count, 3);
    assert_eq!(t.word_count, 2);
    assert_eq!(t.tokens[0].text, "كتب");
    assert_eq!(t.tokens[0].token_type, "Word");
    assert_eq!(t.tokens[1].token_type, "Whitespace");
    let s = report.stages.segmented.unwrap();
    assert_eq!(s.total_tokens, 3);
    assert_eq!(s.segmentable_tokens, 2);
    let m = report.stages.morphology.unwrap();
    assert_eq!(m.metadata.analyzed_tokens, 2);
    let syntax = report.stages.syntax.unwrap();
    assert_eq!(syntax.metadata.tokens_parsed, 2);
}

#[test]
fn test_run_stops_at_first_failure() {
    let stages = default_stages();
    let (ran, report) = run_all(&UnicodeValidator::default(), &stages, "");
    assert_eq!(ran, vec!["MOD-01"]);
    assert!(!report.success);
    assert_eq!(
        report.error.as_deref(),
        Some("MOD-01 failed: [MOD-01] EMPTY_INPUT: Input text is empty")
    );
    assert!(report.stages.normalized.is_none());
}

#[test]
fn test_run_failure_keeps_earlier_outputs() {
    let mut stages = default_stages();
    stages.tokenizer = Tokenizer::new(TokenizerConfig { max_segmentations: 1 });
    let (ran, report) = run_all(&UnicodeValidator::default(), &stages, "وَكَتَبَ");
    assert_eq!(ran, vec!["MOD-01", "MOD-02", "MOD-03"]);
    assert!(!report.success);
    let err = report.error.unwrap();
    assert!(err.starts_with("MOD-03 failed: [MOD-03] MAX_SEGMENTATIONS_EXCEEDED"), "{err}");
    assert!(report.stages.normalized.is_some());
    assert!(report.stages.tokens.is_some());
    assert!(report.stages.segmented.is_none());
    assert!(report.stages.morphology.is_none());
}
