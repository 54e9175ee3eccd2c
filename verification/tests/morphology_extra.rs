use agos::error::codes;
use agos::ir::{
    Morpheme, RawToken, SegmentedToken, SegmentedTokenStream, SegmentedTokenStreamMetadata, Segmentation,
};
use agos::logging::TracingError;
use agos::config::UnicodeValidatorConfig;
use agos::morphological_parser::{closed_class, MorphologicalParser, MorphologicalParserConfig};
use agos::pipeline::{PipelineContext, PipelineStage};
use agos::text::{chars_less, insert_sorted_unique};
use agos::types::{Confidence, GrammarSchool, MorphemeType, PartOfSpeech, TokenType};
use agos::unicode_validator::UnicodeValidator;

fn stream(stems: &[&str]) -> SegmentedTokenStream {
    let mut tokens = Vec::new();
    for (i, &stem) in stems.iter().enumerate() {
        tokens.push(SegmentedToken {
            raw_token: RawToken {
                id: i,
                text: stem.to_string(),
                token_type: TokenType::Word,
                start_offset: 0,
                end_offset: stem.len(),
            },
            segmentations: vec![Segmentation {
                id: format!("seg-{}-0", i),
                morphemes: vec![Morpheme {
                    text: stem.to_string(),
                    morpheme_type: MorphemeType::Stem,
                    original_offset: 0,
                    length: stem.len(),
                }],
                confidence: 1_000_000,
                source: "default".to_string(),
            }],
        });
    }
    SegmentedTokenStream {
        spec: "SPEC-0001".to_string(),
        version: "1.0".to_string(),
        tokens,
        metadata: SegmentedTokenStreamMetadata {
            total_tokens: stems.len() as u64,
            segmentable_tokens: stems.len() as u64,
            ambiguous_tokens: 0,
            total_ambiguity: 1_000_000,
        },
    }
}

#[test]
fn test_max_analyses_exceeded() {
    let mut config = MorphologicalParserConfig::default();
    config.max_analyses = 1;
    let parser = MorphologicalParser::new(config);
    let err = parser.analyze(stream(&["كتب"])).unwrap_err();
    assert_eq!(err.code, codes::MAX_ANALYSES_EXCEEDED);
    assert_eq!(err.stage, "MOD-04");
    assert!(err.is_fatal);
    assert!(err.message.starts_with("Token 0: "), "{}", err.message);
    assert!(err.message.ends_with("analyses exceeds limit of 1"), "{}", err.message);
}

#[test]
fn test_unknown_stems_sorted_and_distinct() {
    let parser = MorphologicalParser::default();
    let out = parser.analyze(stream(&["ج", "ب", "ج"])).unwrap();
    assert_eq!(out.metadata.total_tokens, 3);
    assert_eq!(out.metadata.unknown_stems, vec!["ب".to_string(), "ج".to_string()]);
    assert_eq!(out.metadata.unknown_tokens, 2);
    assert_eq!(out.metadata.analyzed_tokens, 0);
}

#[test]
fn test_non_word_tokens_not_analyzed() {
    let parser = MorphologicalParser::default();
    let mut s = stream(&["كتب", "!"]);
    s.tokens[1].raw_token.token_type = TokenType::Punctuation;
    let out = parser.analyze(s).unwrap();
    assert_eq!(out.metadata.total_tokens, 2);
    assert_eq!(out.metadata.analyzed_tokens, 1);
    assert_eq!(out.token_analyses[0].token_id, 0);
}

#[test]
fn test_full_analysis_ids_and_evidence() {
    let parser = MorphologicalParser::default();
    let out = parser.analyze(stream(&["كتب"])).unwrap();
    let sa = &out.token_analyses[0].stem_analyses[0];
    assert!(sa.analysis_id.starts_with("ana-0-"), "{}", sa.analysis_id);
    assert_eq!(sa.segmentation_id, "seg-0-0");
    assert_eq!(sa.evidence.len(), 1);
    assert_eq!(sa.evidence[0].id, "ev-0-morph");
    assert_eq!(sa.evidence[0].stage, "MOD-04");
    assert_eq!(sa.evidence[0].token_indices, vec![0]);
    // confidence = root confidence × pattern confidence / 2
    let root = sa.root.as_ref().unwrap().confidence as u64;
    let wazan = sa.wazan.as_ref().unwrap().confidence as u64;
    assert_eq!(sa.evidence[0].confidence as u64, root * wazan / 2_000_000);
}

#[test]
fn test_check_config_errors() {
    let mut config = MorphologicalParserConfig::default();
    config.max_analyses = 0;
    let err = MorphologicalParser::new(config).check_config(true).unwrap_err();
    assert_eq!(err.code, codes::INVALID_REQUEST);
    assert_eq!(err.message, "MorphologicalParserConfig.max_analyses must be > 0");

    let mut config = MorphologicalParserConfig::default();
    config.kb_config.enabled = true;
    config.kb_config.path = "no/such/dir".to_string();
    let parser = MorphologicalParser::new(config);
    let err = parser.check_config(false).unwrap_err();
    assert_eq!(err.code, codes::KB_LOAD_FAILURE);
    assert_eq!(err.message, "KB-0004 directory not found or is not a directory: no/such/dir");
    assert!(parser.check_config(true).is_ok());

    // The directory is looked for on disk.
    let ctx = PipelineContext::new(GrammarSchool::Basra);
    let err = parser.validate_config(&ctx).unwrap_err();
    assert_eq!(err.code, codes::KB_LOAD_FAILURE);
}

#[test]
fn test_sorted_insertion() {
    let a: Vec<char> = "ب".chars().collect();
    let b: Vec<char> = "بب".chars().collect();
    let c: Vec<char> = "ج".chars().collect();
    assert!(chars_less(&a, &b));
    assert!(chars_less(&b, &c));
    assert!(!chars_less(&c, &a));
    assert!(!chars_less(&a, &a));
    let mut v: Vec<Vec<char>> = Vec::new();
    insert_sorted_unique(&mut v, c.clone());
    insert_sorted_unique(&mut v, a.clone());
    insert_sorted_unique(&mut v, b.clone());
    insert_sorted_unique(&mut v, a.clone());
    assert_eq!(v, vec![a, b, c]);
}

#[test]
fn test_tracing_error_message() {
    let e = TracingError::InitFailed("already set".to_string());
    assert_eq!(e.message(), "Tracing init failed: already set");
}


#[test]
fn test_confidence_levels() {
    assert_eq!(Confidence::High.as_millionths(), 900_000);
    assert_eq!(Confidence::Medium.as_millionths(), 600_000);
    assert_eq!(Confidence::Low.as_millionths(), 300_000);
}

#[test]
fn test_closed_class_lists() {
    let fi: Vec<char> = "فِي".chars().collect();
    let huwa: Vec<char> = "هُوَ".chars().collect();
    let kataba: Vec<char> = "كتب".chars().collect();
    assert_eq!(closed_class(&fi), Some(PartOfSpeech::Particle));
    assert_eq!(closed_class(&huwa), Some(PartOfSpeech::Pronoun));
    assert_eq!(closed_class(&kataba), None);
}

#[test]
fn test_strip_after_normalization() {
    let mut config = UnicodeValidatorConfig::default();
    config.strip_tatweel = true;
    config.normalize_tashkeel = true;
    let validator = UnicodeValidator::new(config);
    let text: Vec<char> = "مـــدَّ".chars().collect();
    let (out, names) = validator.strip_normalized(&text);
    assert_eq!(out.iter().collect::<String>(), "مد");
    assert_eq!(names, vec!["NFKC".to_string(), "strip_tatweel".to_string(), "strip_tashkeel".to_string()]);
    let plain = UnicodeValidator::default();
    let (out, names) = plain.strip_normalized(&text);
    assert_eq!(out, text);
    assert_eq!(names, vec!["NFKC".to_string()]);
}
