use agos::ir::{
    Morpheme, RawToken, SegmentedToken, SegmentedTokenStream, SegmentedTokenStreamMetadata,
    Segmentation,
};
use agos::morphological_parser::{MorphologicalParser, MorphologicalParserConfig};
use agos::pipeline::{PipelineContext, PipelineStage};
use agos::types::{GrammarSchool, MorphemeType, PartOfSpeech, TokenType};
fn make_segmented_stream(stems: &[&str]) -> SegmentedTokenStream {
    let mut tokens = Vec::new();
    for (i, &stem) in stems.iter().enumerate() {
        let raw = RawToken {
            id: i,
            text: stem.to_string(),
            token_type: TokenType::Word,
            start_offset: 0,
            end_offset: stem.len(),
        };
        let seg = Segmentation {
            id: format!("seg-{}-0", i),
            morphemes: vec![Morpheme {
                text: stem.to_string(),
                morpheme_type: MorphemeType::Stem,
                original_offset: 0,
                length: stem.len(),
            }],
            confidence: 1_000_000,
            source: "default".to_string(),
        };
        tokens.push(SegmentedToken {
            raw_token: raw,
            segmentations: vec![seg],
        });
    }
    SegmentedTokenStream {
        spec: "SPEC-0001".to_string(),
        version: "1.0".to_string(),
        tokens,
        metadata: SegmentedTokenStreamMetadata {
            total_tokens: stems.len() as u64,
            segmentable_tokens: stems.len() as u64,
            ambiguous_tokens: 0,
            total_ambiguity: 1_000_000,
        },
    }
}

fn test_ctx() -> PipelineContext {
    PipelineContext::new(agos::types::GrammarSchool::Basra)
}

#[test]
fn morphological_parser_test_empty_input() {
    let parser = MorphologicalParser::default();
    let ctx = test_ctx();
    let input = make_segmented_stream(&[]);
    let result = parser.process(input, &ctx);
    assert!(result.is_ok());
    let output = result.unwrap();
    assert_eq!(output.metadata.total_tokens, 0);
}

#[test]
fn test_simple_word_analysis() {
    let parser = MorphologicalParser::default();
    let ctx = test_ctx();
    // "كتب" (kataba = "he wrote") — triliteral root ك-ت-ب
    let input = make_segmented_stream(&["كتب"]);
    let result = parser.process(input, &ctx);
    assert!(result.is_ok());
    let output = result.unwrap();
    assert_eq!(output.metadata.analyzed_tokens, 1);
    assert!(!output.token_analyses.is_empty());
    let ta = &output.token_analyses[0];
    assert!(!ta.stem_analyses.is_empty());
    // Should find root ك-ت-ب
    let has_ktb = ta.stem_analyses.iter().any(|sa| {
        sa.root.as_ref().map(|r| r.text == "كتب") == Some(true)
    });
    assert!(has_ktb, "Should find root كتب (k-t-b)");
}

#[test]
fn test_particle_fast_path() {
    let parser = MorphologicalParser::default();
    let ctx = test_ctx();
    // "فِي" (fee = "in") — should be identified as particle
    let input = make_segmented_stream(&["فِي"]);
    let result = parser.process(input, &ctx);
    assert!(result.is_ok());
    let output = result.unwrap();
    assert_eq!(output.metadata.analyzed_tokens, 1);
    let ta = &output.token_analyses[0];
    let is_particle = ta.stem_analyses.iter().any(|sa| sa.pos == PartOfSpeech::Particle);
    assert!(is_particle, "فِي should be identified as particle");
}

#[test]
fn test_pronoun_fast_path() {
    let parser = MorphologicalParser::default();
    let ctx = test_ctx();
    // "هُوَ" (huwa = "he") — should be identified as pronoun
    let input = make_segmented_stream(&["هُوَ"]);
    let result = parser.process(input, &ctx);
    assert!(result.is_ok());
    let output = result.unwrap();
    assert_eq!(output.metadata.analyzed_tokens, 1);
    let ta = &output.token_analyses[0];
    let is_pronoun = ta.stem_analyses.iter().any(|sa| sa.pos == PartOfSpeech::Pronoun);
    assert!(is_pronoun, "هُوَ should be identified as pronoun");
}

#[test]
fn test_hollow_root_detection() {
    let parser = MorphologicalParser::default();
    let ctx = test_ctx();
    // "قَالَ" (qaala = "he said") — hollow root ق-و-ل
    let input = make_segmented_stream(&["قال"]);
    let result = parser.process(input, &ctx);
    assert!(result.is_ok());
    let output = result.unwrap();
    let ta = &output.token_analyses[0];
    let has_hollow = ta.stem_analyses.iter().any(|sa| {
        sa.root.as_ref().map(|r| r.text == "قول") == Some(true)
    });
    assert!(has_hollow, "قال should have hollow root ق-و-ل");
}

#[test]
fn test_defective_root_detection() {
    let parser = MorphologicalParser::default();
    let ctx = test_ctx();
    // "رَمَى" (ramaa = "he threw") — defective root ر-م-ي
    let input = make_segmented_stream(&["رمى"]);
    let result = parser.process(input, &ctx);
    assert!(result.is_ok());
    let output = result.unwrap();
    let ta = &output.token_analyses[0];
    let has_defective = ta.stem_analyses.iter().any(|sa| {
        sa.root.as_ref().map(|r| r.text == "رمي") == Some(true)
    });
    assert!(has_defective, "رمى should have defective root ر-م-ي");
}

#[test]
fn morphological_parser_test_pipeline_stage_trait() {
    let parser = MorphologicalParser::default();
    assert_eq!(parser.stage_id(), "MOD-04");
    let ctx = test_ctx();
    let result = parser.validate_config(&ctx);
    assert!(result.is_ok());
}

#[test]
fn morphological_parser_test_metadata_counts() {
    let parser = MorphologicalParser::default();
    let ctx = test_ctx();
    // Mixed: known word, particle, pronoun
    let input = make_segmented_stream(&["كتب", "فِي", "هُوَ"]);
    let result = parser.process(input, &ctx);
    assert!(result.is_ok());
    let output = result.unwrap();
    assert_eq!(output.metadata.total_tokens, 3);
    assert_eq!(output.metadata.analyzed_tokens, 3);
}

#[test]
fn test_verb_form_identification() {
    let parser = MorphologicalParser::default();
    let ctx = test_ctx();
    // Basic verb forms should get form assignment
    let input = make_segmented_stream(&["كتب"]);
    let result = parser.process(input, &ctx);
    assert!(result.is_ok());
    let output = result.unwrap();
    let ta = &output.token_analyses[0];
    let has_form = ta.stem_analyses.iter().any(|sa| {
        sa.wazan.as_ref().and_then(|w| w.form) == Some(1)
    });
    assert!(has_form, "كتب should have Form I among its analyses");
}

#[test]
fn test_school_config_affects_form_priority() {
    let ctx = PipelineContext::new(GrammarSchool::Andalus);
    let mut config = MorphologicalParserConfig::default();
    config.school = GrammarSchool::Andalus;
    let parser = MorphologicalParser::new(config);
    let input = make_segmented_stream(&["كتب"]);
    let result = parser.process(input, &ctx);
    assert!(result.is_ok());
}

#[test]
fn test_validate_config_rejects_zero_analyses() {
    let mut config = MorphologicalParserConfig::default();
    config.max_analyses = 0;
    let parser = MorphologicalParser::new(config);
    let ctx = test_ctx();
    let result = parser.validate_config(&ctx);
    assert!(result.is_err());
}

#[test]
fn morphological_parser_test_spec_fields() {
    let parser = MorphologicalParser::default();
    let ctx = test_ctx();
    let input = make_segmented_stream(&["كتب"]);
    let result = parser.process(input, &ctx);
    assert!(result.is_ok());
    let output = result.unwrap();
    assert_eq!(output.spec, "SPEC-0001");
    assert_eq!(output.version, "1.0");
}

#[test]
fn test_verb_feature_extraction() {
    let parser = MorphologicalParser::default();
    let ctx = test_ctx();
    // "يَكْتُبُ" (yaktubu = "he writes") — imperfect, 3rd masc, singular
    let input = make_segmented_stream(&["يكتب"]);
    let result = parser.process(input, &ctx);
    assert!(result.is_ok());
    let output = result.unwrap();
    let ta = &output.token_analyses[0];

    // Get the verb form analysis
    for sa in &ta.stem_analyses {
        if sa.wazan.as_ref().and_then(|w| w.form) == Some(1) {
            assert_eq!(
                sa.pos, PartOfSpeech::Verb,
                "Form I analysis should be a verb"
            );
        }
    }
}
