use agos::ir::{MorphologicalAnalysis, RootRef, StemAnalysis, TokenAnalysis};
use agos::pipeline::{PipelineContext, PipelineStage};
use agos::syntax_parser::{SyntaxParser, SyntaxParserConfig};
use agos::types::{GrammarSchool, PartOfSpeech, SentenceType, SyntacticRole};
/// Helper: create a minimal StemAnalysis.
fn make_stem(pos: PartOfSpeech, stem_text: &str, root: Option<&str>) -> StemAnalysis {
    StemAnalysis {
        analysis_id: format!("test-{}-{}", stem_text, pos.code()),
        segmentation_id: "seg-default".to_string(),
        stem: stem_text.to_string(),
        root: root.map(|r| RootRef {
            text: r.to_string(),
            source: "test".to_string(),
            confidence: 800_000,
        }),
        wazan: None,
        pos,
        features: vec![],
        is_ambiguous: false,
        alternatives: vec![],
        evidence: vec![],
    }
}

/// Helper: create a MorphologicalAnalysis from POS-tagged tokens.
fn make_morphology(tokens: &[(usize, PartOfSpeech, &str)]) -> MorphologicalAnalysis {
    let token_analyses: Vec<TokenAnalysis> = tokens
        .iter()
        .map(|&(id, pos, stem)| TokenAnalysis {
            token_id: id,
            stem_analyses: vec![make_stem(pos, stem, None)],
        })
        .collect();

    MorphologicalAnalysis {
        spec: "SPEC-0001".to_string(),
        version: "1.0".to_string(),
        token_analyses,
        metadata: agos::ir::MorphologicalAnalysisMetadata {
            total_tokens: tokens.len() as u64,
            analyzed_tokens: tokens.len() as u64,
            ambiguous_tokens: 0,
            unknown_tokens: 0,
            unknown_stems: vec![],
        },
    }
}

fn test_ctx() -> PipelineContext {
    PipelineContext::new(GrammarSchool::Basra)
}

// ──────────────────────────────────────────
//  Basic Tests
// ──────────────────────────────────────────

#[test]
fn syntax_parser_test_empty_input() {
    let parser = SyntaxParser::default();
    let ctx = test_ctx();
    let input = make_morphology(&[]);
    let result = parser.process(input, &ctx);
    assert!(result.is_ok());
    let output = result.unwrap();
    assert_eq!(output.metadata.sentence_count, 0);
    assert!(output.trees.is_empty());
}

#[test]
fn test_single_word_verb() {
    let parser = SyntaxParser::default();
    let ctx = test_ctx();
    // Single verb \"كتب\" (kataba = he wrote)
    let input = make_morphology(&[(0, PartOfSpeech::Verb, "كتب")]);
    let result = parser.process(input, &ctx);
    assert!(result.is_ok());
    let output = result.unwrap();
    assert_eq!(output.metadata.sentence_count, 1);
    assert!(!output.trees.is_empty());
    let tree = &output.trees[0];
    assert_eq!(tree.tree_type, SentenceType::JumlahFiliyyah);
    // Check that the root has a verb child
    let has_fil = tree.root.children.iter().any(|c| c.role == SyntacticRole::FiL);
    assert!(has_fil, "Verbal sentence should have a Fi'l constituent");
}

#[test]
fn test_verbal_sentence_verb_subject() {
    let parser = SyntaxParser::default();
    let ctx = test_ctx();
    // \"كَتَبَ زَيْدٌ\" (kataba Zaydun = \"Zayd wrote\") — verb + subject
    let input = make_morphology(&[
        (0, PartOfSpeech::Verb, "كتب"),
        (1, PartOfSpeech::Noun, "زيد"),
    ]);
    let result = parser.process(input, &ctx);
    assert!(result.is_ok());
    let output = result.unwrap();
    assert_eq!(output.metadata.sentence_count, 1);
    let tree = &output.trees[0];
    assert_eq!(tree.tree_type, SentenceType::JumlahFiliyyah);
    let has_fil = tree.root.children.iter().any(|c| c.role == SyntacticRole::FiL);
    let has_fail = tree.root.children.iter().any(|c| c.role == SyntacticRole::Fail);
    assert!(has_fil, "Should have Fi'l (verb)");
    assert!(has_fail, "Should have Fa'il (subject)");
}

#[test]
fn test_nominal_sentence_mubtada_khabar() {
    let parser = SyntaxParser::default();
    let ctx = test_ctx();
    // \"زَيْدٌ قَائِمٌ\" (Zaydun qa'imun = \"Zayd is standing\") — topic + comment
    let input = make_morphology(&[
        (0, PartOfSpeech::Noun, "زيد"),
        (1, PartOfSpeech::Adjective, "قائم"),
    ]);
    let result = parser.process(input, &ctx);
    assert!(result.is_ok());
    let output = result.unwrap();
    assert_eq!(output.metadata.sentence_count, 1);
    let tree = &output.trees[0];
    assert_eq!(tree.tree_type, SentenceType::JumlahIsmiyyah);
    let has_mubtada = tree.root.children.iter().any(|c| c.role == SyntacticRole::Mubtada);
    let has_khabar = tree.root.children.iter().any(|c| {
        c.role == SyntacticRole::Khabar || c.role == SyntacticRole::Majrur
    });
    assert!(has_mubtada, "Should have Mubtada' (topic)");
    assert!(has_khabar, "Should have Khabar (comment)");
}

// ──────────────────────────────────────────
//  Pipeline Stage Tests
// ──────────────────────────────────────────

#[test]
fn test_stage_id() {
    let parser = SyntaxParser::default();
    assert_eq!(parser.stage_id(), "MOD-05");
}

#[test]
fn test_validate_config() {
    let parser = SyntaxParser::default();
    let ctx = test_ctx();
    let result = parser.validate_config(&ctx);
    assert!(result.is_ok());
}

#[test]
fn test_validate_config_rejects_zero_trees() {
    let mut config = SyntaxParserConfig::default();
    config.max_parse_trees = 0;
    let parser = SyntaxParser::new(config);
    let ctx = test_ctx();
    let result = parser.validate_config(&ctx);
    assert!(result.is_err());
}

#[test]
fn syntax_parser_test_spec_fields() {
    let parser = SyntaxParser::default();
    let ctx = test_ctx();
    let input = make_morphology(&[(0, PartOfSpeech::Verb, "كتب")]);
    let result = parser.process(input, &ctx);
    assert!(result.is_ok());
    let output = result.unwrap();
    assert_eq!(output.spec, "SPEC-0001");
    assert_eq!(output.version, "1.0");
}

// ──────────────────────────────────────────
//  Sentence Segmentation Tests
// ──────────────────────────────────────────

#[test]
fn test_multi_sentence_segmentation() {
    let parser = SyntaxParser::default();
    let ctx = test_ctx();
    // Two verb-only \"sentences\" (would be separate sentences with punctuation,
    // but MOD-04 skips punctuation tokens, so we just have two verbs)
    let input = make_morphology(&[
        (0, PartOfSpeech::Verb, "كتب"),
        (2, PartOfSpeech::Verb, "قرأ"),
    ]);
    let result = parser.process(input, &ctx);
    assert!(result.is_ok());
    let output = result.unwrap();
    // Should treat as one combined sentence since no boundary markers
    assert_eq!(output.metadata.sentence_count, 1);
}

// ──────────────────────────────────────────
//  Verb-Object Detection Tests
// ──────────────────────────────────────────

#[test]
fn test_verb_subject_object() {
    let parser = SyntaxParser::default();
    let ctx = test_ctx();
    // \"ضَرَبَ زَيْدٌ عَمْرًا\" (daraba Zaydun 'Amran = \"Zayd hit 'Amr\")
    let input = make_morphology(&[
        (0, PartOfSpeech::Verb, "ضرب"),
        (1, PartOfSpeech::Noun, "زيد"),
        (2, PartOfSpeech::Noun, "عمرو"),
    ]);
    let result = parser.process(input, &ctx);
    assert!(result.is_ok());
    let output = result.unwrap();
    let tree = &output.trees[0];
    let roles: Vec<SyntacticRole> = tree.root.children.iter().map(|c| c.role).collect();
    assert!(roles.contains(&SyntacticRole::FiL), "Should have verb");
    assert!(roles.contains(&SyntacticRole::Fail), "Should have subject");
    assert!(
        roles.contains(&SyntacticRole::MafulBiHi),
        "Should have object"
    );
}

// ──────────────────────────────────────────
//  Pronoun as Subject Test
// ──────────────────────────────────────────

#[test]
fn test_pronoun_as_subject() {
    let parser = SyntaxParser::default();
    let ctx = test_ctx();
    // \"هُوَ كَتَبَ\" (huwa kataba = \"he wrote\") — pronoun + verb
    let input = make_morphology(&[
        (0, PartOfSpeech::Pronoun, "هو"),
        (1, PartOfSpeech::Verb, "كتب"),
    ]);
    let result = parser.process(input, &ctx);
    assert!(result.is_ok());
    let output = result.unwrap();
    assert_eq!(output.metadata.sentence_count, 1);
    // Starts with pronoun → parsed as nominal (ismiyyah)
    let tree = &output.trees[0];
    assert_eq!(tree.tree_type, SentenceType::JumlahIsmiyyah);
}

// ──────────────────────────────────────────
//  Preposition Handling Test
// ──────────────────────────────────────────

#[test]
fn test_preposition_in_khabar() {
    let parser = SyntaxParser::default();
    let ctx = test_ctx();
    // \"زَيْدٌ فِي الدَّارِ\" (Zaydun fi al-dari = \"Zayd is in the house\")
    // We use Particle for preposition since the fast-path classifies
    // prepositions as Particles
    let input = make_morphology(&[
        (0, PartOfSpeech::Noun, "زيد"),
        (1, PartOfSpeech::Particle, "في"),
        (2, PartOfSpeech::Noun, "الدار"),
    ]);
    let result = parser.process(input, &ctx);
    assert!(result.is_ok());
    let output = result.unwrap();
    let tree = &output.trees[0];
    // Should be nominal (ismiyyah)
    assert_eq!(tree.tree_type, SentenceType::JumlahIsmiyyah);
}

// ──────────────────────────────────────────
//  Edge Case: Single Noun
// ──────────────────────────────────────────

#[test]
fn test_single_noun() {
    let parser = SyntaxParser::default();
    let ctx = test_ctx();
    // Single noun \"زيد\" (Zayd)
    let input = make_morphology(&[(0, PartOfSpeech::Noun, "زيد")]);
    let result = parser.process(input, &ctx);
    assert!(result.is_ok());
    let output = result.unwrap();
    assert_eq!(output.metadata.sentence_count, 1);
    let tree = &output.trees[0];
    assert_eq!(tree.tree_type, SentenceType::JumlahIsmiyyah);
    // Should have mubtada'
    let has_mubtada = tree.root.children.iter().any(|c| c.role == SyntacticRole::Mubtada);
    assert!(has_mubtada, "Single noun should be parsed as mubtada'");
}

// ──────────────────────────────────────────
//  Proper Noun Test
// ──────────────────────────────────────────

#[test]
fn test_proper_noun_as_subject() {
    let parser = SyntaxParser::default();
    let ctx = test_ctx();
    // Verb + proper noun
    let input = make_morphology(&[
        (0, PartOfSpeech::Verb, "قال"),
        (1, PartOfSpeech::ProperNoun, "الله"),
    ]);
    let result = parser.process(input, &ctx);
    assert!(result.is_ok());
    let output = result.unwrap();
    assert_eq!(output.metadata.sentence_count, 1);
    let tree = &output.trees[0];
    assert_eq!(tree.tree_type, SentenceType::JumlahFiliyyah);
}

// ──────────────────────────────────────────
//  Ambiguity Test (multiple morph analyses)
// ──────────────────────────────────────────

#[test]
fn test_morphological_ambiguity() {
    let parser = SyntaxParser::default();
    let ctx = test_ctx();
    // Token with multiple morphological analyses: verb + noun alternative
    let token_analyses = vec![TokenAnalysis {
        token_id: 0,
        stem_analyses: vec![
            make_stem(PartOfSpeech::Verb, "كتب", Some("كتب")),
            make_stem(PartOfSpeech::Noun, "كتب", Some("كتب")),
        ],
    }];
    let input = MorphologicalAnalysis {
        spec: "SPEC-0001".to_string(),
        version: "1.0".to_string(),
        token_analyses,
        metadata: agos::ir::MorphologicalAnalysisMetadata {
            total_tokens: 1,
            analyzed_tokens: 1,
            ambiguous_tokens: 1,
            unknown_tokens: 0,
            unknown_stems: vec![],
        },
    };
    let result = parser.process(input, &ctx);
    assert!(result.is_ok());
    let output = result.unwrap();
    assert_eq!(output.metadata.sentence_count, 1);
    // Should parse as verbal (verb analysis comes first)
    let tree = &output.trees[0];
    assert_eq!(tree.tree_type, SentenceType::JumlahFiliyyah);
}

// ──────────────────────────────────────────
//  Multiple Tokens Test
// ──────────────────────────────────────────

#[test]
fn test_many_tokens() {
    let parser = SyntaxParser::default();
    let ctx = test_ctx();
    // A longer sequence
    let tokens: Vec<(usize, PartOfSpeech, &str)> = vec![
        (0, PartOfSpeech::Verb, "كتب"),
        (1, PartOfSpeech::Noun, "محمد"),
        (2, PartOfSpeech::Particle, "في"),
        (3, PartOfSpeech::Noun, "المدرسة"),
    ];
    let input = make_morphology(&tokens);
    let result = parser.process(input, &ctx);
    assert!(result.is_ok());
    let output = result.unwrap();
    assert_eq!(output.metadata.sentence_count, 1);
    let tree = &output.trees[0];
    assert_eq!(tree.tree_type, SentenceType::JumlahFiliyyah);
    // Should have verb, subject, and khabar-like structure
    let children_count = tree.root.children.len();
    assert!(
        children_count >= 2,
        "Verb+subject sentence should have at least 2 children, got {children_count}"
    );
}

// ──────────────────────────────────────────
//  Sentence Type Detection Tests
// ──────────────────────────────────────────

#[test]
fn test_unknown_pos_parses_as_fallback() {
    let parser = SyntaxParser::default();
    let ctx = test_ctx();
    // Unknown POS should still parse with low confidence
    let input = make_morphology(&[(0, PartOfSpeech::Unknown, "???")]);
    let result = parser.process(input, &ctx);
    assert!(result.is_ok());
    let output = result.unwrap();
    assert_eq!(output.metadata.sentence_count, 1);
}

// ──────────────────────────────────────────
//  Determinism Test
// ──────────────────────────────────────────

#[test]
fn test_determinism() {
    let parser = SyntaxParser::default();
    let ctx = test_ctx();
    let tokens = [
        (0, PartOfSpeech::Verb, "كتب"),
        (1, PartOfSpeech::Noun, "زيد"),
    ];
    let output1 = parser.process(make_morphology(&tokens), &ctx).unwrap();
    let output2 = parser.process(make_morphology(&tokens), &ctx).unwrap();
    assert_eq!(output1.trees.len(), output2.trees.len());
    for (t1, t2) in output1.trees.iter().zip(&output2.trees) {
        assert_eq!(t1.tree_type, t2.tree_type);
        assert_eq!(t1.confidence, t2.confidence, "Confidence should be identical");
    }
}

#[test]
fn test_trees_ordered_by_confidence() {
    let parser = SyntaxParser::default();
    let ctx = test_ctx();
    let input = make_morphology(&[(0, PartOfSpeech::Unknown, "???")]);
    let output = parser.process(input, &ctx).unwrap();
    assert_eq!(output.trees.len(), 2);
    assert_eq!(output.trees[0].confidence, 400_000);
    assert_eq!(output.trees[0].root.role, SyntacticRole::Mubtada);
    assert_eq!(output.trees[1].confidence, 300_000);
    assert_eq!(output.metadata.ambiguity_count, 2);
    for w in output.trees.windows(2) {
        assert!(w[0].confidence >= w[1].confidence);
    }
}
