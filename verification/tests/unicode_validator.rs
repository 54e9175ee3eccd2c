use agos::config::UnicodeValidatorConfig;
use agos::error::codes;
use agos::pipeline::{PipelineContext, PipelineStage};
use agos::types::GrammarSchool;
use agos::unicode_validator::UnicodeValidator;
fn test_context() -> PipelineContext {
    PipelineContext::new(GrammarSchool::Basra)
}

// ── Basic Functionality ──

#[test]
fn test_valid_arabic_text() {
    let validator = UnicodeValidator::default();
    let ctx = test_context();
    let input = "السَّلَامُ عَلَيْكُمْ".to_string();
    let result = validator.process(input.clone(), &ctx);
    assert!(result.is_ok(), "Expected Ok, got: {:?}", result);
    let output = result.unwrap();
    assert_eq!(output.original_text, input);
    assert!(!output.normalized_text.is_empty());
    assert!(output.metadata.char_count > 0);
    assert!(output.metadata.byte_count > 0);
    assert_eq!(output.spec, "SPEC-0001");
    assert_eq!(output.version, "1.0");
}

#[test]
fn unicode_validator_test_empty_input() {
    let validator = UnicodeValidator::default();
    let ctx = test_context();
    let result = validator.process(String::new(), &ctx);
    assert!(result.is_err());
    assert_eq!(result.unwrap_err().code, codes::EMPTY_INPUT);
}

#[test]
fn test_max_length_exceeded() {
    let mut config = UnicodeValidatorConfig::default();
    config.max_input_size = 10; // Very small limit
    let validator = UnicodeValidator::new(config);
    let ctx = test_context();
    let result = validator.process("السَّلَامُ عَلَيْكُمْ".to_string(), &ctx);
    assert!(result.is_err());
    assert_eq!(result.unwrap_err().code, codes::MAX_LENGTH_EXCEEDED);
}

// ── Character Validation ──

#[test]
fn test_strict_mode_rejects_latin() {
    let validator = UnicodeValidator::strict();
    let ctx = test_context();
    let result = validator.process("Hello السَّلَام".to_string(), &ctx);
    assert!(result.is_err());
    assert_eq!(result.unwrap_err().code, codes::NON_ARABIC_CHAR);
}

#[test]
fn test_permissive_mode_preserves_latin() {
    let validator = UnicodeValidator::permissive();
    let ctx = test_context();
    let result = validator.process("Hello السَّلَام".to_string(), &ctx);
    assert!(result.is_ok());
    let output = result.unwrap();
    assert!(output.metadata.has_non_arabic);
    // NFKC normalization doesn't change ASCII
    assert!(output.normalized_text.contains("Hello"));
}

#[test]
fn test_arabic_digits_allowed() {
    let validator = UnicodeValidator::strict();
    let ctx = test_context();
    // Arabic-Indic digits ٠١٢٣٤٥٦٧٨٩
    let input = "السنة ١٤٤٦".to_string();
    let result = validator.process(input, &ctx);
    assert!(result.is_ok(), "Arabic digits should be allowed in strict mode");
}

#[test]
fn test_quranic_symbols_detected() {
    let validator = UnicodeValidator::default();
    let ctx = test_context();
    // ﷽ (Basmala) with Quranic symbols — U+06D6 range
    let input = "بِسْمِ ٱللَّهِ \u{06D6}".to_string();
    let result = validator.process(input, &ctx);
    assert!(result.is_ok());
    let output = result.unwrap();
    assert!(output.metadata.has_quranic_symbols);
}

// ── Normalization ──

#[test]
fn test_nfkc_decomposes_ligature() {
    let validator = UnicodeValidator::default();
    let ctx = test_context();
    // Lam-Alef ligature (ﷲ, U+FDF2) should be decomposed by NFKC
    // but NOT by NFC. This test verifies we're using NFKC.
    let input = "\u{FDF2}".to_string(); // U+FDF2 (lam-alef ligature)
    let result = validator.process(input, &ctx);
    assert!(result.is_ok());
    let output = result.unwrap();
    // NFKC decomposes U+FDF2 into multiple characters
    // NFC would preserve the single character
    assert!(
        output.normalized_text.len() > 3,
        "NFKC should decompose the ligature into multiple chars"
    );
    assert!(
        output.metadata.normalization_applied.contains(&"NFKC".to_string()),
        "Should record NFKC normalization"
    );
}

#[test]
fn test_tatweel_stripping() {
    let mut config = UnicodeValidatorConfig::default();
    config.strip_tatweel = true;
    let validator = UnicodeValidator::new(config);
    let ctx = test_context();
    // Text with tatweel (kashida)
    let input = "مـــــــد".to_string();
    let result = validator.process(input, &ctx);
    assert!(result.is_ok());
    let output = result.unwrap();
    // Tatweel characters should be removed
    assert!(!output.normalized_text.contains('\u{0640}'));
    assert!(
        output
            .metadata
            .normalization_applied
            .contains(&"strip_tatweel".to_string())
    );
}

#[test]
fn test_tashkeel_stripping() {
    let mut config = UnicodeValidatorConfig::default();
    config.normalize_tashkeel = true;
    let validator = UnicodeValidator::new(config);
    let ctx = test_context();
    // Text with tashkeel
    let input = "السَّلَامُ".to_string();
    let result = validator.process(input, &ctx);
    assert!(result.is_ok());
    let output = result.unwrap();
    // Tashkeel characters should be removed
    // السَّلَامُ without tashkeel = السلام
    assert_eq!(output.normalized_text, "السلام");
    assert!(
        output
            .metadata
            .normalization_applied
            .contains(&"strip_tashkeel".to_string())
    );
}

#[test]
fn test_tatweel_and_tashkeel_metadata() {
    let validator = UnicodeValidator::default();
    let ctx = test_context();
    let input = "السَّلَامُ".to_string();
    let result = validator.process(input, &ctx);
    assert!(result.is_ok());
    let output = result.unwrap();
    // Without stripping, metadata should note presence
    assert!(output.metadata.has_tashkeel, "Tashkeel should be detected");
}

// ── PipelineStage Integration ──

#[test]
fn unicode_validator_test_pipeline_stage_trait() {
    let validator = UnicodeValidator::default();
    assert_eq!(validator.stage_id(), "MOD-01");

    let ctx = test_context();
    let result = validator.validate_config(&ctx);
    assert!(result.is_ok());
}

#[test]
fn test_validate_config_rejects_zero_max_size() {
    let mut config = UnicodeValidatorConfig::default();
    config.max_input_size = 0;
    let validator = UnicodeValidator::new(config);
    let ctx = test_context();
    let result = validator.validate_config(&ctx);
    assert!(result.is_err());
}

// ── Whitespace-only Input ──

#[test]
fn test_whitespace_only_is_valid() {
    let validator = UnicodeValidator::default();
    let ctx = test_context();
    let result = validator.process("   \n  \t  ".to_string(), &ctx);
    assert!(result.is_ok(), "Whitespace-only should be valid");
    let output = result.unwrap();
    // After NFKC normalization, whitespace is preserved
    assert!(output.metadata.char_count > 0);
    assert_eq!(output.metadata.word_count_estimate, 0);
}

// ── Large Input ──

#[test]
fn test_large_arabic_text() {
    let validator = UnicodeValidator::default();
    let ctx = test_context();
    // Generate a moderately large Arabic string
    let sentence = "السَّلَامُ عَلَيْكُمْ وَرَحْمَةُ اللَّهِ وَبَرَكَاتُهُ ";
    let large_input: String = sentence.repeat(100);
    assert!(large_input.len() < validator.config.max_input_size);
    let result = validator.process(large_input, &ctx);
    assert!(result.is_ok());
    let output = result.unwrap();
    assert!(output.metadata.char_count > 0);
    assert!(output.metadata.word_count_estimate > 0);
}

// ── Original Text Preservation ──

#[test]
fn test_original_text_preserved() {
    let validator = UnicodeValidator::strict();
    let ctx = test_context();
    let input = "السَّلَامُ عَلَيْكُمْ".to_string();
    let result = validator.process(input.clone(), &ctx);
    assert!(result.is_ok());
    let output = result.unwrap();
    assert_eq!(output.original_text, input);
}
