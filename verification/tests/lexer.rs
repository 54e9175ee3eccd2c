use agos::error::codes;
use agos::ir::{NormalizedText, RawToken};
use agos::lexer::{Lexer, LexerConfig};
use agos::pipeline::{PipelineContext, PipelineStage};
use agos::types::TokenType;
fn make_input(text: &str) -> NormalizedText {
    NormalizedText {
        spec: "SPEC-0001".to_string(),
        version: "1.0".to_string(),
        normalized_text: text.to_string(),
        original_text: text.to_string(),
        metadata: agos::ir::NormalizedTextMetadata {
            char_count: text.chars().count() as u64,
            byte_count: text.len() as u64,
            word_count_estimate: text.split_whitespace().count() as u64,
            has_tashkeel: false,
            has_tatweel: false,
            has_quranic_symbols: false,
            has_non_arabic: false,
            normalization_applied: vec![],
        },
        config_snapshot: agos::ir::NormalizedTextConfig {
            normalize_tashkeel: false,
            strip_tatweel: false,
            strict_arabic_only: false,
            max_input_size: 1_048_576,
        },
    }
}

#[test]
fn test_empty_text() {
    let lexer = Lexer::default();
    let ctx = PipelineContext::new(agos::types::GrammarSchool::Basra);
    let result = lexer.process(make_input(""), &ctx);
    assert!(result.is_err());
    assert_eq!(result.unwrap_err().code, codes::EMPTY_INPUT);
}

#[test]
fn test_simple_words() {
    let lexer = Lexer::default();
    let ctx = PipelineContext::new(agos::types::GrammarSchool::Basra);
    let input = "السَّلَامُ عَلَيْكُمْ";
    let result = lexer.process(make_input(input), &ctx);
    assert!(result.is_ok());
    let stream = result.unwrap();
    assert!(stream.metadata.has_tokens);
    // Two words separated by whitespace → 3 tokens [Word, WS, Word]
    assert_eq!(stream.metadata.token_count, 3);
    assert_eq!(stream.metadata.word_count, 2);
    assert_eq!(stream.tokens[0].token_type, TokenType::Word);
    assert_eq!(stream.tokens[1].token_type, TokenType::Whitespace);
    assert_eq!(stream.tokens[2].token_type, TokenType::Word);
}

#[test]
fn test_whitespace_preserved_by_default() {
    let lexer = Lexer::default();
    let ctx = PipelineContext::new(agos::types::GrammarSchool::Basra);
    let input = "مرحبًا    عالم";
    let result = lexer.process(make_input(input), &ctx);
    assert!(result.is_ok());
    let stream = result.unwrap();
    // Should have: [Word, Whitespace, Word]
    assert_eq!(stream.metadata.token_count, 3);
    assert_eq!(stream.tokens[1].token_type, TokenType::Whitespace);
}

#[test]
fn test_skip_whitespace() {
    let mut config = LexerConfig::default();
    config.skip_whitespace = true;
    let lexer = Lexer::new(config);
    let ctx = PipelineContext::new(agos::types::GrammarSchool::Basra);
    let input = "مرحبًا    عالم";
    let result = lexer.process(make_input(input), &ctx);
    assert!(result.is_ok());
    let stream = result.unwrap();
    // Whitespace should be filtered, only 2 words remain
    assert_eq!(stream.metadata.token_count, 2);
    assert_eq!(stream.tokens[0].token_type, TokenType::Word);
    assert_eq!(stream.tokens[1].token_type, TokenType::Word);
    // IDs should be re-assigned
    assert_eq!(stream.tokens[0].id, 0);
    assert_eq!(stream.tokens[1].id, 1);
}

#[test]
fn test_punctuation_tokens() {
    let lexer = Lexer::default();
    let ctx = PipelineContext::new(agos::types::GrammarSchool::Basra);
    let input = "مرحبًا! كيف حالك؟";
    let result = lexer.process(make_input(input), &ctx);
    assert!(result.is_ok());
    let stream = result.unwrap();
    // Token sequence: [Word, Punctuation, Whitespace, Word, Whitespace, Word, Punctuation]
    // But some whitespace tokens may be merged depending on RTL rendering
    assert_eq!(stream.metadata.word_count, 3);
    assert!(stream.metadata.has_tokens);
    assert_eq!(stream.tokens[0].token_type, TokenType::Word);
    assert!(stream.tokens[0].text.contains("مرحب"));
    // Find the punctuation tokens by scanning
    let punct_tokens: Vec<&RawToken> = stream.tokens
        .iter()
        .filter(|t| t.token_type == TokenType::Punctuation)
        .collect();
    assert_eq!(punct_tokens.len(), 2, "Should have 2 punctuation tokens");
    assert!(punct_tokens[0].text.contains("!"), "First punct should contain !");
}

#[test]
fn test_consecutive_punctuation_grouped() {
    let lexer = Lexer::default();
    let ctx = PipelineContext::new(agos::types::GrammarSchool::Basra);
    // Use simple ASCII punctuation to verify grouping
    let input = "word!!";
    let result = lexer.process(make_input(input), &ctx);
    assert!(result.is_ok());
    let stream = result.unwrap();
    // Token sequence: [Unknown, Punctuation] (ASCII letters are 'Other')
    assert_eq!(stream.metadata.token_count, 2);
    assert_eq!(stream.tokens[0].token_type, TokenType::Unknown);
    assert_eq!(stream.tokens[1].token_type, TokenType::Punctuation);
    // Both exclamation marks should be grouped into one token
    assert_eq!(stream.tokens[1].text, "!!", "Consecutive punctuation should be grouped");
}

#[test]
fn test_numbers() {
    let lexer = Lexer::default();
    let ctx = PipelineContext::new(agos::types::GrammarSchool::Basra);
    // Arabic-Indic digits and regular digits
    let input = "السنة ١٤٤٦";
    let result = lexer.process(make_input(input), &ctx);
    assert!(result.is_ok());
    let stream = result.unwrap();
    // [Word, Whitespace, Number]
    assert_eq!(stream.metadata.token_count, 3);
    assert_eq!(stream.tokens[0].token_type, TokenType::Word);
    assert_eq!(stream.tokens[2].token_type, TokenType::Number);
    assert!(stream.tokens[2].text.contains("١٤٤٦"));
}

#[test]
fn test_byte_offsets() {
    let lexer = Lexer::default();
    let ctx = PipelineContext::new(agos::types::GrammarSchool::Basra);
    let input = "abc 123";
    let result = lexer.process(make_input(input), &ctx);
    assert!(result.is_ok());
    let stream = result.unwrap();
    // [Word("abc"), Whitespace(" "), Number("123")]
    assert_eq!(stream.tokens[0].text, "abc");
    assert_eq!(stream.tokens[0].start_offset, 0);
    assert_eq!(stream.tokens[0].end_offset, 3);
    assert_eq!(stream.tokens[1].start_offset, 3);
    assert_eq!(stream.tokens[1].end_offset, 4);
    assert_eq!(stream.tokens[2].start_offset, 4);
    assert_eq!(stream.tokens[2].end_offset, 7);
}

#[test]
fn test_tashkeel_included_in_word() {
    let lexer = Lexer::default();
    let ctx = PipelineContext::new(agos::types::GrammarSchool::Basra);
    let input = "السَّلَامُ";
    let result = lexer.process(make_input(input), &ctx);
    assert!(result.is_ok());
    let stream = result.unwrap();
    // All characters including tashkeel should be one Word token
    assert_eq!(stream.metadata.token_count, 1);
    assert_eq!(stream.tokens[0].token_type, TokenType::Word);
    assert!(stream.tokens[0].text.contains('\u{064E}')); // Fatha
    assert!(stream.tokens[0].text.contains('\u{064F}')); // Damma
}

#[test]
fn test_standalone_tashkeel_is_unknown() {
    let lexer = Lexer::default();
    let ctx = PipelineContext::new(agos::types::GrammarSchool::Basra);
    // Lone tashkeel with no adjacent Arabic letter → Unknown token
    // ASCII letters are classified as Other, not ArabicLetter, so
    // the tashkeel won't merge into a word
    let input = "a\u{0651}b"; // shadda between two ASCII chars
    let result = lexer.process(make_input(input), &ctx);
    assert!(result.is_ok());
    let stream = result.unwrap();
    // [Unknown("a"), Unknown("\u{0651}"), Unknown("b")]
    // Each should be its own token since they're different char classes
    assert_eq!(stream.metadata.token_count, 3);
    assert_eq!(stream.tokens[1].token_type, TokenType::Unknown);
}

#[test]
fn lexer_test_pipeline_stage_trait() {
    let lexer = Lexer::default();
    assert_eq!(lexer.stage_id(), "MOD-02");

    let ctx = PipelineContext::new(agos::types::GrammarSchool::Basra);
    let result = lexer.validate_config(&ctx);
    assert!(result.is_ok());
}

#[test]
fn test_token_stream_spec_fields() {
    let lexer = Lexer::default();
    let ctx = PipelineContext::new(agos::types::GrammarSchool::Basra);
    let result = lexer.process(make_input("مرحبًا"), &ctx);
    assert!(result.is_ok());
    let stream = result.unwrap();
    assert_eq!(stream.spec, "SPEC-0001");
    assert_eq!(stream.version, "1.0");
}

#[test]
fn test_tokens_ordered_and_id_sequential() {
    let lexer = Lexer::default();
    let ctx = PipelineContext::new(agos::types::GrammarSchool::Basra);
    let input = "وَاحِد اثْنَان ثَلَاثَة";
    let result = lexer.process(make_input(input), &ctx);
    assert!(result.is_ok());
    let stream = result.unwrap();
    // [Word("وَاحِد"), Whitespace(" "), Word("اثْنَان"), Whitespace(" "), Word("ثَلَاثَة")]
    assert_eq!(stream.tokens.len(), 5);
    for (i, token) in stream.tokens.iter().enumerate() {
        assert_eq!(token.id, i, "Token ID should match position");
    }
    assert_eq!(stream.tokens[0].text, "وَاحِد");
    assert_eq!(stream.tokens[2].text, "اثْنَان");
    assert_eq!(stream.tokens[4].text, "ثَلَاثَة");
}

#[test]
fn test_mixed_arabic_and_latin() {
    let lexer = Lexer::default();
    let ctx = PipelineContext::new(agos::types::GrammarSchool::Basra);
    // ASCII letters are classified as Other → Unknown token type
    let input = "كتاب PDF";
    let result = lexer.process(make_input(input), &ctx);
    assert!(result.is_ok());
    let stream = result.unwrap();
    // [Word("كتاب"), Whitespace(" "), Unknown("PDF")]
    assert_eq!(stream.metadata.token_count, 3);
    assert_eq!(stream.tokens[0].token_type, TokenType::Word);
    assert_eq!(stream.tokens[2].token_type, TokenType::Unknown);
}

#[test]
fn test_start_end_offsets_span_full_range() {
    let lexer = Lexer::default();
    let ctx = PipelineContext::new(agos::types::GrammarSchool::Basra);
    let input = "أ ب";
    let result = lexer.process(make_input(input), &ctx);
    assert!(result.is_ok());
    let stream = result.unwrap();
    // [Word("أ"), Whitespace(" "), Word("ب")]
    assert_eq!(stream.tokens.len(), 3);
    // First token starts at 0, last token ends at text length
    assert_eq!(stream.tokens[0].start_offset, 0);
    assert_eq!(stream.tokens[2].end_offset, input.len());
}

#[test]
fn test_tokens_reassemble_text() {
    let lexer = Lexer::default();
    let input = "قال: السلام ١٢ abc!";
    let stream = lexer.tokenize(make_input(input)).unwrap();
    let joined: String = stream.tokens.iter().map(|t| t.text.as_str()).collect();
    assert_eq!(joined, input);
    let mut offset = 0;
    for t in &stream.tokens {
        assert_eq!(t.start_offset, offset);
        offset = t.end_offset;
    }
    assert_eq!(offset, input.len());
}

#[test]
fn test_diacritics_kept_out_of_words_when_configured() {
    let lexer = Lexer::new(LexerConfig { skip_whitespace: false, include_tashkeel_in_words: false });
    let stream = lexer.tokenize(make_input("بَ")).unwrap();
    assert_eq!(stream.tokens.len(), 2);
    assert_eq!(stream.tokens[0].text, "ب");
    assert_eq!(stream.tokens[0].token_type, TokenType::Word);
    assert_eq!(stream.tokens[0].start_offset, 0);
    assert_eq!(stream.tokens[0].end_offset, 2);
    assert_eq!(stream.tokens[1].text, "\u{064E}");
    assert_eq!(stream.tokens[1].token_type, TokenType::Unknown);
    assert_eq!(stream.metadata.word_count, 1);
}

#[test]
fn test_skip_whitespace_matches_filtered_tokens() {
    let ctx = PipelineContext::new(agos::types::GrammarSchool::Basra);
    let input = "قال ، الرجل  2024 !";
    let kept = Lexer::new(LexerConfig { skip_whitespace: false, include_tashkeel_in_words: true })
        .process(make_input(input), &ctx)
        .unwrap();
    let skipped = Lexer::new(LexerConfig { skip_whitespace: true, include_tashkeel_in_words: true })
        .process(make_input(input), &ctx)
        .unwrap();
    let expected: Vec<(String, TokenType, usize, usize)> = kept
        .tokens
        .iter()
        .filter(|t| t.token_type != TokenType::Whitespace)
        .map(|t| (t.text.clone(), t.token_type, t.start_offset, t.end_offset))
        .collect();
    let got: Vec<(String, TokenType, usize, usize)> = skipped
        .tokens
        .iter()
        .map(|t| (t.text.clone(), t.token_type, t.start_offset, t.end_offset))
        .collect();
    assert_eq!(got, expected);
    assert_eq!(got.len(), 5);
    for (i, t) in skipped.tokens.iter().enumerate() {
        assert_eq!(t.id, i);
    }
    assert_eq!(skipped.text, kept.text);
    assert_eq!(skipped.metadata.word_count, kept.metadata.word_count);
    assert_eq!(skipped.metadata.token_count, 5);
}
