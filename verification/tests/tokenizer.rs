use agos::error::codes;
use agos::ir::{RawToken, TokenStream, TokenStreamMetadata};
use agos::pipeline::{PipelineContext, PipelineStage};
use agos::tokenizer::{Tokenizer, TokenizerConfig};
use agos::types::{GrammarSchool, MorphemeType, TokenType};
/// Helper to build a TokenStream from raw text tokens.
fn make_token_stream(words: &[(&str, TokenType)]) -> TokenStream {
    let mut tokens = Vec::new();
    let mut offset: usize = 0;
    for (i, &(text, tt)) in words.iter().enumerate() {
        tokens.push(RawToken {
            id: i,
            text: text.to_string(),
            token_type: tt,
            start_offset: offset,
            end_offset: offset + text.len(),
        });
        offset += text.len();
    }
    let text: String = words.iter().map(|(t, _)| *t).collect();
    let token_count = tokens.len() as u64;
    let word_count = tokens.iter().filter(|t| t.token_type == TokenType::Word).count() as u64;
    TokenStream {
        spec: "SPEC-0001".to_string(),
        version: "1.0".to_string(),
        text,
        tokens,
        metadata: TokenStreamMetadata {
            token_count,
            word_count,
            has_tokens: token_count > 0,
        },
    }
}

fn test_context() -> PipelineContext {
    PipelineContext::new(GrammarSchool::Basra)
}

// ── Basic Functionality ──

#[test]
fn test_simple_word_no_clitics() {
    let tokenizer = Tokenizer::default();
    let ctx = test_context();
    // Simple word without prefixes or suffixes
    let stream = make_token_stream(&[("كتاب", TokenType::Word)]);
    let result = tokenizer.process(stream, &ctx);
    assert!(result.is_ok());
    let output = result.unwrap();
    assert_eq!(output.tokens.len(), 1);
    // Should have at least the default segmentation
    assert!(output.tokens[0].segmentations.len() >= 1);
}

#[test]
fn test_word_with_wa_prefix() {
    let tokenizer = Tokenizer::default();
    let ctx = test_context();
    // وَ (wa = "and") + كَتَبَ (kataba = "he wrote") => وَكَتَبَ
    let stream = make_token_stream(&[("وَكَتَبَ", TokenType::Word)]);
    let result = tokenizer.process(stream, &ctx);
    assert!(result.is_ok());
    let output = result.unwrap();
    let segs = &output.tokens[0].segmentations;
    // Should have at least a segmentation with وَ as prefix
    let wa_seg = segs.iter().find(|s| {
        s.morphemes.first().map(|m| m.text == "وَ" && m.morpheme_type == MorphemeType::Prefix)
            == Some(true)
    });
    assert!(wa_seg.is_some(), "Should find segmentation with و prefix");
}

#[test]
fn test_word_with_pronoun_suffix() {
    let tokenizer = Tokenizer::default();
    let ctx = test_context();
    // كتاب (kitab = "book") + هُ ( = "his") => كِتَابُهُ (nominative)
    // Note: the vowel on the enclitic depends on grammatical case
    let stream = make_token_stream(&[("كِتَابُهُ", TokenType::Word)]);
    let result = tokenizer.process(stream, &ctx);
    assert!(result.is_ok());
    let output = result.unwrap();
    let segs = &output.tokens[0].segmentations;
    let suffix_seg = segs.iter().find(|s| {
        s.morphemes.last().map(|m| m.text == "هُ" && m.morpheme_type == MorphemeType::Suffix)
            == Some(true)
    });
    assert!(suffix_seg.is_some(), "Should find segmentation with ه suffix");
}

#[test]
fn test_word_with_prefix_and_suffix() {
    let tokenizer = Tokenizer::default();
    let ctx = test_context();
    // و (wa) + بِ (bi) + كِتَاب (kitab) + هُ (hu) => وَبِكِتَابُهُ (nominative)
    // Note: the vowel on the enclitic depends on grammatical case
    let stream = make_token_stream(&[("وَبِكِتَابُهُ", TokenType::Word)]);
    let result = tokenizer.process(stream, &ctx);
    assert!(result.is_ok());
    let output = result.unwrap();
    let segs = &output.tokens[0].segmentations;
    // Find the full segmentation with prefix and suffix
    let full_seg = segs.iter().find(|s| {
        s.morphemes.len() >= 3
            && s.morphemes[0].morpheme_type == MorphemeType::Prefix
            && s.morphemes[1].morpheme_type == MorphemeType::Stem
            && s.morphemes.last().unwrap().morpheme_type == MorphemeType::Suffix
    });
    assert!(full_seg.is_some(), "Should find full prefix+stem+suffix segmentation");
}

#[test]
fn test_empty_token_stream() {
    let tokenizer = Tokenizer::default();
    let ctx = test_context();
    let stream = make_token_stream(&[]);
    let result = tokenizer.process(stream, &ctx);
    assert!(result.is_ok());
    let output = result.unwrap();
    assert_eq!(output.tokens.len(), 0);
    assert_eq!(output.metadata.total_tokens, 0);
}

// ── Non-Word Token Handling ──

#[test]
fn test_non_word_tokens_unchanged() {
    let tokenizer = Tokenizer::default();
    let ctx = test_context();
    let stream = make_token_stream(&[
        ("كتاب", TokenType::Word),
        (" ", TokenType::Whitespace),
        ("!", TokenType::Punctuation),
        ("123", TokenType::Number),
    ]);
    let result = tokenizer.process(stream, &ctx);
    assert!(result.is_ok());
    let output = result.unwrap();
    assert_eq!(output.tokens.len(), 4);
    // Non-word tokens should have 1 segmentation (particle)
    for token in &output.tokens {
        if token.raw_token.token_type != TokenType::Word {
            assert_eq!(token.segmentations.len(), 1,
                "Non-word token should have 1 segmentation");
            assert_eq!(
                token.segmentations[0].morphemes[0].morpheme_type,
                MorphemeType::Particle
            );
        }
    }
}

// ── Confidence Scoring ──

#[test]
fn test_confidence_scoring() {
    let tokenizer = Tokenizer::default();
    let ctx = test_context();
    // Multiple clitics: وَ + كَتَب + وا (they wrote) => وَكَتَبُوا
    let stream = make_token_stream(&[("وَكَتَبُوا", TokenType::Word)]);
    let result = tokenizer.process(stream, &ctx);
    assert!(result.is_ok());
    let output = result.unwrap();
    let segs = &output.tokens[0].segmentations;
    // The no-clitic (default) segmentation should have lowest confidence
    let default_seg = segs.iter().find(|s| s.morphemes.len() == 1);
    assert!(default_seg.is_some());
    assert!(
        default_seg.unwrap().confidence < 700_000,
        "Default segmentation should have low confidence"
    );
}

// ── Metadata ──

#[test]
fn tokenizer_test_metadata_counts() {
    let tokenizer = Tokenizer::default();
    let ctx = test_context();
    let stream = make_token_stream(&[
        ("وَكَتَبَ", TokenType::Word),    // segmentable
        (" ", TokenType::Whitespace),       // not segmentable (non-word)
        ("كِتَابُهُ", TokenType::Word),    // segmentable
        ("!", TokenType::Punctuation),      // not segmentable
    ]);
    let result = tokenizer.process(stream, &ctx);
    assert!(result.is_ok());
    let output = result.unwrap();
    assert_eq!(output.metadata.total_tokens, 4);
    assert_eq!(output.metadata.segmentable_tokens, 2);
}

// ── Clitic Combinations ──

#[test]
fn test_combined_proclitic_fabi() {
    let tokenizer = Tokenizer::default();
    let ctx = test_context();
    // فَبِ (fa + bi = "and with/by") + اَللَّهِ (allahi = "Allah") => فَبِاللَّهِ
    let stream = make_token_stream(&[("فَبِاللَّهِ", TokenType::Word)]);
    let result = tokenizer.process(stream, &ctx);
    assert!(result.is_ok());
    let output = result.unwrap();
    let segs = &output.tokens[0].segmentations;
    // Should find segmentation with فَبِ as a combined prefix
    let has_fabi = segs.iter().any(|s| {
        s.morphemes.first().map(|m| m.text == "فَبِ") == Some(true)
    });
    assert!(has_fabi, "Should find combined فَبِ prefix");
}

#[test]
fn test_default_segmentation_always_present() {
    let tokenizer = Tokenizer::default();
    let ctx = test_context();
    let stream = make_token_stream(&[("بِسْمِ", TokenType::Word)]);
    let result = tokenizer.process(stream, &ctx);
    assert!(result.is_ok());
    let output = result.unwrap();
    let segs = &output.tokens[0].segmentations;
    // The default (no clitics) segmentation should always be present
    let default = segs.iter().find(|s| s.morphemes.len() == 1);
    assert!(default.is_some(), "Default segmentation should always exist");
    assert_eq!(default.unwrap().morphemes[0].text, "بِسْمِ");
}

// ── Edge Cases ──

#[test]
fn test_short_token_no_clitic_match() {
    let tokenizer = Tokenizer::default();
    let ctx = test_context();
    // Very short token "ل" shouldn't produce extra segmentations
    // (it's shorter than most clitics)
    let stream = make_token_stream(&[("ل", TokenType::Word)]);
    let result = tokenizer.process(stream, &ctx);
    assert!(result.is_ok());
    let output = result.unwrap();
    let segs = &output.tokens[0].segmentations;
    // Should only have the default segmentation
    assert_eq!(segs.len(), 1, "Short token should only have default segmentation");
}

#[test]
fn test_definite_article_is_segmented() {
    let tokenizer = Tokenizer::default();
    let ctx = test_context();
    // الكتاب (al-kitabu = "the book") — ال is now segmented
    // After MOD-01 tashkeel normalization: "الْكِتَابُ" → "الكتاب"
    let stream = make_token_stream(&[("الكتاب", TokenType::Word)]);
    let result = tokenizer.process(stream, &ctx);
    assert!(result.is_ok());
    let output = result.unwrap();
    let segs = &output.tokens[0].segmentations;

    // There SHOULD be a segmentation that separates ال from the stem
    let al_seg = segs.iter().find(|s| {
        s.morphemes.first()
            .map(|m| m.text == "ال" && m.morpheme_type == MorphemeType::Prefix)
            == Some(true)
            && s.morphemes.iter().any(|m| m.morpheme_type == MorphemeType::Stem)
    });
    assert!(
        al_seg.is_some(),
        "Should find segmentation with ال prefix + stem"
    );

    // The stem should be "كتاب" after removing ال
    if let Some(seg) = al_seg {
        let stem = seg.morphemes.iter()
            .find(|m| m.morpheme_type == MorphemeType::Stem)
            .expect("Segmentation should have a stem");
        assert_eq!(stem.text, "كتاب", "Stem after ال should be كتاب");
    }

    // The default (unsegmented) segmentation should still be present
    let has_default = segs.iter().any(|s| s.morphemes.len() == 1);
    assert!(has_default, "Default (unsegmented) segmentation should still be present");
}

#[test]
fn test_duplicate_segmentations_deduplicated() {
    let tokenizer = Tokenizer::default();
    let ctx = test_context();
    // A word that might produce the same segmentation via different paths
    let stream = make_token_stream(&[("اللَّهِ", TokenType::Word)]);
    let result = tokenizer.process(stream, &ctx);
    assert!(result.is_ok());
    let output = result.unwrap();
    let segs = &output.tokens[0].segmentations;
    // Check no duplicate segmentations (same morpheme texts and types)
    for i in 0..segs.len() {
        for j in (i + 1)..segs.len() {
            let same = segs[i].morphemes.len() == segs[j].morphemes.len()
                && segs[i]
                    .morphemes
                    .iter()
                    .zip(&segs[j].morphemes)
                    .all(|(a, b)| a.text == b.text && a.morpheme_type == b.morpheme_type);
            assert!(!same, "No duplicate segmentations allowed");
        }
    }
}

#[test]
fn tokenizer_test_pipeline_stage_trait() {
    let tokenizer = Tokenizer::default();
    assert_eq!(tokenizer.stage_id(), "MOD-03");
    let ctx = test_context();
    let result = tokenizer.validate_config(&ctx);
    assert!(result.is_ok());
}

#[test]
fn test_validate_config_rejects_zero_max() {
    let tokenizer = Tokenizer::new(TokenizerConfig { max_segmentations: 0 });
    let ctx = test_context();
    let result = tokenizer.validate_config(&ctx);
    assert!(result.is_err());
    assert_eq!(result.unwrap_err().code, codes::INVALID_REQUEST);
}

#[test]
fn test_segmented_token_stream_spec_fields() {
    let tokenizer = Tokenizer::default();
    let ctx = test_context();
    let stream = make_token_stream(&[("السَّلَامُ", TokenType::Word)]);
    let result = tokenizer.process(stream, &ctx);
    assert!(result.is_ok());
    let output = result.unwrap();
    assert_eq!(output.spec, "SPEC-0001");
    assert_eq!(output.version, "1.0");
}

#[test]
fn test_word_with_bi_proclitic() {
    let tokenizer = Tokenizer::default();
    let ctx = test_context();
    // بِ (bi = "with/by") + سْمِ (ismi = "name") => بِسْمِ
    let stream = make_token_stream(&[("بِسْمِ", TokenType::Word)]);
    let result = tokenizer.process(stream, &ctx);
    assert!(result.is_ok());
    let output = result.unwrap();
    let segs = &output.tokens[0].segmentations;
    let bi_seg = segs.iter().find(|s| {
        s.morphemes.first().map(|m| m.text == "بِ" && m.morpheme_type == MorphemeType::Prefix)
            == Some(true)
    });
    assert!(bi_seg.is_some(), "Should find segmentation with بِ prefix");
    // The stem should be the remaining text
    let stem = bi_seg.unwrap().morphemes.iter().find(|m| m.morpheme_type == MorphemeType::Stem);
    assert!(stem.is_some());
    assert_eq!(stem.unwrap().text, "سْمِ");
}

#[test]
fn test_word_with_plural_suffix_una() {
    let tokenizer = Tokenizer::default();
    let ctx = test_context();
    // كتاب + ونَ (plural masc nom) => كَتَبُونَ
    let stream = make_token_stream(&[("كَتَبُونَ", TokenType::Word)]);
    let result = tokenizer.process(stream, &ctx);
    assert!(result.is_ok());
    let output = result.unwrap();
    let segs = &output.tokens[0].segmentations;
    let suffix_seg = segs.iter().find(|s| {
        s.morphemes.last().map(|m| m.text == "ونَ" && m.morpheme_type == MorphemeType::Suffix)
            == Some(true)
    });
    assert!(suffix_seg.is_some(), "Should find segmentation with ونَ suffix");
}

#[test]
fn test_real_arabic_phrase() {
    let tokenizer = Tokenizer::default();
    let ctx = test_context();
    // وَعَلَيْكُمُ (wa + alaykumu = "and upon you all")
    let stream = make_token_stream(&[("وَعَلَيْكُمُ", TokenType::Word)]);
    let result = tokenizer.process(stream, &ctx);
    assert!(result.is_ok());
    let output = result.unwrap();
    let segs = &output.tokens[0].segmentations;
    // Should have at least the default and some clitic-based segmentations
    assert!(segs.len() >= 1);
    // The default segmentation should have the full word as stem
    let default = segs.iter().find(|s| s.morphemes.len() == 1);
    assert!(default.is_some());
    assert_eq!(default.unwrap().morphemes[0].text, "وَعَلَيْكُمُ");
}
