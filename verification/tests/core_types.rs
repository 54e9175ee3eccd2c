use agos::error::{codes, PipelineError};
use agos::feature::FeatureBitfield;
use agos::kb_error::KbError;
use agos::morph_error::MorphError;
use agos::pipeline::{iso8601_from_unix_secs, PipelineContext};
use agos::syntax_error::SyntaxError;
use agos::types::{GrammarSchool, PartOfSpeech, PipelineMode};
use agos::version::SemVer;

#[test]
fn test_bitfield_read_after_write() {
    let b = FeatureBitfield::new()
        .with_pos(PartOfSpeech::Verb.code())
        .with_gender(2)
        .with_tense(1)
        .with_verb_form(10)
        .with_has_hamza(true);
    assert_eq!(b.pos(), 0);
    assert_eq!(b.gender(), 2);
    assert_eq!(b.tense(), 1);
    assert_eq!(b.verb_form(), 10);
    assert!(b.has_hamza());
    assert!(!b.has_shadda());
    // Writing one field leaves the others alone; writing twice keeps the last.
    let c = b.with_gender(1).with_gender(3);
    assert_eq!(c.gender(), 3);
    assert_eq!(c.verb_form(), 10);
    assert_eq!(FeatureBitfield::new().to_raw(), 0);
    assert_eq!(FeatureBitfield::from_raw(0x1234).to_raw(), 0x1234);
}

#[test]
fn test_pos_codes_roundtrip() {
    for pos in [PartOfSpeech::Verb, PartOfSpeech::Noun, PartOfSpeech::Pronoun, PartOfSpeech::Interrogative] {
        assert_eq!(PartOfSpeech::from_code(pos.code()), pos);
    }
    assert_eq!(PartOfSpeech::Noun.code(), 1);
}

#[test]
fn test_semver_parse_and_render() {
    let v = SemVer::parse("1.2.3").unwrap();
    assert_eq!(v, SemVer::new(1, 2, 3));
    assert_eq!(v.to_version_string(), "1.2.3");
    assert_eq!(SemVer::parse(&SemVer::new(10, 0, 65535).to_version_string()), Some(SemVer::new(10, 0, 65535)));
    assert!(SemVer::parse("1.2").is_none());
    assert!(SemVer::parse("1.2.x").is_none());
    assert!(SemVer::parse("1.2.70000").is_none());
}

#[test]
fn test_semver_compatibility() {
    let min = SemVer::new(1, 2, 3);
    assert!(min.is_compatible_with(&min));
    assert!(SemVer::new(1, 3, 0).is_compatible_with(&min));
    assert!(SemVer::new(1, 2, 4).is_compatible_with(&min));
    assert!(!SemVer::new(1, 2, 2).is_compatible_with(&min));
    assert!(!SemVer::new(2, 2, 3).is_compatible_with(&min));
}

#[test]
fn test_error_builders() {
    let e = PipelineError::fatal("X", "boom", "MOD-09").with_hint("retry").with_inner("cause");
    assert!(e.is_fatal);
    assert_eq!(e.recovery_hint.as_deref(), Some("retry"));
    assert_eq!(e.inner.as_deref(), Some("cause"));
    assert_eq!(e.describe(), "[MOD-09] X: boom");
    let d = PipelineError::degraded("Y", "soft", "MOD-01");
    assert!(!d.is_fatal);
}

#[test]
fn test_stage_errors_into_pipeline() {
    let e = KbError::NotFound("KB-0001".to_string()).into_pipeline_error("MOD-08");
    assert_eq!(e.code, codes::KB_MISSING);
    assert_eq!(e.message, "KB not found: KB-0001");
    let e = KbError::IoError("disk".to_string()).into_pipeline_error("MOD-08");
    assert_eq!(e.code, codes::KB_LOAD_FAILURE);
    assert_eq!(e.message, "KB I/O: disk");

    let e = SyntaxError::SentenceTooLong { token_count: 9, max_length: 4 }.into_pipeline("MOD-05");
    assert_eq!(e.code, codes::SENTENCE_TOO_LONG);
    assert_eq!(e.stage, "MOD-05");

    let e = MorphError::MaxSegmentationsExceeded { token_id: 3, limit: 2, actual: 5 }.into_pipeline("MOD-03");
    assert_eq!(e.code, codes::MAX_SEGMENTATIONS_EXCEEDED);
    assert_eq!(e.message, "Token 3: 5 segmentations exceeds limit of 2");
    let e = MorphError::UnknownStem { stem: "x".to_string() }.into_pipeline("MOD-04");
    assert!(e.is_fatal);
}

#[test]
fn test_context_builders() {
    let ctx = PipelineContext::new(GrammarSchool::Kufa).with_mode(PipelineMode::Full).with_explanation_language("ar");
    assert_eq!(ctx.school, GrammarSchool::Kufa);
    assert_eq!(ctx.explanation_language, "ar");
}

#[test]
fn test_iso8601_rendering() {
    assert_eq!(iso8601_from_unix_secs(0), "1970-01-01T00:00:00Z");
    assert_eq!(iso8601_from_unix_secs(951_782_400), "2000-02-29T00:00:00Z");
    assert_eq!(iso8601_from_unix_secs(1_700_000_000), "2023-11-14T22:13:20Z");
}
