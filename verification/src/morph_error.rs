//! Errors of the morphology stages (MOD-01 to MOD-04).

use vstd::prelude::*;

use crate::error::{codes, PipelineError};
use crate::text::{append_str, decimal, hex_upper, push_decimal, push_hex_upper, string_from_chars};

verus! {

/// Errors that can occur within the morphology engine.
#[derive(Debug, Clone)]
pub enum MorphError {
    // MOD-01: UnicodeValidator
    InvalidEncoding { position: usize },
    EmptyInput,
    MaxLengthExceeded { limit: usize, actual: usize },
    NonArabicChar { position: usize, character: char },
    UnsupportedChar { position: usize, character: char },
    // MOD-03: Tokenizer
    MaxSegmentationsExceeded { token_id: usize, limit: usize, actual: usize },
    // MOD-04: MorphologicalParser
    MaxAnalysesExceeded { token_id: usize, limit: usize, actual: usize },
    UnknownStem { stem: String },
    KbMissing { kb_id: String },
}

/// The decimal rendering of a count or position.
pub open spec fn dec(n: usize) -> Seq<char> {
    decimal(n as nat)
}

/// "'c' (U+XXXX) at position p", as the character messages carry it.
pub open spec fn char_at_text(c: char, position: usize) -> Seq<char> {
    "'"@ + seq![c] + "' (U+"@ + hex_upper(c as u32 as nat, 4) + ") at position "@ + dec(position)
}

/// The error code a morphology error maps to.
pub open spec fn morph_error_code(e: MorphError) -> Seq<char> {
    match e {
        MorphError::InvalidEncoding { .. } => codes::INVALID_ENCODING@,
        MorphError::EmptyInput => codes::EMPTY_INPUT@,
        MorphError::MaxLengthExceeded { .. } => codes::MAX_LENGTH_EXCEEDED@,
        MorphError::NonArabicChar { .. } => codes::NON_ARABIC_CHAR@,
        MorphError::UnsupportedChar { .. } => codes::UNSUPPORTED_CHAR@,
        MorphError::MaxSegmentationsExceeded { .. } => codes::MAX_SEGMENTATIONS_EXCEEDED@,
        MorphError::MaxAnalysesExceeded { .. } => codes::MAX_ANALYSES_EXCEEDED@,
        MorphError::UnknownStem { .. } => codes::KB_MISSING@,
        MorphError::KbMissing { .. } => codes::KB_MISSING@,
    }
}

/// The message of the pipeline error a morphology error maps to.
pub open spec fn morph_error_message(e: MorphError) -> Seq<char> {
    match e {
        MorphError::InvalidEncoding { position } => "Invalid UTF-8 encoding at byte position "@
            + dec(position),
        MorphError::EmptyInput => "Input text is empty"@,
        MorphError::MaxLengthExceeded { limit, actual } => "Input exceeds maximum length: "@ + dec(
            actual,
        ) + " bytes > "@ + dec(limit) + " byte limit"@,
        MorphError::NonArabicChar { position, character } => "Non-Arabic character "@
            + char_at_text(character, position),
        MorphError::UnsupportedChar { position, character } => "Unsupported character "@
            + char_at_text(character, position),
        MorphError::MaxSegmentationsExceeded { token_id, limit, actual } => "Token "@ + dec(
            token_id,
        ) + ": "@ + dec(actual) + " segmentations exceeds limit of "@ + dec(limit),
        MorphError::MaxAnalysesExceeded { token_id, limit, actual } => "Token "@ + dec(token_id)
            + ": "@ + dec(actual) + " analyses exceeds limit of "@ + dec(limit),
        MorphError::UnknownStem { stem } => "Stem '"@ + stem@ + "' could not be analyzed"@,
        MorphError::KbMissing { kb_id } => "Required knowledge base "@ + kb_id@ + " not found"@,
    }
}

/// The recovery hint of the pipeline error a morphology error maps to.
pub open spec fn morph_error_hint(e: MorphError) -> Seq<char> {
    match e {
        MorphError::InvalidEncoding { .. } => "Re-encode input as valid UTF-8"@,
        MorphError::EmptyInput => "Provide non-empty Arabic text"@,
        MorphError::MaxLengthExceeded { .. } => "Split input into smaller segments"@,
        MorphError::NonArabicChar { .. } =>
            "Remove non-Arabic characters or disable strict_arabic_only mode"@,
        MorphError::UnsupportedChar { .. } =>
            "Notify AGOS maintainers to add support for this character range"@,
        MorphError::MaxSegmentationsExceeded { .. } =>
            "Increase max_segmentations or simplify the input"@,
        MorphError::MaxAnalysesExceeded { .. } =>
            "Increase max_morphological_analyses or simplify the input"@,
        MorphError::UnknownStem { .. } =>
            "Check that KB-0001 (Roots) and KB-0002 (Wazan) are loaded"@,
        MorphError::KbMissing { .. } => "Verify knowledge base installation"@,
    }
}

/// The short description of a morphology error.
pub open spec fn morph_error_text(e: MorphError) -> Seq<char> {
    match e {
        MorphError::InvalidEncoding { position } => "Invalid UTF-8 at byte "@ + dec(position),
        MorphError::EmptyInput => "Empty input"@,
        MorphError::MaxLengthExceeded { limit, actual } => "Input too long: "@ + dec(actual)
            + " > "@ + dec(limit) + " bytes"@,
        MorphError::NonArabicChar { position, character } => "Non-Arabic char '"@ + seq![character]
            + "' at "@ + dec(position),
        MorphError::UnsupportedChar { position, character } => "Unsupported char '"@ + seq![
            character,
        ] + "' at "@ + dec(position),
        MorphError::MaxSegmentationsExceeded { token_id, limit, actual } => "Token "@ + dec(
            token_id,
        ) + ": "@ + dec(actual) + " segmentations exceeds limit of "@ + dec(limit),
        MorphError::MaxAnalysesExceeded { token_id, limit, actual } => "Token "@ + dec(token_id)
            + ": "@ + dec(actual) + " analyses exceeds limit of "@ + dec(limit),
        MorphError::UnknownStem { stem } => "Unknown stem: "@ + stem@,
        MorphError::KbMissing { kb_id } => "Missing KB: "@ + kb_id@,
    }
}

/// Whether `p` is the pipeline error that `e` converts to for stage `stage`.
pub open spec fn is_morph_pipeline_error(e: MorphError, stage: Seq<char>, p: PipelineError) -> bool {
    &&& p.code@ == morph_error_code(e)
    &&& p.message@ == morph_error_message(e)
    &&& p.stage@ == stage
    &&& p.is_fatal
    &&& p.recovery_hint matches Some(h) && h@ == morph_error_hint(e)
    &&& p.inner is None
}

fn push_usize(out: &mut Vec<char>, n: usize)
    ensures
        final(out)@ == old(out)@ + dec(n),
{
    push_decimal(out, n as u64);
}

fn push_char_at(out: &mut Vec<char>, c: char, position: usize)
    ensures
        final(out)@ == old(out)@ + char_at_text(c, position),
{
    let ghost start = out@;
    append_str(out, "'");
    out.push(c);
    append_str(out, "' (U+");
    push_hex_upper(out, c as u32, 4);
    append_str(out, ") at position ");
    push_usize(out, position);
    assert(out@ == start + char_at_text(c, position));
}

impl MorphError {
    /// Convert to a fatal `PipelineError` with the given stage ID.
    pub fn into_pipeline(self, stage: &'static str) -> (r: PipelineError)
        ensures
            is_morph_pipeline_error(self, stage@, r),
    {
        let mut m: Vec<char> = Vec::new();
        let ghost e = self;
        let (code, hint): (&str, &str) = match self {
            MorphError::InvalidEncoding { position } => {
                append_str(&mut m, "Invalid UTF-8 encoding at byte position ");
                push_usize(&mut m, position);
                (codes::INVALID_ENCODING, "Re-encode input as valid UTF-8")
            },
            MorphError::EmptyInput => {
                append_str(&mut m, "Input text is empty");
                (codes::EMPTY_INPUT, "Provide non-empty Arabic text")
            },
            MorphError::MaxLengthExceeded { limit, actual } => {
                append_str(&mut m, "Input exceeds maximum length: ");
                push_usize(&mut m, actual);
                append_str(&mut m, " bytes > ");
                push_usize(&mut m, limit);
                append_str(&mut m, " byte limit");
                (codes::MAX_LENGTH_EXCEEDED, "Split input into smaller segments")
            },
            MorphError::NonArabicChar { position, character } => {
                append_str(&mut m, "Non-Arabic character ");
                push_char_at(&mut m, character, position);
                (
                    codes::NON_ARABIC_CHAR,
                    "Remove non-Arabic characters or disable strict_arabic_only mode",
                )
            },
            MorphError::UnsupportedChar { position, character } => {
                append_str(&mut m, "Unsupported character ");
                push_char_at(&mut m, character, position);
                (
                    codes::UNSUPPORTED_CHAR,
                    "Notify AGOS maintainers to add support for this character range",
                )
            },
            MorphError::MaxSegmentationsExceeded { token_id, limit, actual } => {
                append_str(&mut m, "Token ");
                push_usize(&mut m, token_id);
                append_str(&mut m, ": ");
                push_usize(&mut m, actual);
                append_str(&mut m, " segmentations exceeds limit of ");
                push_usize(&mut m, limit);
                (
                    codes::MAX_SEGMENTATIONS_EXCEEDED,
                    "Increase max_segmentations or simplify the input",
                )
            },
            MorphError::MaxAnalysesExceeded { token_id, limit, actual } => {
                append_str(&mut m, "Token ");
                push_usize(&mut m, token_id);
                append_str(&mut m, ": ");
                push_usize(&mut m, actual);
                append_str(&mut m, " analyses exceeds limit of ");
                push_usize(&mut m, limit);
                (
                    codes::MAX_ANALYSES_EXCEEDED,
                    "Increase max_morphological_analyses or simplify the input",
                )
            },
            MorphError::UnknownStem { stem } => {
                append_str(&mut m, "Stem '");
                append_str(&mut m, stem.as_str());
                append_str(&mut m, "' could not be analyzed");
                (
                    codes::KB_MISSING,
                    "Check that KB-0001 (Roots) and KB-0002 (Wazan) are loaded",
                )
            },
            MorphError::KbMissing { kb_id } => {
                append_str(&mut m, "Required knowledge base ");
                append_str(&mut m, kb_id.as_str());
                append_str(&mut m, " not found");
                (codes::KB_MISSING, "Verify knowledge base installation")
            },
        };
        assert(m@ == morph_error_message(e));
        let msg = string_from_chars(m.as_slice());
        let err = PipelineError::fatal(code, msg.as_str(), stage);
        err.with_hint(hint)
    }

    /// The short description of the error.
    pub fn describe(&self) -> (r: String)
        ensures
            r@ == morph_error_text(*self),
    {
        let mut m: Vec<char> = Vec::new();
        match self {
            MorphError::InvalidEncoding { position } => {
                append_str(&mut m, "Invalid UTF-8 at byte ");
                push_usize(&mut m, *position);
            },
            MorphError::EmptyInput => {
                append_str(&mut m, "Empty input");
            },
            MorphError::MaxLengthExceeded { limit, actual } => {
                append_str(&mut m, "Input too long: ");
                push_usize(&mut m, *actual);
                append_str(&mut m, " > ");
                push_usize(&mut m, *limit);
                append_str(&mut m, " bytes");
            },
            MorphError::NonArabicChar { position, character } => {
                append_str(&mut m, "Non-Arabic char '");
                m.push(*character);
                append_str(&mut m, "' at ");
                push_usize(&mut m, *position);
            },
            MorphError::UnsupportedChar { position, character } => {
                append_str(&mut m, "Unsupported char '");
                m.push(*character);
                append_str(&mut m, "' at ");
                push_usize(&mut m, *position);
            },
            MorphError::MaxSegmentationsExceeded { token_id, limit, actual } => {
                append_str(&mut m, "Token ");
                push_usize(&mut m, *token_id);
                append_str(&mut m, ": ");
                push_usize(&mut m, *actual);
                append_str(&mut m, " segmentations exceeds limit of ");
                push_usize(&mut m, *limit);
            },
            MorphError::MaxAnalysesExceeded { token_id, limit, actual } => {
                append_str(&mut m, "Token ");
                push_usize(&mut m, *token_id);
                append_str(&mut m, ": ");
                push_usize(&mut m, *actual);
                append_str(&mut m, " analyses exceeds limit of ");
                push_usize(&mut m, *limit);
            },
            MorphError::UnknownStem { stem } => {
                append_str(&mut m, "Unknown stem: ");
                append_str(&mut m, stem.as_str());
            },
            MorphError::KbMissing { kb_id } => {
                append_str(&mut m, "Missing KB: ");
                append_str(&mut m, kb_id.as_str());
            },
        }
        assert(m@ == morph_error_text(*self));
        string_from_chars(m.as_slice())
    }
}

} // verus!
