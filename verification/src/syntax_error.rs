//! Errors of the syntax stage (MOD-05).

use vstd::prelude::*;

use crate::error::PipelineError;
use crate::morph_error::dec;
use crate::text::{append_str, push_decimal, string_from_chars};

verus! {

/// Errors produced by the syntax parser.
#[derive(Debug, Clone)]
pub enum SyntaxError {
    /// Number of parse trees exceeds configured limit.
    MaxTreesExceeded { limit: usize, actual: usize },
    /// Sentence exceeds maximum token length for full parse.
    SentenceTooLong { token_count: usize, max_length: usize },
    /// No valid parse tree could be constructed for any segmentation.
    ParseFailure { token_id: Option<usize>, reason: String },
    /// Unexpected internal error.
    InternalError { message: String },
}

/// The code of the pipeline error a syntax error maps to.
pub open spec fn syntax_error_code(e: SyntaxError) -> Seq<char> {
    match e {
        SyntaxError::MaxTreesExceeded { .. } => "MAX_TREES_EXCEEDED"@,
        SyntaxError::SentenceTooLong { .. } => "SENTENCE_TOO_LONG"@,
        SyntaxError::ParseFailure { .. } => "PARSE_FAILURE"@,
        SyntaxError::InternalError { .. } => "INTERNAL_ERROR"@,
    }
}

/// The message of the pipeline error a syntax error maps to.
pub open spec fn syntax_error_message(e: SyntaxError) -> Seq<char> {
    match e {
        SyntaxError::MaxTreesExceeded { limit, actual } => if limit == 0 {
            "max_parse_trees must be > 0"@
        } else {
            "parse tree count "@ + dec(actual) + " exceeds limit "@ + dec(limit)
        },
        SyntaxError::SentenceTooLong { token_count, max_length } => "sentence has "@ + dec(
            token_count,
        ) + " tokens, max is "@ + dec(max_length),
        SyntaxError::ParseFailure { token_id, reason } => match token_id {
            Some(id) => "parse failed at token "@ + dec(id) + ": "@ + reason@,
            None => "parse failed: "@ + reason@,
        },
        SyntaxError::InternalError { message } => message@,
    }
}

/// The short description of a syntax error.
pub open spec fn syntax_error_text(e: SyntaxError) -> Seq<char> {
    match e {
        SyntaxError::MaxTreesExceeded { limit, actual } => "MAX_TREES_EXCEEDED: "@ + dec(actual)
            + " trees exceed limit "@ + dec(limit),
        SyntaxError::SentenceTooLong { token_count, max_length } => "SENTENCE_TOO_LONG: "@ + dec(
            token_count,
        ) + " tokens, max "@ + dec(max_length),
        SyntaxError::ParseFailure { token_id, reason } => match token_id {
            Some(id) => "PARSE_FAILURE at token "@ + dec(id) + ": "@ + reason@,
            None => "PARSE_FAILURE: "@ + reason@,
        },
        SyntaxError::InternalError { message } => "INTERNAL_ERROR: "@ + message@,
    }
}

fn push_usize(out: &mut Vec<char>, n: usize)
    ensures
        final(out)@ == old(out)@ + dec(n),
{
    push_decimal(out, n as u64);
}

impl SyntaxError {
    /// Convert into a `PipelineError` for the given stage; only `ParseFailure`
    /// is non-fatal, and no error carries a hint.
    pub fn into_pipeline(self, stage: &str) -> (r: PipelineError)
        ensures
            r.code@ == syntax_error_code(self),
            r.message@ == syntax_error_message(self),
            r.stage@ == stage@,
            r.is_fatal == !(self is ParseFailure),
            r.recovery_hint is None,
            r.inner is None,
    {
        let ghost e = self;
        let mut m: Vec<char> = Vec::new();
        let (code, fatal): (&str, bool) = match self {
            SyntaxError::MaxTreesExceeded { limit, actual } => {
                if limit == 0 {
                    append_str(&mut m, "max_parse_trees must be > 0");
                } else {
                    append_str(&mut m, "parse tree count ");
                    push_usize(&mut m, actual);
                    append_str(&mut m, " exceeds limit ");
                    push_usize(&mut m, limit);
                }
                ("MAX_TREES_EXCEEDED", true)
            },
            SyntaxError::SentenceTooLong { token_count, max_length } => {
                append_str(&mut m, "sentence has ");
                push_usize(&mut m, token_count);
                append_str(&mut m, " tokens, max is ");
                push_usize(&mut m, max_length);
                ("SENTENCE_TOO_LONG", true)
            },
            SyntaxError::ParseFailure { token_id, reason } => {
                match token_id {
                    Some(id) => {
                        append_str(&mut m, "parse failed at token ");
                        push_usize(&mut m, id);
                        append_str(&mut m, ": ");
                    },
                    None => {
                        append_str(&mut m, "parse failed: ");
                    },
                }
                append_str(&mut m, reason.as_str());
                ("PARSE_FAILURE", false)
            },
            SyntaxError::InternalError { message } => {
                append_str(&mut m, message.as_str());
                ("INTERNAL_ERROR", true)
            },
        };
        assert(m@ == syntax_error_message(e));
        let msg = string_from_chars(m.as_slice());
        if fatal {
            PipelineError::fatal(code, msg.as_str(), stage)
        } else {
            PipelineError::degraded(code, msg.as_str(), stage)
        }
    }

    /// The short description of the error.
    pub fn describe(&self) -> (r: String)
        ensures
            r@ == syntax_error_text(*self),
    {
        let mut m: Vec<char> = Vec::new();
        match self {
            SyntaxError::MaxTreesExceeded { limit, actual } => {
                append_str(&mut m, "MAX_TREES_EXCEEDED: ");
                push_usize(&mut m, *actual);
                append_str(&mut m, " trees exceed limit ");
                push_usize(&mut m, *limit);
            },
            SyntaxError::SentenceTooLong { token_count, max_length } => {
                append_str(&mut m, "SENTENCE_TOO_LONG: ");
                push_usize(&mut m, *token_count);
                append_str(&mut m, " tokens, max ");
                push_usize(&mut m, *max_length);
            },
            SyntaxError::ParseFailure { token_id, reason } => {
                match token_id {
                    Some(id) => {
                        append_str(&mut m, "PARSE_FAILURE at token ");
                        push_usize(&mut m, *id);
                        append_str(&mut m, ": ");
                    },
                    None => {
                        append_str(&mut m, "PARSE_FAILURE: ");
                    },
                }
                append_str(&mut m, reason.as_str());
            },
            SyntaxError::InternalError { message } => {
                append_str(&mut m, "INTERNAL_ERROR: ");
                append_str(&mut m, message.as_str());
            },
        }
        string_from_chars(m.as_slice())
    }
}

} // verus!
