//! The error envelope shared by every pipeline stage.

use vstd::prelude::*;

use crate::text::{append_str, owned, string_from_chars};

pub mod codes;

verus! {

/// The standard error envelope for all pipeline modules.
///
/// Every module returns either a success value or a structured `PipelineError`.
#[derive(Debug, Clone)]
pub struct PipelineError {
    /// Machine-readable error code (e.g., "INVALID_ENCODING", "KB_MISSING")
    pub code: String,
    /// Human-readable description of what went wrong
    pub message: String,
    /// Stage ID where the error originated (e.g., "MOD-01", "MOD-04")
    pub stage: String,
    /// Whether the pipeline should stop (true) or can continue in degraded mode (false)
    pub is_fatal: bool,
    /// Optional suggestion for recovering from the error
    pub recovery_hint: Option<String>,
    /// Optional wrapped inner error (for debugging)
    pub inner: Option<String>,
}

/// A specialized `Result` type for pipeline operations.
pub type PipelineResult<T> = Result<T, PipelineError>;

/// Whether `e` carries exactly the given code, message, stage and severity,
/// with no hint and no inner error.
pub open spec fn is_plain_error(
    e: PipelineError,
    code: Seq<char>,
    message: Seq<char>,
    stage: Seq<char>,
    fatal: bool,
) -> bool {
    &&& e.code@ == code
    &&& e.message@ == message
    &&& e.stage@ == stage
    &&& e.is_fatal == fatal
    &&& e.recovery_hint is None
    &&& e.inner is None
}

/// The one-line description "[stage] code: message".
pub open spec fn error_line(e: PipelineError) -> Seq<char> {
    "["@ + e.stage@ + "] "@ + e.code@ + ": "@ + e.message@
}

impl PipelineError {
    /// Create a new fatal pipeline error.
    pub fn fatal(code: &str, message: &str, stage: &str) -> (r: Self)
        ensures
            is_plain_error(r, code@, message@, stage@, true),
    {
        Self {
            code: owned(code),
            message: owned(message),
            stage: owned(stage),
            is_fatal: true,
            recovery_hint: None,
            inner: None,
        }
    }

    /// Create a new non-fatal (degraded) pipeline error.
    pub fn degraded(code: &str, message: &str, stage: &str) -> (r: Self)
        ensures
            is_plain_error(r, code@, message@, stage@, false),
    {
        Self {
            code: owned(code),
            message: owned(message),
            stage: owned(stage),
            is_fatal: false,
            recovery_hint: None,
            inner: None,
        }
    }

    /// Add a recovery hint to the error.
    pub fn with_hint(self, hint: &str) -> (r: Self)
        ensures
            r.recovery_hint matches Some(h) && h@ == hint@,
            r.code == self.code,
            r.message == self.message,
            r.stage == self.stage,
            r.is_fatal == self.is_fatal,
            r.inner == self.inner,
    {
        let mut e = self;
        e.recovery_hint = Some(owned(hint));
        e
    }

    /// Add inner error context.
    pub fn with_inner(self, inner: &str) -> (r: Self)
        ensures
            r.inner matches Some(h) && h@ == inner@,
            r.code == self.code,
            r.message == self.message,
            r.stage == self.stage,
            r.is_fatal == self.is_fatal,
            r.recovery_hint == self.recovery_hint,
    {
        let mut e = self;
        e.inner = Some(owned(inner));
        e
    }

    /// The one-line description "[stage] code: message".
    pub fn describe(&self) -> (r: String)
        ensures
            r@ == error_line(*self),
    {
        let mut out: Vec<char> = Vec::new();
        append_str(&mut out, "[");
        append_str(&mut out, self.stage.as_str());
        append_str(&mut out, "] ");
        append_str(&mut out, self.code.as_str());
        append_str(&mut out, ": ");
        append_str(&mut out, self.message.as_str());
        string_from_chars(out.as_slice())
    }
}

} // verus!
