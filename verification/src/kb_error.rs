//! Errors of knowledge-base loading and lookup.

use vstd::prelude::*;

use crate::error::{codes, PipelineError};
use crate::text::{append_str, string_from_chars};

verus! {

/// Knowledge-base error kinds, each with a detail text.
#[derive(Debug)]
pub enum KbError {
    /// The KB file or source was not found at the expected path.
    NotFound(String),
    /// The KB file is malformed or failed validation.
    FormatError(String),
    /// The KB version is incompatible with the current platform.
    VersionMismatch(String),
    /// A required dependency KB is missing or incompatible.
    DependencyError(String),
    /// I/O error while reading KB data.
    IoError(String),
    /// Memory-mapping error.
    MmapError(String),
    /// Deserialization error.
    DeserializationError(String),
    /// The KB is loaded but the requested entry does not exist.
    EntryNotFound(String),
    /// General internal error.
    Internal(String),
}

/// Specialized Result type for KB operations.
pub type KbResult<T> = Result<T, KbError>;

/// The detail text a KB error carries.
pub open spec fn kb_error_detail(e: KbError) -> Seq<char> {
    match e {
        KbError::NotFound(s) => s@,
        KbError::FormatError(s) => s@,
        KbError::VersionMismatch(s) => s@,
        KbError::DependencyError(s) => s@,
        KbError::IoError(s) => s@,
        KbError::MmapError(s) => s@,
        KbError::DeserializationError(s) => s@,
        KbError::EntryNotFound(s) => s@,
        KbError::Internal(s) => s@,
    }
}

/// The pipeline error code of a KB error.
pub open spec fn kb_error_code(e: KbError) -> Seq<char> {
    match e {
        KbError::NotFound(_) => codes::KB_MISSING@,
        KbError::VersionMismatch(_) => codes::KB_VERSION_MISMATCH@,
        KbError::EntryNotFound(_) => codes::KB_MISSING@,
        _ => codes::KB_LOAD_FAILURE@,
    }
}

/// The prefix of the pipeline message of a KB error.
pub open spec fn kb_error_prefix(e: KbError) -> Seq<char> {
    match e {
        KbError::NotFound(_) => "KB not found: "@,
        KbError::FormatError(_) => "KB format error: "@,
        KbError::VersionMismatch(_) => "KB version mismatch: "@,
        KbError::DependencyError(_) => "KB dependency: "@,
        KbError::IoError(_) => "KB I/O: "@,
        KbError::MmapError(_) => "KB mmap: "@,
        KbError::DeserializationError(_) => "KB deserialization: "@,
        KbError::EntryNotFound(_) => "KB entry not found: "@,
        KbError::Internal(_) => "KB internal: "@,
    }
}

/// The prefix of the short description of a KB error.
pub open spec fn kb_error_text_prefix(e: KbError) -> Seq<char> {
    match e {
        KbError::NotFound(_) => "KB not found: "@,
        KbError::FormatError(_) => "KB format error: "@,
        KbError::VersionMismatch(_) => "KB version mismatch: "@,
        KbError::DependencyError(_) => "KB dependency error: "@,
        KbError::IoError(_) => "KB I/O error: "@,
        KbError::MmapError(_) => "KB mmap error: "@,
        KbError::DeserializationError(_) => "KB deserialization error: "@,
        KbError::EntryNotFound(_) => "KB entry not found: "@,
        KbError::Internal(_) => "KB internal error: "@,
    }
}

impl KbError {
    fn detail(&self) -> (r: &str)
        ensures
            r@ == kb_error_detail(*self),
    {
        match self {
            KbError::NotFound(s) => s.as_str(),
            KbError::FormatError(s) => s.as_str(),
            KbError::VersionMismatch(s) => s.as_str(),
            KbError::DependencyError(s) => s.as_str(),
            KbError::IoError(s) => s.as_str(),
            KbError::MmapError(s) => s.as_str(),
            KbError::DeserializationError(s) => s.as_str(),
            KbError::EntryNotFound(s) => s.as_str(),
            KbError::Internal(s) => s.as_str(),
        }
    }

    /// Convert this KB error into a fatal PipelineError for the given stage.
    pub fn into_pipeline_error(self, stage: &str) -> (r: PipelineError)
        ensures
            r.code@ == kb_error_code(self),
            r.message@ == kb_error_prefix(self) + kb_error_detail(self),
            r.stage@ == stage@,
            r.is_fatal,
            r.recovery_hint is None,
            r.inner is None,
    {
        let (code, prefix): (&str, &str) = match &self {
            KbError::NotFound(_) => (codes::KB_MISSING, "KB not found: "),
            KbError::FormatError(_) => (codes::KB_LOAD_FAILURE, "KB format error: "),
            KbError::VersionMismatch(_) => (codes::KB_VERSION_MISMATCH, "KB version mismatch: "),
            KbError::DependencyError(_) => (codes::KB_LOAD_FAILURE, "KB dependency: "),
            KbError::IoError(_) => (codes::KB_LOAD_FAILURE, "KB I/O: "),
            KbError::MmapError(_) => (codes::KB_LOAD_FAILURE, "KB mmap: "),
            KbError::DeserializationError(_) => (codes::KB_LOAD_FAILURE, "KB deserialization: "),
            KbError::EntryNotFound(_) => (codes::KB_MISSING, "KB entry not found: "),
            KbError::Internal(_) => (codes::KB_LOAD_FAILURE, "KB internal: "),
        };
        let mut m: Vec<char> = Vec::new();
        append_str(&mut m, prefix);
        append_str(&mut m, self.detail());
        let msg = string_from_chars(m.as_slice());
        PipelineError::fatal(code, msg.as_str(), stage)
    }

    /// The short description of the error.
    pub fn describe(&self) -> (r: String)
        ensures
            r@ == kb_error_text_prefix(*self) + kb_error_detail(*self),
    {
        let prefix: &str = match self {
            KbError::NotFound(_) => "KB not found: ",
            KbError::FormatError(_) => "KB format error: ",
            KbError::VersionMismatch(_) => "KB version mismatch: ",
            KbError::DependencyError(_) => "KB dependency error: ",
            KbError::IoError(_) => "KB I/O error: ",
            KbError::MmapError(_) => "KB mmap error: ",
            KbError::DeserializationError(_) => "KB deserialization error: ",
            KbError::EntryNotFound(_) => "KB entry not found: ",
            KbError::Internal(_) => "KB internal error: ",
        };
        let mut m: Vec<char> = Vec::new();
        append_str(&mut m, prefix);
        append_str(&mut m, self.detail());
        string_from_chars(m.as_slice())
    }
}

} // verus!
