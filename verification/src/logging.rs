//! Errors of logging setup. The subscriber itself is installed by the
//! application around the library.

use vstd::prelude::*;

use crate::text::string_from_chars;

verus! {

/// Errors that can occur while installing the log subscriber.
#[derive(Debug)]
pub enum TracingError {
    /// The global subscriber was already set.
    InitFailed(String),
}

impl TracingError {
    /// The error's message: "Tracing init failed: " and the detail.
    pub fn message(&self) -> (r: String)
        ensures
            match self {
                TracingError::InitFailed(m) => r@ == "Tracing init failed: "@ + m@,
            },
    {
        match self {
            TracingError::InitFailed(m) => {
                let mut v: Vec<char> = Vec::new();
                crate::text::append_str(&mut v, "Tracing init failed: ");
                crate::text::append_str(&mut v, m.as_str());
                string_from_chars(v.as_slice())
            },
        }
    }
}

} // verus!
