//! Pre-defined error codes for validation errors.

use vstd::prelude::*;

verus! {

// --- MOD-01: UnicodeValidation ---
pub const INVALID_ENCODING: &'static str = "INVALID_ENCODING";
pub const EMPTY_INPUT: &'static str = "EMPTY_INPUT";
pub const MAX_LENGTH_EXCEEDED: &'static str = "MAX_LENGTH_EXCEEDED";
pub const NON_ARABIC_CHAR: &'static str = "NON_ARABIC_CHAR";
pub const UNSUPPORTED_CHAR: &'static str = "UNSUPPORTED_CHAR";

// --- MOD-03: Tokenizer ---
pub const MAX_SEGMENTATIONS_EXCEEDED: &'static str = "MAX_SEGMENTATIONS_EXCEEDED";

// --- MOD-04: MorphologicalParser ---
pub const MAX_ANALYSES_EXCEEDED: &'static str = "MAX_ANALYSES_EXCEEDED";
pub const KB_MISSING: &'static str = "KB_MISSING";
pub const KB_VERSION_MISMATCH: &'static str = "KB_VERSION_MISMATCH";

// --- MOD-05: SyntaxParser ---
pub const MAX_TREES_EXCEEDED: &'static str = "MAX_TREES_EXCEEDED";
pub const SENTENCE_TOO_LONG: &'static str = "SENTENCE_TOO_LONG";
pub const PARSE_FAILURE: &'static str = "PARSE_FAILURE";

// --- MOD-06: GIRConstructor ---
pub const TOKEN_MISMATCH: &'static str = "TOKEN_MISMATCH";
pub const GIR_VERSION_INCOMPATIBLE: &'static str = "GIR_VERSION_INCOMPATIBLE";

// --- MOD-07: RuleEngine ---
pub const RULE_SET_NOT_FOUND: &'static str = "RULE_SET_NOT_FOUND";
pub const RULE_VERSION_MISMATCH: &'static str = "RULE_VERSION_MISMATCH";
pub const RULE_APPLICATION_LIMIT: &'static str = "RULE_APPLICATION_LIMIT";
pub const RULE_CONFLICT: &'static str = "RULE_CONFLICT";

// --- MOD-08: KnowledgeGraphResolver ---
pub const KB_LOAD_FAILURE: &'static str = "KB_LOAD_FAILURE";

// --- MOD-09: BytecodeGenerator ---
pub const BYTECODE_VERSION_UNSUPPORTED: &'static str = "BYTECODE_VERSION_UNSUPPORTED";
pub const GIR_VALIDATION_FAILED: &'static str = "GIR_VALIDATION_FAILED";
pub const BYTECODE_TOO_LARGE: &'static str = "BYTECODE_TOO_LARGE";

// --- MOD-10: GVM ---
pub const UNSUPPORTED_BYTECODE_VERSION: &'static str = "UNSUPPORTED_BYTECODE_VERSION";
pub const BYTECODE_CORRUPTED: &'static str = "BYTECODE_CORRUPTED";
pub const MAX_STEPS_EXCEEDED: &'static str = "MAX_STEPS_EXCEEDED";
pub const MAX_MEMORY_EXCEEDED: &'static str = "MAX_MEMORY_EXCEEDED";
pub const EXECUTION_FAILURE: &'static str = "EXECUTION_FAILURE";

// --- MOD-11: ExplanationEngine ---
pub const UNSUPPORTED_LANGUAGE: &'static str = "UNSUPPORTED_LANGUAGE";
pub const UNSUPPORTED_FORMAT: &'static str = "UNSUPPORTED_FORMAT";
pub const LLM_SERVICE_UNAVAILABLE: &'static str = "LLM_SERVICE_UNAVAILABLE";

// --- MOD-12: PluginLoader ---
pub const PLUGIN_NOT_FOUND: &'static str = "PLUGIN_NOT_FOUND";
pub const PLUGIN_INVALID_MANIFEST: &'static str = "PLUGIN_INVALID_MANIFEST";
pub const PLUGIN_VERSION_MISMATCH: &'static str = "PLUGIN_VERSION_MISMATCH";
pub const PLUGIN_DEPENDENCY_MISSING: &'static str = "PLUGIN_DEPENDENCY_MISSING";
pub const PLUGIN_LOAD_FAILED: &'static str = "PLUGIN_LOAD_FAILED";
pub const PLUGIN_SANDBOX_VIOLATION: &'static str = "PLUGIN_SANDBOX_VIOLATION";

// --- MOD-13: CacheManager ---
pub const BACKEND_UNAVAILABLE: &'static str = "BACKEND_UNAVAILABLE";
pub const SERIALIZATION_FAILED: &'static str = "SERIALIZATION_FAILED";
pub const STORAGE_FULL: &'static str = "STORAGE_FULL";

// --- MOD-14: APIGateway ---
pub const INVALID_REQUEST: &'static str = "INVALID_REQUEST";
pub const UNSUPPORTED_SCHOOL: &'static str = "UNSUPPORTED_SCHOOL";
pub const RATE_LIMITED: &'static str = "RATE_LIMITED";
pub const SERVICE_UNAVAILABLE: &'static str = "SERVICE_UNAVAILABLE";
pub const INTERNAL_ERROR: &'static str = "INTERNAL_ERROR";

} // verus!
