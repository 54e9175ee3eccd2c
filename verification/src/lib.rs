//! AGOS: an Arabic grammar analysis pipeline.
//!
//! The library holds the shared vocabulary (error envelope, token and
//! part-of-speech types, the 64-bit morphological feature bitfield, semantic
//! versions), the knowledge-base containers, and the front-end stages:
//! Unicode validation, lexing, clitic segmentation, morphological analysis
//! and syntactic parsing.

pub mod feature;
pub mod text;
pub mod types;
pub mod version;
pub mod error;
pub mod morph_error;
pub mod syntax_error;
pub mod kb_error;
pub mod evidence;
pub mod ir;
pub mod pipeline;
pub mod logging;
pub mod config;
pub mod unicode_validator;
pub mod lexer;
pub mod tokenizer;
pub mod syntax_parser;
pub mod kb_types;
pub mod kb_suite;
pub mod kb0004;
pub mod morphological_parser;
pub mod analysis_service;
