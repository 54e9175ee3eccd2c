//! Configuration of the morphology stages.

use vstd::prelude::*;

use crate::types::LogLevel;
use crate::version::KnowledgeVersionMap;

verus! {

/// Base configuration applicable to all morphology pipeline stages.
pub struct MorphConfig {
    /// Knowledge base versions available
    pub knowledge_versions: KnowledgeVersionMap,
    /// Logging level
    pub log_level: LogLevel,
}

impl Default for MorphConfig {
    fn default() -> (r: Self)
        ensures
            r.knowledge_versions@ == Map::<Seq<char>, String>::empty(),
            r.log_level == LogLevel::Info,
    {
        MorphConfig { knowledge_versions: KnowledgeVersionMap::new(), log_level: LogLevel::Info }
    }
}

/// Configuration of the Unicode validator (MOD-01).
#[derive(Debug, Clone)]
pub struct UnicodeValidatorConfig {
    /// Whether diacritical marks (tashkeel) are removed from the text.
    pub normalize_tashkeel: bool,
    /// Whether to remove tatweel/kashida (U+0640) characters.
    pub strip_tatweel: bool,
    /// If true, reject any characters outside the allowed Arabic blocks.
    pub strict_arabic_only: bool,
    /// Allowed Unicode ranges as inclusive (start, end) pairs.
    pub allowed_unicode_ranges: Vec<(u32, u32)>,
    /// Maximum input size in bytes (default: 1,048,576 = 1 MiB).
    pub max_input_size: usize,
    /// Additional Unicode ranges to allow beyond the defaults.
    pub extra_allowed_ranges: Vec<(u32, u32)>,
}

/// The default allowed ranges: Arabic, Arabic Supplement, Arabic Extended-A.
pub open spec fn default_ranges() -> Seq<(u32, u32)> {
    seq![(0x0600u32, 0x06FFu32), (0x0750u32, 0x077Fu32), (0x08A0u32, 0x08FFu32)]
}

/// Whether `c` holds the default ranges, size limit and no extra range.
pub open spec fn has_default_limits(c: UnicodeValidatorConfig) -> bool {
    &&& c.allowed_unicode_ranges@ == default_ranges()
    &&& c.max_input_size == 1_048_576
    &&& c.extra_allowed_ranges@.len() == 0
}

fn default_range_vec() -> (r: Vec<(u32, u32)>)
    ensures
        r@ == default_ranges(),
{
    let mut v: Vec<(u32, u32)> = Vec::new();
    v.push((0x0600, 0x06FF));
    v.push((0x0750, 0x077F));
    v.push((0x08A0, 0x08FF));
    v
}

impl Default for UnicodeValidatorConfig {
    fn default() -> (r: Self)
        ensures
            has_default_limits(r),
            !r.normalize_tashkeel,
            !r.strip_tatweel,
            !r.strict_arabic_only,
    {
        UnicodeValidatorConfig {
            normalize_tashkeel: false,
            strip_tatweel: false,
            strict_arabic_only: false,
            allowed_unicode_ranges: default_range_vec(),
            max_input_size: 1_048_576,
            extra_allowed_ranges: Vec::new(),
        }
    }
}

impl UnicodeValidatorConfig {
    /// A strict configuration for Arabic-only text with normalization.
    pub fn strict() -> (r: Self)
        ensures
            has_default_limits(r),
            r.normalize_tashkeel,
            r.strip_tatweel,
            r.strict_arabic_only,
    {
        let mut c = Self::default();
        c.normalize_tashkeel = true;
        c.strip_tatweel = true;
        c.strict_arabic_only = true;
        c
    }

    /// A permissive configuration that accepts diverse input.
    pub fn permissive() -> (r: Self)
        ensures
            has_default_limits(r),
            !r.normalize_tashkeel,
            !r.strip_tatweel,
            !r.strict_arabic_only,
    {
        Self::default()
    }

    /// All allowed ranges: the configured ones followed by the extra ones.
    pub fn allowed_ranges(&self) -> (r: Vec<(u32, u32)>)
        ensures
            r@ == self.allowed_unicode_ranges@ + self.extra_allowed_ranges@,
    {
        let mut ranges: Vec<(u32, u32)> = Vec::new();
        let mut i: usize = 0;
        while i < self.allowed_unicode_ranges.len()
            invariant
                0 <= i <= self.allowed_unicode_ranges@.len(),
                ranges@ == self.allowed_unicode_ranges@.subrange(0, i as int),
            decreases self.allowed_unicode_ranges@.len() - i,
        {
            ranges.push(self.allowed_unicode_ranges[i]);
            i = i + 1;
        }
        let mut j: usize = 0;
        while j < self.extra_allowed_ranges.len()
            invariant
                0 <= j <= self.extra_allowed_ranges@.len(),
                ranges@ == self.allowed_unicode_ranges@ + self.extra_allowed_ranges@.subrange(
                    0,
                    j as int,
                ),
            decreases self.extra_allowed_ranges@.len() - j,
        {
            ranges.push(self.extra_allowed_ranges[j]);
            j = j + 1;
        }
        ranges
    }
}

} // verus!
