//! MOD-01: Unicode validation and normalization of the input text.

use unicode_normalization::UnicodeNormalization;
use vstd::prelude::*;

use crate::config::UnicodeValidatorConfig;
use crate::error::{codes, PipelineError, PipelineResult};
use crate::ir::{NormalizedText, NormalizedTextConfig, NormalizedTextMetadata};
use crate::morph_error::{is_morph_pipeline_error, MorphError};
use crate::pipeline::{PipelineContext, PipelineStage};
use crate::text::{
    append_str, byte_len, char_utf8_width, chars_byte_len, chars_of, chars_range, lemma_byte_len_concat,
    lemma_byte_len_is_encoding_len, lemma_byte_len_take, owned, push_decimal, push_hex_upper,
    string_from_chars, utf8_width,
};

verus! {

/// The NFKC normal form of a character sequence, as computed by the
/// `unicode-normalization` crate.
pub uninterp spec fn nfkc(s: Seq<char>) -> Seq<char>;

/// NFKC normalization (`unicode_normalization::UnicodeNormalization::nfkc`,
/// collected into a `String`). Its result is named, not described: it is a
/// function of the input alone.
#[verifier::external_body]
fn nfkc_normalize(s: &str) -> (r: String)
    ensures
        r@ == nfkc(s@),
{
    s.nfkc().collect()
}

/// The tatweel (kashida) character.
pub const TATWEEL: char = '\u{0640}';

/// Space, tab, newline and carriage return: always allowed.
pub open spec fn is_always_allowed_char(c: char) -> bool {
    c == ' ' || c == '\t' || c == '\n' || c == '\r'
}

/// Whether `c` lies in one of the inclusive `ranges`.
pub open spec fn in_ranges(c: char, ranges: Seq<(u32, u32)>) -> bool {
    exists|k: int| 0 <= k < ranges.len() && #[trigger] ranges[k].0 <= c as u32 <= ranges[k].1
}

/// Arabic diacritics: fathatan through sukun (U+064B–U+0652) and superscript alef (U+0670).
pub open spec fn is_tashkeel_char(c: char) -> bool {
    ('\u{064B}' <= c <= '\u{0652}') || c == '\u{0670}'
}

/// Quranic annotation symbols: U+06D6–U+06ED and U+08D4–U+08FF.
pub open spec fn is_quranic_char(c: char) -> bool {
    ('\u{06D6}' <= c <= '\u{06ED}') || ('\u{08D4}' <= c <= '\u{08E1}') || ('\u{08E2}' <= c
        <= '\u{08FF}')
}

/// Arabic-Indic digits (U+0660–U+0669) and extended Arabic-Indic digits (U+06F0–U+06F9).
pub open spec fn is_arabic_digit_char(c: char) -> bool {
    ('\u{0660}' <= c <= '\u{0669}') || ('\u{06F0}' <= c <= '\u{06F9}')
}

/// The punctuation that is always allowed.
pub open spec fn is_arabic_punctuation_char(c: char) -> bool {
    c == '.' || c == ',' || c == ';' || c == ':' || c == '!' || c == '?' || c == '(' || c == ')'
        || c == '[' || c == ']' || c == '{' || c == '}' || c == '\u{060C}' || c == '\u{061B}'
        || c == '\u{061F}' || c == '\u{061C}' || c == '\u{06D4}' || c == '\u{0700}' || c
        == '\u{0701}' || c == '\u{0702}' || c == '\u{00AB}' || c == '\u{00BB}' || c == '\u{2010}'
        || c == '\u{2013}' || c == '\u{2014}' || c == '\u{2018}' || c == '\u{2019}' || c
        == '\u{201C}' || c == '\u{201D}' || c == '-' || c == '/' || c == '\\'
}

/// Whether the validator accepts `c` under the allowed `ranges`.
pub open spec fn accepted(c: char, ranges: Seq<(u32, u32)>) -> bool {
    is_always_allowed_char(c) || in_ranges(c, ranges) || is_arabic_digit_char(c)
        || is_arabic_punctuation_char(c)
}

/// Whether some character of `s` is not accepted.
pub open spec fn has_rejected(s: Seq<char>, ranges: Seq<(u32, u32)>) -> bool {
    exists|i: int| 0 <= i < s.len() && !accepted(#[trigger] s[i], ranges)
}

/// The index of the first character of `s` that is not accepted.
pub open spec fn first_rejected(s: Seq<char>, ranges: Seq<(u32, u32)>) -> int {
    choose|i: int|
        0 <= i < s.len() && !accepted(#[trigger] s[i], ranges) && forall|j: int|
            0 <= j < i ==> accepted(#[trigger] s[j], ranges)
}

/// Whether an in-range character of `s` (not a space or control character) is a diacritic.
pub open spec fn scan_has_tashkeel(s: Seq<char>, ranges: Seq<(u32, u32)>) -> bool {
    exists|i: int|
        0 <= i < s.len() && !is_always_allowed_char(#[trigger] s[i]) && in_ranges(s[i], ranges)
            && is_tashkeel_char(s[i])
}

/// Whether an in-range character of `s` is a tatweel.
pub open spec fn scan_has_tatweel(s: Seq<char>, ranges: Seq<(u32, u32)>) -> bool {
    exists|i: int|
        0 <= i < s.len() && !is_always_allowed_char(#[trigger] s[i]) && in_ranges(s[i], ranges)
            && s[i] == TATWEEL
}

/// Whether an in-range character of `s` is a Quranic annotation symbol.
pub open spec fn scan_has_quranic(s: Seq<char>, ranges: Seq<(u32, u32)>) -> bool {
    exists|i: int|
        0 <= i < s.len() && !is_always_allowed_char(#[trigger] s[i]) && in_ranges(s[i], ranges)
            && is_quranic_char(s[i])
}

/// Unicode White_Space characters (what std's `char::is_whitespace` tests).
pub open spec fn is_white_space(c: char) -> bool {
    ('\u{0009}' <= c <= '\u{000D}') || c == ' ' || c == '\u{0085}' || c == '\u{00A0}' || c
        == '\u{1680}' || ('\u{2000}' <= c <= '\u{200A}') || c == '\u{2028}' || c == '\u{2029}'
        || c == '\u{202F}' || c == '\u{205F}' || c == '\u{3000}'
}

/// The number of maximal runs of non-whitespace characters in `s`
/// (what std's `split_whitespace().count()` counts).
pub open spec fn word_count(s: Seq<char>) -> nat
    decreases s.len(),
{
    if s.len() == 0 {
        0
    } else {
        word_count(s.drop_last()) + if !is_white_space(s.last()) && (s.len() == 1 || is_white_space(
            s[s.len() - 2],
        )) {
            1nat
        } else {
            0nat
        }
    }
}

/// The normalized text: NFKC, then tatweel and tashkeel removed as configured.
pub open spec fn normalized_spec(cfg: UnicodeValidatorConfig, s: Seq<char>) -> Seq<char> {
    stripped(cfg, nfkc(s))
}

/// `n` with tatweel and then tashkeel removed, as configured.
pub open spec fn stripped(cfg: UnicodeValidatorConfig, n: Seq<char>) -> Seq<char> {
    let n1 = if cfg.strip_tatweel {
        n.filter(|c: char| c != TATWEEL)
    } else {
        n
    };
    if cfg.normalize_tashkeel {
        n1.filter(|c: char| !is_tashkeel_char(c))
    } else {
        n1
    }
}

/// The names of the normalization steps applied, in order.
pub open spec fn applied_names(cfg: UnicodeValidatorConfig) -> Seq<Seq<char>> {
    let a = seq!["NFKC"@];
    let b = if cfg.strip_tatweel {
        a.push("strip_tatweel"@)
    } else {
        a
    };
    if cfg.normalize_tashkeel {
        b.push("strip_tashkeel"@)
    } else {
        b
    }
}

/// The IR-1 that a successful validation of `s` under `cfg` produces.
pub open spec fn normalized_output(cfg: UnicodeValidatorConfig, s: Seq<char>, n: NormalizedText) -> bool {
    let ranges = cfg.allowed_unicode_ranges@ + cfg.extra_allowed_ranges@;
    let out = normalized_spec(cfg, s);
    &&& n.spec@ == "SPEC-0001"@
    &&& n.version@ == "1.0"@
    &&& n.original_text@ == s
    &&& n.normalized_text@ == out
    &&& n.metadata.char_count == out.len()
    &&& n.metadata.byte_count == byte_len(out) as u64
    &&& n.metadata.word_count_estimate == word_count(out)
    &&& n.metadata.has_tashkeel == scan_has_tashkeel(s, ranges)
    &&& n.metadata.has_tatweel == scan_has_tatweel(s, ranges)
    &&& n.metadata.has_quranic_symbols == scan_has_quranic(s, ranges)
    &&& n.metadata.has_non_arabic == has_rejected(s, ranges)
    &&& n.metadata.normalization_applied@.map_values(|x: String| x@) == applied_names(cfg)
    &&& n.config_snapshot.normalize_tashkeel == cfg.normalize_tashkeel
    &&& n.config_snapshot.strip_tatweel == cfg.strip_tatweel
    &&& n.config_snapshot.strict_arabic_only == cfg.strict_arabic_only
    &&& n.config_snapshot.max_input_size == cfg.max_input_size as u64
}

/// The outcome of validating `s` under `cfg`: the empty input, an input over
/// the size limit, and (in strict mode) an input with a character that is not
/// accepted are refused, in that order; everything else is normalized.
pub open spec fn validation_outcome(
    cfg: UnicodeValidatorConfig,
    s: Seq<char>,
    r: PipelineResult<NormalizedText>,
) -> bool {
    let ranges = cfg.allowed_unicode_ranges@ + cfg.extra_allowed_ranges@;
    if s.len() == 0 {
        r matches Err(e) && is_morph_pipeline_error(MorphError::EmptyInput, "MOD-01"@, e)
    } else if byte_len(s) > cfg.max_input_size {
        r matches Err(e) && is_morph_pipeline_error(
            MorphError::MaxLengthExceeded { limit: cfg.max_input_size, actual: byte_len(s) as usize },
            "MOD-01"@,
            e,
        )
    } else if cfg.strict_arabic_only && has_rejected(s, ranges) {
        let i = first_rejected(s, ranges);
        r matches Err(e) && is_morph_pipeline_error(
            MorphError::NonArabicChar { position: byte_len(s.take(i)) as usize, character: s[i] },
            "MOD-01"@,
            e,
        )
    } else {
        r matches Ok(n) && normalized_output(cfg, s, n)
    }
}

/// The outcome of checking a validator configuration.
pub open spec fn config_check_outcome(cfg: UnicodeValidatorConfig, r: PipelineResult<()>) -> bool {
    if cfg.max_input_size == 0 {
        r matches Err(e) && e.code@ == codes::INVALID_REQUEST@ && e.message@
            == "UnicodeValidatorConfig.max_input_size must be > 0"@ && e.stage@ == "MOD-01"@
            && e.is_fatal && e.recovery_hint is None
    } else if cfg.max_input_size > 100_000_000 {
        r matches Err(e) && e.code@ == codes::INVALID_REQUEST@ && e.message@
            == "UnicodeValidatorConfig.max_input_size ("@ + crate::text::decimal(
            cfg.max_input_size as nat,
        ) + ") seems excessive"@ && e.stage@ == "MOD-01"@ && !e.is_fatal
            && (e.recovery_hint matches Some(h) && h@
            == "Set max_input_size to a reasonable value (default: 1,048,576)"@)
    } else if exists|k: int|
        0 <= k < cfg.allowed_unicode_ranges@.len() && #[trigger] cfg.allowed_unicode_ranges@[k].0
            > cfg.allowed_unicode_ranges@[k].1 {
        let k = choose|k: int|
            0 <= k < cfg.allowed_unicode_ranges@.len() && #[trigger] cfg.allowed_unicode_ranges@[k].0
                > cfg.allowed_unicode_ranges@[k].1 && forall|j: int|
                0 <= j < k ==> #[trigger] cfg.allowed_unicode_ranges@[j].0
                    <= cfg.allowed_unicode_ranges@[j].1;
        let (start, end) = cfg.allowed_unicode_ranges@[k];
        r matches Err(e) && e.code@ == codes::INVALID_REQUEST@ && e.message@
            == "Invalid Unicode range: U+"@ + crate::text::hex_upper(start as nat, 4) + " > U+"@
            + crate::text::hex_upper(end as nat, 4) && e.stage@ == "MOD-01"@ && e.is_fatal
            && e.recovery_hint is None
    } else {
        r is Ok
    }
}

/// MOD-01: validates and normalizes Arabic text.
#[derive(Debug, Clone)]
pub struct UnicodeValidator {
    /// Configuration for this validator instance
    pub config: UnicodeValidatorConfig,
}

impl UnicodeValidator {
    /// Create a new validator with the given configuration.
    pub fn new(config: UnicodeValidatorConfig) -> (r: Self)
        ensures
            r.config == config,
    {
        Self { config }
    }

    /// A validator with strict Arabic-only settings.
    pub fn strict() -> (r: Self)
        ensures
            crate::config::has_default_limits(r.config),
            r.config.normalize_tashkeel,
            r.config.strip_tatweel,
            r.config.strict_arabic_only,
    {
        Self { config: UnicodeValidatorConfig::strict() }
    }

    /// A validator with permissive settings.
    pub fn permissive() -> (r: Self)
        ensures
            crate::config::has_default_limits(r.config),
            !r.config.normalize_tashkeel,
            !r.config.strip_tatweel,
            !r.config.strict_arabic_only,
    {
        Self { config: UnicodeValidatorConfig::permissive() }
    }

    /// Check if a character is always allowed (whitespace/control).
    pub fn is_always_allowed(&self, c: char) -> (r: bool)
        ensures
            r == is_always_allowed_char(c),
    {
        c == ' ' || c == '\t' || c == '\n' || c == '\r'
    }

    /// Check if a character falls within any of the allowed Unicode ranges.
    pub fn is_in_any_range(&self, c: char, ranges: &[(u32, u32)]) -> (r: bool)
        ensures
            r == in_ranges(c, ranges@),
    {
        let cp = c as u32;
        let mut k: usize = 0;
        while k < ranges.len()
            invariant
                0 <= k <= ranges@.len(),
                cp == c as u32,
                forall|j: int| 0 <= j < k ==> !(#[trigger] ranges@[j].0 <= cp <= ranges@[j].1),
            decreases ranges@.len() - k,
        {
            let (start, end) = ranges[k];
            if cp >= start && cp <= end {
                assert(ranges@[k as int].0 <= c as u32 <= ranges@[k as int].1);
                return true;
            }
            k = k + 1;
        }
        false
    }

    /// Check if a character is a tashkeel (Arabic diacritic).
    pub fn is_tashkeel(&self, c: char) -> (r: bool)
        ensures
            r == is_tashkeel_char(c),
    {
        ('\u{064B}' <= c && c <= '\u{0652}') || c == '\u{0670}'
    }

    /// Check if a character is a Quranic annotation symbol.
    pub fn is_quranic_symbol(&self, c: char) -> (r: bool)
        ensures
            r == is_quranic_char(c),
    {
        ('\u{06D6}' <= c && c <= '\u{06ED}') || ('\u{08D4}' <= c && c <= '\u{08E1}') || (
        '\u{08E2}' <= c && c <= '\u{08FF}')
    }

    /// Check if a character is an Arabic-Indic digit.
    pub fn is_arabic_digit(&self, c: char) -> (r: bool)
        ensures
            r == is_arabic_digit_char(c),
    {
        ('\u{0660}' <= c && c <= '\u{0669}') || ('\u{06F0}' <= c && c <= '\u{06F9}')
    }

    /// Check if a character is Arabic-specific punctuation.
    pub fn is_arabic_punctuation(&self, c: char) -> (r: bool)
        ensures
            r == is_arabic_punctuation_char(c),
    {
        c == '.' || c == ',' || c == ';' || c == ':' || c == '!' || c == '?' || c == '(' || c
            == ')' || c == '[' || c == ']' || c == '{' || c == '}' || c == '\u{060C}' || c
            == '\u{061B}' || c == '\u{061F}' || c == '\u{061C}' || c == '\u{06D4}' || c
            == '\u{0700}' || c == '\u{0701}' || c == '\u{0702}' || c == '\u{00AB}' || c
            == '\u{00BB}' || c == '\u{2010}' || c == '\u{2013}' || c == '\u{2014}' || c
            == '\u{2018}' || c == '\u{2019}' || c == '\u{201C}' || c == '\u{201D}' || c == '-' || c
            == '/' || c == '\\'
    }

    /// Core validation and normalization algorithm.
    pub fn validate_and_normalize(&self, input: String) -> (r: PipelineResult<NormalizedText>)
        ensures
            validation_outcome(self.config, input@, r),
    {
        let original_text = input;
        let s = chars_of(original_text.as_str());
        let ghost sv = s@;

        // Length check
        if s.len() == 0 {
            return Err(MorphError::EmptyInput.into_pipeline("MOD-01"));
        }
        let total = chars_byte_len(&s);
        if total > self.config.max_input_size as u128 {
            let byte_length = original_text.as_str().len();
            proof {
                lemma_byte_len_is_encoding_len(sv);
            }
            return Err(
                MorphError::MaxLengthExceeded {
                    limit: self.config.max_input_size,
                    actual: byte_length,
                }.into_pipeline("MOD-01"),
            );
        }
        let allowed_ranges = self.config.allowed_ranges();
        let ghost ranges = allowed_ranges@;

        // Character validation, before normalization
        let mut has_tatweel = false;
        let mut has_tashkeel = false;
        let mut has_quranic = false;
        let mut has_non_arabic = false;
        let mut pos: usize = 0;
        let mut i: usize = 0;
        while i < s.len()
            invariant
                s@ == sv,
                sv == original_text@,
                sv == input@,
                ranges == allowed_ranges@,
                ranges == self.config.allowed_unicode_ranges@ + self.config.extra_allowed_ranges@,
                0 <= i <= sv.len(),
                byte_len(sv) <= self.config.max_input_size,
                pos as nat == byte_len(sv.take(i as int)),
                has_tashkeel == exists|j: int|
                    0 <= j < i && !is_always_allowed_char(#[trigger] sv[j]) && in_ranges(
                        sv[j],
                        ranges,
                    ) && is_tashkeel_char(sv[j]),
                has_tatweel == exists|j: int|
                    0 <= j < i && !is_always_allowed_char(#[trigger] sv[j]) && in_ranges(
                        sv[j],
                        ranges,
                    ) && sv[j] == TATWEEL,
                has_quranic == exists|j: int|
                    0 <= j < i && !is_always_allowed_char(#[trigger] sv[j]) && in_ranges(
                        sv[j],
                        ranges,
                    ) && is_quranic_char(sv[j]),
                has_non_arabic == exists|j: int| 0 <= j < i && !accepted(#[trigger] sv[j], ranges),
                self.config.strict_arabic_only ==> forall|j: int|
                    0 <= j < i ==> accepted(#[trigger] sv[j], ranges),
            decreases sv.len() - i,
        {
            let c = s[i];
            proof {
                lemma_byte_len_take(sv, i as int);
                lemma_byte_len_concat(sv.take(i + 1), sv.skip(i + 1));
                assert(sv.take(i + 1) + sv.skip(i + 1) == sv);
            }
            let w = char_utf8_width(c);
            if self.is_always_allowed(c) {
            } else if self.is_in_any_range(c, allowed_ranges.as_slice()) {
                if self.is_tashkeel(c) {
                    has_tashkeel = true;
                }
                if c == TATWEEL {
                    has_tatweel = true;
                }
                if self.is_quranic_symbol(c) {
                    has_quranic = true;
                }
            } else if self.is_arabic_digit(c) {
            } else if self.is_arabic_punctuation(c) {
            } else {
                if self.config.strict_arabic_only {
                    proof {
                        assert(!accepted(sv[i as int], ranges));
                        assert(has_rejected(sv, ranges));
                        assert(0 <= i < sv.len() && !accepted(sv[i as int], ranges) && forall|j: int|
                            0 <= j < i ==> accepted(#[trigger] sv[j], ranges));
                        let k = first_rejected(sv, ranges);
                        assert(k == i) by {
                            if k < i {
                                assert(accepted(sv[k], ranges));
                            } else if k > i {
                            }
                        }
                    }
                    return Err(
                        MorphError::NonArabicChar { position: pos, character: c }.into_pipeline(
                            "MOD-01",
                        ),
                    );
                }
                has_non_arabic = true;
            }
            pos = pos + w;
            i = i + 1;
        }
        assert(sv.take(sv.len() as int) == sv);

        // NFKC normalization
        let nf = nfkc_normalize(original_text.as_str());
        let (chars, normalization_applied) = self.strip_normalized(&chars_of(nf.as_str()));
        assert(chars@ == normalized_spec(self.config, sv));
        assert(normalization_applied@.map_values(|x: String| x@) == applied_names(self.config));

        let char_count = chars.len() as u64;
        let byte_count = #[verifier::truncate] (chars_byte_len(&chars) as u64);
        let word_count_estimate = count_words(&chars);
        let normalized_text = string_from_chars(chars.as_slice());

        let metadata = NormalizedTextMetadata {
            char_count,
            byte_count,
            word_count_estimate,
            has_tashkeel,
            has_tatweel,
            has_quranic_symbols: has_quranic,
            has_non_arabic,
            normalization_applied,
        };
        let config_snapshot = NormalizedTextConfig {
            normalize_tashkeel: self.config.normalize_tashkeel,
            strip_tatweel: self.config.strip_tatweel,
            strict_arabic_only: self.config.strict_arabic_only,
            max_input_size: self.config.max_input_size as u64,
        };
        Ok(
            NormalizedText {
                spec: owned("SPEC-0001"),
                version: owned("1.0"),
                normalized_text,
                original_text,
                metadata,
                config_snapshot,
            },
        )
    }

    /// Removes tatweel and then tashkeel from NFKC-normalized text, as
    /// configured; also gives the names of all the steps applied, NFKC first.
    pub fn strip_normalized(&self, normalized: &Vec<char>) -> (r: (Vec<char>, Vec<String>))
        ensures
            r.0@ == stripped(self.config, normalized@),
            r.1@.map_values(|x: String| x@) == applied_names(self.config),
    {
        let mut chars = chars_range(normalized, 0, normalized.len());
        assert(normalized@.subrange(0, normalized@.len() as int) =~= normalized@);
        let mut normalization_applied: Vec<String> = Vec::new();
        normalization_applied.push(owned("NFKC"));
        if self.config.strip_tatweel {
            chars = remove_tatweel(&chars);
            normalization_applied.push(owned("strip_tatweel"));
        }
        if self.config.normalize_tashkeel {
            chars = self.remove_tashkeel(&chars);
            normalization_applied.push(owned("strip_tashkeel"));
        }
        assert(normalization_applied@.map_values(|x: String| x@) =~= applied_names(self.config));
        (chars, normalization_applied)
    }

    fn remove_tashkeel(&self, v: &Vec<char>) -> (r: Vec<char>)
        ensures
            r@ == v@.filter(|c: char| !is_tashkeel_char(c)),
    {
        let mut out: Vec<char> = Vec::new();
        let mut i: usize = 0;
        while i < v.len()
            invariant
                0 <= i <= v@.len(),
                out@ == v@.take(i as int).filter(|c: char| !is_tashkeel_char(c)),
            decreases v@.len() - i,
        {
            reveal_with_fuel(Seq::<char>::filter, 1);
            assert(v@.take(i + 1).drop_last() == v@.take(i as int));
            if !self.is_tashkeel(v[i]) {
                out.push(v[i]);
            }
            i = i + 1;
        }
        assert(v@.take(v@.len() as int) == v@);
        out
    }

    /// Check the configuration: a zero size limit and an inverted range are
    /// refused, an excessive size limit is reported as degraded.
    pub fn check_config(&self) -> (r: PipelineResult<()>)
        ensures
            config_check_outcome(self.config, r),
    {
        if self.config.max_input_size == 0 {
            return Err(
                PipelineError::fatal(
                    codes::INVALID_REQUEST,
                    "UnicodeValidatorConfig.max_input_size must be > 0",
                    "MOD-01",
                ),
            );
        }
        if self.config.max_input_size > 100_000_000 {
            let mut m: Vec<char> = Vec::new();
            append_str(&mut m, "UnicodeValidatorConfig.max_input_size (");
            push_decimal(&mut m, self.config.max_input_size as u64);
            append_str(&mut m, ") seems excessive");
            let msg = string_from_chars(m.as_slice());
            return Err(
                PipelineError::degraded(codes::INVALID_REQUEST, msg.as_str(), "MOD-01").with_hint(
                    "Set max_input_size to a reasonable value (default: 1,048,576)",
                ),
            );
        }
        let ranges = &self.config.allowed_unicode_ranges;
        let mut k: usize = 0;
        while k < ranges.len()
            invariant
                0 <= k <= ranges@.len(),
                ranges@ == self.config.allowed_unicode_ranges@,
                0 < self.config.max_input_size <= 100_000_000,
                forall|j: int| 0 <= j < k ==> #[trigger] ranges@[j].0 <= ranges@[j].1,
            decreases ranges@.len() - k,
        {
            let (start, end) = ranges[k];
            if start > end {
                let mut m: Vec<char> = Vec::new();
                append_str(&mut m, "Invalid Unicode range: U+");
                push_hex_upper(&mut m, start, 4);
                append_str(&mut m, " > U+");
                push_hex_upper(&mut m, end, 4);
                let msg = string_from_chars(m.as_slice());
                proof {
                    assert(0 <= k < self.config.allowed_unicode_ranges@.len()
                        && self.config.allowed_unicode_ranges@[k as int].0
                        > self.config.allowed_unicode_ranges@[k as int].1 && forall|j: int|
                        0 <= j < k ==> #[trigger] self.config.allowed_unicode_ranges@[j].0
                            <= self.config.allowed_unicode_ranges@[j].1);
                    let kk = choose|kk: int|
                        0 <= kk < self.config.allowed_unicode_ranges@.len()
                            && #[trigger] self.config.allowed_unicode_ranges@[kk].0
                            > self.config.allowed_unicode_ranges@[kk].1 && forall|j: int|
                            0 <= j < kk ==> #[trigger] self.config.allowed_unicode_ranges@[j].0
                                <= self.config.allowed_unicode_ranges@[j].1;
                    assert(kk == k) by {
                        if kk < k {
                            assert(ranges@[kk].0 <= ranges@[kk].1);
                        } else if kk > k {
                            assert(ranges@[k as int].0 <= ranges@[k as int].1);
                        }
                    }
                }
                return Err(PipelineError::fatal(codes::INVALID_REQUEST, msg.as_str(), "MOD-01"));
            }
            k = k + 1;
        }
        Ok(())
    }
}

/// `v` without its tatweel characters.
fn remove_tatweel(v: &Vec<char>) -> (r: Vec<char>)
    ensures
        r@ == v@.filter(|c: char| c != TATWEEL),
{
    let mut out: Vec<char> = Vec::new();
    let mut i: usize = 0;
    while i < v.len()
        invariant
            0 <= i <= v@.len(),
            out@ == v@.take(i as int).filter(|c: char| c != TATWEEL),
        decreases v@.len() - i,
    {
        reveal_with_fuel(Seq::<char>::filter, 1);
        assert(v@.take(i + 1).drop_last() == v@.take(i as int));
        if v[i] != TATWEEL {
            out.push(v[i]);
        }
        i = i + 1;
    }
    assert(v@.take(v@.len() as int) == v@);
    out
}

/// Whether `c` is Unicode white space.
pub fn is_white_space_char(c: char) -> (r: bool)
    ensures
        r == is_white_space(c),
{
    ('\u{0009}' <= c && c <= '\u{000D}') || c == ' ' || c == '\u{0085}' || c == '\u{00A0}' || c
        == '\u{1680}' || ('\u{2000}' <= c && c <= '\u{200A}') || c == '\u{2028}' || c == '\u{2029}'
        || c == '\u{202F}' || c == '\u{205F}' || c == '\u{3000}'
}

/// The number of whitespace-separated words of `v`.
fn count_words(v: &Vec<char>) -> (r: u64)
    ensures
        r == word_count(v@),
{
    let mut n: u64 = 0;
    let mut i: usize = 0;
    while i < v.len()
        invariant
            0 <= i <= v@.len(),
            n == word_count(v@.take(i as int)),
            n <= i,
        decreases v@.len() - i,
    {
        let ghost t = v@.take(i + 1);
        assert(t.drop_last() == v@.take(i as int));
        let starts = !is_white_space_char(v[i]) && (i == 0 || is_white_space_char(v[i - 1]));
        if starts {
            n = n + 1;
        }
        i = i + 1;
    }
    assert(v@.take(v@.len() as int) == v@);
    n
}

impl Default for UnicodeValidator {
    fn default() -> (r: Self)
        ensures
            crate::config::has_default_limits(r.config),
            !r.config.normalize_tashkeel,
            !r.config.strip_tatweel,
            !r.config.strict_arabic_only,
    {
        Self::new(UnicodeValidatorConfig::default())
    }
}

impl PipelineStage<String, NormalizedText> for UnicodeValidator {
    fn stage_id(&self) -> (r: &'static str)
        ensures
            r@ == "MOD-01"@,
    {
        "MOD-01"
    }

    fn process(&self, input: String, ctx: &PipelineContext) -> (r: PipelineResult<NormalizedText>)
        ensures
            validation_outcome(self.config, input@, r),
    {
        self.validate_and_normalize(input)
    }

    fn validate_config(&self, ctx: &PipelineContext) -> (r: PipelineResult<()>)
        ensures
            config_check_outcome(self.config, r),
    {
        self.check_config()
    }
}

/// Validation is deterministic: two results for the same input and
/// configuration agree on success, on the normalized text and on the metadata.
pub proof fn lemma_validation_deterministic(
    cfg: UnicodeValidatorConfig,
    s: Seq<char>,
    r1: PipelineResult<NormalizedText>,
    r2: PipelineResult<NormalizedText>,
)
    requires
        validation_outcome(cfg, s, r1),
        validation_outcome(cfg, s, r2),
    ensures
        r1 is Ok <==> r2 is Ok,
        r1 matches Ok(a) ==> r2 matches Ok(b) && a.normalized_text@ == b.normalized_text@ && a.original_text@
            == b.original_text@ && a.metadata.char_count == b.metadata.char_count && a.metadata.byte_count
            == b.metadata.byte_count && a.metadata.word_count_estimate == b.metadata.word_count_estimate
            && a.metadata.has_tashkeel == b.metadata.has_tashkeel && a.metadata.has_tatweel
            == b.metadata.has_tatweel && a.metadata.has_quranic_symbols == b.metadata.has_quranic_symbols
            && a.metadata.has_non_arabic == b.metadata.has_non_arabic,
        r1 matches Err(a) ==> r2 matches Err(b) && a.code@ == b.code@ && a.message@ == b.message@,
{
}

/// The punctuation that validation accepts whatever the allowed ranges:
/// ASCII `. , ; : ! ? ( ) [ ] { } - / \`, the Arabic comma, semicolon,
/// question mark, letter mark and full stop, three Syriac stops, guillemets,
/// hyphen, dashes and curly quotes.
pub open spec fn always_allowed_punctuation() -> Seq<char> {
    seq![
        '.', ',', ';', ':', '!', '?', '(', ')', '[', ']', '{', '}',
        '\u{060C}', '\u{061B}', '\u{061F}', '\u{061C}', '\u{06D4}',
        '\u{0700}', '\u{0701}', '\u{0702}',
        '\u{00AB}', '\u{00BB}', '\u{2010}', '\u{2013}', '\u{2014}',
        '\u{2018}', '\u{2019}', '\u{201C}', '\u{201D}', '-', '/', '\\',
    ]
}

/// Text made only of characters in the allowed ranges, space, tab, newline,
/// carriage return, Arabic-Indic digits (U+0660–U+0669, U+06F0–U+06F9) and
/// the always-allowed punctuation is accepted, in strict mode too, when it is
/// non-empty and within the size limit; nothing of it counts as non-Arabic.
pub proof fn lemma_arabic_text_accepted(cfg: UnicodeValidatorConfig, s: Seq<char>, r: PipelineResult<NormalizedText>)
    requires
        validation_outcome(cfg, s, r),
        s.len() > 0,
        byte_len(s) <= cfg.max_input_size,
        forall|i: int|
            0 <= i < s.len() ==> #[trigger] s[i] == ' ' || s[i] == '\t' || s[i] == '\n' || s[i] == '\r'
                || (exists|k: int|
                0 <= k < cfg.allowed_unicode_ranges@.len() + cfg.extra_allowed_ranges@.len()
                    && (#[trigger] (cfg.allowed_unicode_ranges@ + cfg.extra_allowed_ranges@)[k]).0 <= s[i] as u32
                    <= (cfg.allowed_unicode_ranges@ + cfg.extra_allowed_ranges@)[k].1) || ('\u{0660}'
                <= s[i] <= '\u{0669}') || ('\u{06F0}' <= s[i] <= '\u{06F9}')
                || always_allowed_punctuation().contains(s[i]),
    ensures
        r matches Ok(n) && !n.metadata.has_non_arabic && n.original_text@ == s,
{
    let ranges = cfg.allowed_unicode_ranges@ + cfg.extra_allowed_ranges@;
    assert forall|i: int| 0 <= i < s.len() implies accepted(#[trigger] s[i], ranges) by {
        let c = s[i];
        if always_allowed_punctuation().contains(c) {
            let j = choose|j: int| 0 <= j < always_allowed_punctuation().len() && always_allowed_punctuation()[j] == c;
            assert(is_arabic_punctuation_char(always_allowed_punctuation()[j]));
        } else if exists|k: int| 0 <= k < ranges.len() && (#[trigger] ranges[k]).0 <= c as u32 <= ranges[k].1 {
            let k = choose|k: int| 0 <= k < ranges.len() && (#[trigger] ranges[k]).0 <= c as u32 <= ranges[k].1;
            assert(in_ranges(c, ranges));
        }
    }
    assert(!has_rejected(s, ranges));
}

} // verus!
