//! The pipeline-stage interface and the context shared by every stage.

use vstd::prelude::*;

use crate::error::PipelineResult;
use crate::text::{decimal, push_decimal, string_from_chars};
use crate::types::{GrammarSchool, LogLevel, PipelineMode};
use crate::version::KnowledgeVersionMap;

verus! {

/// A single stage of the compilation pipeline, with one input type and one
/// output type.
pub trait PipelineStage<I, O> {
    /// The unique identifier for this stage (e.g., "MOD-01", "MOD-04").
    fn stage_id(&self) -> &'static str;

    /// Process the input and produce output, or return an error.
    fn process(&self, input: I, ctx: &PipelineContext) -> PipelineResult<O>;

    /// Validate that the stage is correctly configured.
    fn validate_config(&self, ctx: &PipelineContext) -> PipelineResult<()>;
}

/// Shared context passed to every pipeline stage during execution.
pub struct PipelineContext {
    /// The grammar school to use for analysis
    pub school: GrammarSchool,
    /// The pipeline execution mode
    pub mode: PipelineMode,
    /// Log level for this pipeline run
    pub log_level: LogLevel,
    /// Versions of all loaded knowledge bases
    pub knowledge_versions: KnowledgeVersionMap,
    /// Explanation language requested
    pub explanation_language: String,
    /// Whether to include evidence trail in output
    pub include_evidence: bool,
    /// Whether LLM enhancement is enabled (for explanation only)
    pub enable_llm: bool,
    /// ISO 8601 timestamp of when this pipeline execution started
    pub started_at: String,
}

impl PipelineContext {
    /// A context with default settings that starts now.
    pub fn new(school: GrammarSchool) -> (r: Self)
        ensures
            r.school == school,
            r.mode == PipelineMode::Full,
            r.log_level == LogLevel::Info,
            r.knowledge_versions@ == Map::<Seq<char>, String>::empty(),
            r.explanation_language@ == "en"@,
            !r.include_evidence,
            !r.enable_llm,
            exists|secs: u64| r.started_at@ == #[trigger] iso8601_text(secs),
    {
        Self {
            school,
            mode: PipelineMode::Full,
            log_level: LogLevel::Info,
            knowledge_versions: KnowledgeVersionMap::new(),
            explanation_language: crate::text::owned("en"),
            include_evidence: false,
            enable_llm: false,
            started_at: now_iso8601(),
        }
    }

    /// Set the knowledge version map from a loaded KB suite.
    pub fn with_knowledge_versions(self, versions: KnowledgeVersionMap) -> (r: Self)
        ensures
            r.knowledge_versions@ == versions@,
            r.school == self.school,
            r.mode == self.mode,
            r.log_level == self.log_level,
            r.explanation_language == self.explanation_language,
            r.include_evidence == self.include_evidence,
            r.enable_llm == self.enable_llm,
            r.started_at == self.started_at,
    {
        let mut c = self;
        c.knowledge_versions = versions;
        c
    }

    /// Set the pipeline mode.
    pub fn with_mode(self, mode: PipelineMode) -> (r: Self)
        ensures
            r.mode == mode,
            r.school == self.school,
            r.log_level == self.log_level,
            r.knowledge_versions@ == self.knowledge_versions@,
            r.explanation_language == self.explanation_language,
            r.include_evidence == self.include_evidence,
            r.enable_llm == self.enable_llm,
            r.started_at == self.started_at,
    {
        let mut c = self;
        c.mode = mode;
        c
    }

    /// Set the explanation language.
    pub fn with_explanation_language(self, lang: &str) -> (r: Self)
        ensures
            r.explanation_language@ == lang@,
            r.school == self.school,
            r.mode == self.mode,
            r.log_level == self.log_level,
            r.knowledge_versions@ == self.knowledge_versions@,
            r.include_evidence == self.include_evidence,
            r.enable_llm == self.enable_llm,
            r.started_at == self.started_at,
    {
        let mut c = self;
        c.explanation_language = crate::text::owned(lang);
        c
    }
}

/// The seconds elapsed since the Unix epoch on the system clock (std
/// `SystemTime::now`, measured from `UNIX_EPOCH`; 0 when the clock is set
/// before the epoch). The result depends on the time, so nothing is stated of it.
#[verifier::external_body]
fn unix_time_secs() -> u64 {
    std::time::SystemTime::now().duration_since(std::time::UNIX_EPOCH).unwrap_or_default().as_secs()
}

/// `n` in decimal, left-padded with zeros to at least `width` digits.
pub open spec fn padded(n: nat, width: nat) -> Seq<char> {
    let d = decimal(n);
    if d.len() < width {
        Seq::new((width - d.len()) as nat, |i: int| '0') + d
    } else {
        d
    }
}

/// The proleptic Gregorian (year, month, day) of the day `days` after
/// 1970-01-01 (Howard Hinnant's civil-from-days algorithm).
pub open spec fn civil_from_days(days: nat) -> (nat, nat, nat) {
    let z = days + 719468;
    let era = z / 146097;
    let doe = z % 146097;
    let yoe = (doe - doe / 1460 + doe / 36524 - doe / 146096) / 365;
    let y = yoe + era * 400;
    let doy = doe - (365 * yoe + yoe / 4 - yoe / 100);
    let mp = (5 * doy + 2) / 153;
    let d = doy - (153 * mp + 2) / 5 + 1;
    let m = if mp < 10 {
        mp + 3
    } else {
        mp - 9
    };
    let y = if m <= 2 {
        y + 1
    } else {
        y
    };
    (y as nat, m as nat, d as nat)
}

/// The ISO 8601 UTC timestamp "YYYY-MM-DDTHH:MM:SSZ" of `secs` seconds after the epoch.
pub open spec fn iso8601_text(secs: u64) -> Seq<char> {
    let days = secs as nat / 86400;
    let t = secs as nat % 86400;
    let (y, m, d) = civil_from_days(days);
    padded(y, 4) + seq!['-'] + padded(m, 2) + seq!['-'] + padded(d, 2) + seq!['T'] + padded(
        t / 3600,
        2,
    ) + seq![':'] + padded((t % 3600) / 60, 2) + seq![':'] + padded(t % 60, 2) + seq!['Z']
}


proof fn lemma_decimal_len(n: nat, w: nat)
    requires
        1 <= w <= 4,
        n < if w == 1 {
            10nat
        } else if w == 2 {
            100nat
        } else if w == 3 {
            1000nat
        } else {
            10000nat
        },
    ensures
        decimal(n).len() <= w,
    decreases w,
{
    if n >= 10 {
        lemma_decimal_len(n / 10, (w - 1) as nat);
    }
}

proof fn lemma_padded_len(n: nat, w: nat)
    requires
        decimal(n).len() <= w,
    ensures
        padded(n, w).len() == w,
{
}

proof fn lemma_day_of_year(doe: int)
    requires
        0 <= doe < 146097,
    ensures
        ({
            let yoe = (doe - doe / 1460 + doe / 36524 - doe / 146096) / 365;
            let doy = doe - (365 * yoe + yoe / 4 - yoe / 100);
            0 <= doy <= 365
        }),
{
    let a = doe / 1460;
    let b = doe / 36524;
    let c = doe / 146096;
    let yoe = (doe - a + b - c) / 365;
    let e = yoe / 4;
    let f = yoe / 100;
    assert(0 <= doe - (365 * yoe + e - f) <= 365) by (nonlinear_arith)
        requires
            0 <= doe < 146097,
            a == doe / 1460,
            b == doe / 36524,
            c == doe / 146096,
            yoe == (doe - a + b - c) / 365,
            e == yoe / 4,
            f == yoe / 100,
    ;
}

/// While the year has four digits, the timestamp is 20 characters long with
/// its separators at fixed places: "YYYY-MM-DDTHH:MM:SSZ".
pub proof fn lemma_iso8601_shape(secs: u64)
    requires
        civil_from_days(secs as nat / 86400).0 < 10000,
    ensures
        iso8601_text(secs).len() == 20,
        iso8601_text(secs)[4] == '-',
        iso8601_text(secs)[7] == '-',
        iso8601_text(secs)[10] == 'T',
        iso8601_text(secs)[13] == ':',
        iso8601_text(secs)[16] == ':',
        iso8601_text(secs)[19] == 'Z',
{
    let days = secs as nat / 86400;
    let t = secs as nat % 86400;
    let z = days + 719468;
    let doe = z % 146097;
    lemma_day_of_year(doe as int);
    let yoe = (doe - doe / 1460 + doe / 36524 - doe / 146096) / 365;
    let doy = doe - (365 * yoe + yoe / 4 - yoe / 100);
    let mp = (5 * doy + 2) / 153;
    assert(0 <= mp <= 11);
    let d = doy - (153 * mp + 2) / 5 + 1;
    assert(1 <= d <= 31) by (nonlinear_arith)
        requires
            0 <= doy <= 365,
            mp == (5 * doy + 2) / 153,
            d == doy - (153 * mp + 2) / 5 + 1,
    ;
    let (y, m, dd) = civil_from_days(days);
    assert(m <= 12);
    assert(dd == d);
    lemma_decimal_len(y, 4);
    lemma_decimal_len(m, 2);
    lemma_decimal_len(dd, 2);
    lemma_decimal_len(t / 3600, 2);
    lemma_decimal_len((t % 3600) / 60, 2);
    lemma_decimal_len(t % 60, 2);
    lemma_padded_len(y, 4);
    lemma_padded_len(m, 2);
    lemma_padded_len(dd, 2);
    lemma_padded_len(t / 3600, 2);
    lemma_padded_len((t % 3600) / 60, 2);
    lemma_padded_len(t % 60, 2);
}

fn push_padded(out: &mut Vec<char>, n: u64, width: u64)
    ensures
        final(out)@ == old(out)@ + padded(n as nat, width as nat),
{
    let mut digits: Vec<char> = Vec::new();
    push_decimal(&mut digits, n);
    assert(digits@ == decimal(n as nat));
    let ghost start = out@;
    if (digits.len() as u64) < width {
        let zeros = width - digits.len() as u64;
        let mut k: u64 = 0;
        while k < zeros
            invariant
                k <= zeros,
                out@ == start + Seq::new(k as nat, |i: int| '0'),
            decreases zeros - k,
        {
            out.push('0');
            assert(Seq::new((k + 1) as nat, |i: int| '0') == Seq::new(k as nat, |i: int| '0').push(
                '0',
            ));
            k = k + 1;
        }
    }
    let mut i: usize = 0;
    let ghost mid = out@;
    while i < digits.len()
        invariant
            0 <= i <= digits@.len(),
            out@ == mid + digits@.subrange(0, i as int),
        decreases digits@.len() - i,
    {
        out.push(digits[i]);
        assert(digits@.subrange(0, i + 1) == digits@.subrange(0, i as int).push(digits@[i as int]));
        i = i + 1;
    }
    assert(digits@.subrange(0, digits@.len() as int) == digits@);
}

/// The timestamp of `secs` seconds after the epoch, as "YYYY-MM-DDTHH:MM:SSZ".
pub fn iso8601_from_unix_secs(secs: u64) -> (r: String)
    ensures
        r@ == iso8601_text(secs),
{
    let days = secs / 86400;
    let time_secs = secs % 86400;
    let hours = time_secs / 3600;
    let minutes = (time_secs % 3600) / 60;
    let seconds = time_secs % 60;

    let z: u64 = days + 719468;
    let era = z / 146097;
    let doe = z % 146097;
    let yoe = (doe - doe / 1460 + doe / 36524 - doe / 146096) / 365;
    let y = yoe + era * 400;
    let doy = doe - (365 * yoe + yoe / 4 - yoe / 100);
    let mp = (5 * doy + 2) / 153;
    let d = doy - (153 * mp + 2) / 5 + 1;
    let m = if mp < 10 {
        mp + 3
    } else {
        mp - 9
    };
    let y = if m <= 2 {
        y + 1
    } else {
        y
    };
    let mut out: Vec<char> = Vec::new();
    push_padded(&mut out, y, 4);
    out.push('-');
    push_padded(&mut out, m, 2);
    out.push('-');
    push_padded(&mut out, d, 2);
    out.push('T');
    push_padded(&mut out, hours, 2);
    out.push(':');
    push_padded(&mut out, minutes, 2);
    out.push(':');
    push_padded(&mut out, seconds, 2);
    out.push('Z');
    string_from_chars(out.as_slice())
}

/// The current time as an ISO 8601 UTC timestamp (e.g., `2026-07-21T12:34:56Z`).
pub fn now_iso8601() -> (r: String)
    ensures
        exists|secs: u64| r@ == #[trigger] iso8601_text(secs),
{
    let secs = unix_time_secs();
    let r = iso8601_from_unix_secs(secs);
    assert(r@ == iso8601_text(secs));
    r
}

} // verus!
