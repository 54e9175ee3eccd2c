//! Semantic versions and the knowledge-version map.

use vstd::prelude::*;

use crate::text::{chars_of, decimal, digit_char, is_digit, push_decimal, string_from_chars};

verus! {

/// A map of knowledge base IDs to their versions.
pub type KnowledgeVersionMap = vstd::hash_map::StringHashMap<String>;

/// The value of a string of decimal digits (0 for the empty string).
pub open spec fn digits_value(s: Seq<char>) -> nat
    decreases s.len(),
{
    if s.len() == 0 {
        0
    } else {
        digits_value(s.drop_last()) * 10 + (s.last() as nat - 48) as nat
    }
}

/// `s` without its leading `+`, if it has one.
pub open spec fn unsigned_digits(s: Seq<char>) -> Seq<char> {
    if s.len() > 0 && s[0] == '+' {
        s.drop_first()
    } else {
        s
    }
}

/// Whether every character of `d` is a decimal digit.
pub open spec fn all_digits(d: Seq<char>) -> bool {
    forall|i: int| 0 <= i < d.len() ==> is_digit(#[trigger] d[i])
}

/// What std's `u16::from_str` accepts: an optional `+`, then one or more
/// decimal digits whose value fits in 16 bits.
pub open spec fn parse_u16_spec(s: Seq<char>) -> Option<u16> {
    let d = unsigned_digits(s);
    if d.len() > 0 && all_digits(d) && digits_value(d) <= 65535 {
        Some(digits_value(d) as u16)
    } else {
        None
    }
}

/// `s` cut at every occurrence of `sep` (std `str::split` with a char pattern).
pub open spec fn split_on(s: Seq<char>, sep: char) -> Seq<Seq<char>>
    decreases s.len(),
{
    if s.len() == 0 {
        seq![Seq::<char>::empty()]
    } else {
        let rest = split_on(s.drop_last(), sep);
        if s.last() == sep {
            rest.push(Seq::<char>::empty())
        } else {
            rest.update(rest.len() - 1, rest.last().push(s.last()))
        }
    }
}


/// Whether `sep` does not occur in `s`.
pub open spec fn free_of(s: Seq<char>, sep: char) -> bool {
    forall|i: int| 0 <= i < s.len() ==> #[trigger] s[i] != sep
}

proof fn lemma_decimal(n: nat)
    ensures
        decimal(n).len() > 0,
        all_digits(decimal(n)),
        digits_value(decimal(n)) == n,
    decreases n,
{
    if n >= 10 {
        lemma_decimal(n / 10);
        let p = decimal(n / 10);
        assert(decimal(n).drop_last() == p);
        assert(decimal(n).last() == digit_char(n % 10));
        assert(digit_char(n % 10) as nat == n % 10 + 48);
        assert((n / 10) * 10 + n % 10 == n);
        assert(digits_value(decimal(n)) == digits_value(p) * 10 + (decimal(n).last() as nat - 48) as nat);
        assert forall|i: int| 0 <= i < decimal(n).len() implies is_digit(#[trigger] decimal(n)[i]) by {
            if i < p.len() {
                assert(decimal(n)[i] == p[i]);
            }
        }
    } else {
        assert(decimal(n).drop_last() == Seq::<char>::empty());
        assert(digit_char(n) as nat == n + 48);
        assert(digits_value(Seq::<char>::empty()) == 0);
        assert(digits_value(decimal(n)) == digits_value(Seq::<char>::empty()) * 10 + (decimal(n).last() as nat - 48) as nat);
    }
}

proof fn lemma_split_extend(x: Seq<char>, y: Seq<char>, sep: char)
    requires
        free_of(y, sep),
    ensures
        split_on(x + y, sep) == split_on(x, sep).update(
            split_on(x, sep).len() - 1,
            split_on(x, sep).last() + y,
        ),
        split_on(x, sep).len() >= 1,
    decreases y.len(),
{
    lemma_split_nonempty(x, sep);
    if y.len() == 0 {
        assert(x + y == x);
        assert(split_on(x, sep).last() + y == split_on(x, sep).last());
        assert(split_on(x, sep).update(split_on(x, sep).len() - 1, split_on(x, sep).last())
            == split_on(x, sep));
    } else {
        let y0 = y.drop_last();
        assert(free_of(y0, sep)) by {
            assert forall|i: int| 0 <= i < y0.len() implies #[trigger] y0[i] != sep by {
                assert(y0[i] == y[i]);
            }
        }
        lemma_split_extend(x, y0, sep);
        assert((x + y).drop_last() == x + y0);
        assert((x + y).last() == y.last());
        assert(y[y.len() - 1] != sep);
        lemma_split_nonempty(x + y0, sep);
        assert(split_on(x, sep).last() + y0 + seq![y.last()] == split_on(x, sep).last() + y);
        assert(y0.push(y.last()) == y);
        assert((split_on(x, sep).last() + y0).push(y.last()) == split_on(x, sep).last() + y);
    }
}

proof fn lemma_split_nonempty(x: Seq<char>, sep: char)
    ensures
        split_on(x, sep).len() >= 1,
    decreases x.len(),
{
    if x.len() > 0 {
        lemma_split_nonempty(x.drop_last(), sep);
    }
}

proof fn lemma_split_sep(x: Seq<char>, sep: char)
    ensures
        split_on(x + seq![sep], sep) == split_on(x, sep).push(Seq::<char>::empty()),
{
    assert((x + seq![sep]).drop_last() == x);
}

/// Parsing the rendering of a version gives the version back.
pub proof fn lemma_parse_renders_back(v: SemVer)
    ensures
        parse_semver_spec(semver_text(v)) == Some(v),
{
    let a = decimal(v.major as nat);
    let b = decimal(v.minor as nat);
    let c = decimal(v.patch as nat);
    lemma_decimal(v.major as nat);
    lemma_decimal(v.minor as nat);
    lemma_decimal(v.patch as nat);
    assert forall|s: Seq<char>| #[trigger] all_digits(s) implies free_of(s, '.') by {
        assert forall|i: int| 0 <= i < s.len() implies #[trigger] s[i] != '.' by {
            assert(is_digit(s[i]));
        }
    }
    let e = Seq::<char>::empty();
    lemma_split_extend(e, a, '.');
    assert(e + a == a);
    assert(split_on(e, '.') == seq![e]);
    assert(split_on(a, '.') == seq![a]);
    lemma_split_sep(a, '.');
    let a1 = a + seq!['.'];
    lemma_split_extend(a1, b, '.');
    assert(split_on(a1 + b, '.') == seq![a, b]);
    lemma_split_sep(a1 + b, '.');
    let b1 = a1 + b + seq!['.'];
    lemma_split_extend(b1, c, '.');
    assert(split_on(b1 + c, '.') == seq![a, b, c]);
    assert(semver_text(v) == b1 + c);
    assert(unsigned_digits(a) == a);
    assert(unsigned_digits(b) == b);
    assert(unsigned_digits(c) == c);
}

/// Every version is compatible with itself.
pub proof fn lemma_compatible_reflexive(v: SemVer)
    ensures
        compatible(v, v),
{
}

/// Compatibility is transitive.
pub proof fn lemma_compatible_transitive(a: SemVer, b: SemVer, c: SemVer)
    requires
        compatible(a, b),
        compatible(b, c),
    ensures
        compatible(a, c),
{
}

/// Semantic version (SemVer 2.0.0) for AGOS components.
#[derive(Debug, Clone, Copy, PartialEq, Eq, Structural)]
pub struct SemVer {
    pub major: u16,
    pub minor: u16,
    pub patch: u16,
}

/// The version "MAJOR.MINOR.PATCH" denotes, if it denotes one.
pub open spec fn parse_semver_spec(s: Seq<char>) -> Option<SemVer> {
    let parts = split_on(s, '.');
    if parts.len() == 3 {
        match (parse_u16_spec(parts[0]), parse_u16_spec(parts[1]), parse_u16_spec(parts[2])) {
            (Some(major), Some(minor), Some(patch)) => Some(SemVer { major, minor, patch }),
            _ => None,
        }
    } else {
        None
    }
}

/// The rendering "MAJOR.MINOR.PATCH" of a version.
pub open spec fn semver_text(v: SemVer) -> Seq<char> {
    decimal(v.major as nat) + seq!['.'] + decimal(v.minor as nat) + seq!['.'] + decimal(
        v.patch as nat,
    )
}

/// Whether `v` is compatible with the minimum version `min`: same major
/// version, and minor.patch at least that of `min`.
pub open spec fn compatible(v: SemVer, min: SemVer) -> bool {
    v.major == min.major && (v.minor > min.minor || (v.minor == min.minor && v.patch >= min.patch))
}

/// The value of the unsigned decimal field `s`, if std would accept it.
fn parse_u16_chars(s: &Vec<char>) -> (r: Option<u16>)
    ensures
        r == parse_u16_spec(s@),
{
    let mut i: usize = 0;
    if s.len() > 0 && s[0] == '+' {
        i = 1;
    }
    let start = i;
    let ghost d = unsigned_digits(s@);
    assert(d == s@.subrange(start as int, s@.len() as int));
    if i == s.len() {
        return None;
    }
    let mut val: u32 = 0;
    while i < s.len()
        invariant
            start <= i <= s@.len(),
            d == unsigned_digits(s@),
            d == s@.subrange(start as int, s@.len() as int),
            forall|k: int| start <= k < i ==> is_digit(#[trigger] s@[k]),
            val as nat == if digits_value(s@.subrange(start as int, i as int)) < 65536 {
                digits_value(s@.subrange(start as int, i as int))
            } else {
                65536
            },
        decreases s@.len() - i,
    {
        let c = s[i];
        if !('0' <= c && c <= '9') {
            assert(d[i - start] == s@[i as int]);
            assert(!is_digit(d[i - start]));
            return None;
        }
        let dv = (c as u32) - 48;
        assert(s@.subrange(start as int, i + 1).drop_last() == s@.subrange(start as int, i as int));
        if val >= 65536 {
            val = 65536;
        } else {
            val = val * 10 + dv;
            if val > 65536 {
                val = 65536;
            }
        }
        i = i + 1;
    }
    assert(s@.subrange(start as int, i as int) == d);
    if val > 65535 {
        None
    } else {
        assert forall|k: int| 0 <= k < d.len() implies is_digit(#[trigger] d[k]) by {
            assert(d[k] == s@[k + start]);
        }
        Some(val as u16)
    }
}

impl SemVer {
    pub fn new(major: u16, minor: u16, patch: u16) -> (r: Self)
        ensures
            r == (SemVer { major, minor, patch }),
    {
        Self { major, minor, patch }
    }

    /// Parse a version string in the form "MAJOR.MINOR.PATCH".
    pub fn parse(s: &str) -> (r: Option<Self>)
        ensures
            r == parse_semver_spec(s@),
    {
        let cs = chars_of(s);
        let mut parts: Vec<Vec<char>> = Vec::new();
        let mut cur: Vec<char> = Vec::new();
        let mut i: usize = 0;
        while i < cs.len()
            invariant
                0 <= i <= cs@.len(),
                cs@ == s@,
                parts@.len() + 1 == split_on(cs@.subrange(0, i as int), '.').len(),
                forall|k: int|
                    0 <= k < parts@.len() ==> #[trigger] parts@[k]@ == split_on(
                        cs@.subrange(0, i as int),
                        '.',
                    )[k],
                cur@ == split_on(cs@.subrange(0, i as int), '.').last(),
            decreases cs@.len() - i,
        {
            let c = cs[i];
            let ghost prev = cs@.subrange(0, i as int);
            assert(cs@.subrange(0, i + 1).drop_last() == prev);
            if c == '.' {
                let done = cur;
                parts.push(done);
                cur = Vec::new();
            } else {
                cur.push(c);
            }
            i = i + 1;
        }
        assert(cs@.subrange(0, cs@.len() as int) == cs@);
        parts.push(cur);
        if parts.len() != 3 {
            return None;
        }
        let major = parse_u16_chars(&parts[0]);
        let minor = parse_u16_chars(&parts[1]);
        let patch = parse_u16_chars(&parts[2]);
        match (major, minor, patch) {
            (Some(major), Some(minor), Some(patch)) => Some(SemVer { major, minor, patch }),
            _ => None,
        }
    }

    /// Check if this version is compatible with a minimum required version.
    pub fn is_compatible_with(&self, minimum: &SemVer) -> (r: bool)
        ensures
            r == compatible(*self, *minimum),
    {
        self.major == minimum.major && (self.minor > minimum.minor || (self.minor == minimum.minor
            && self.patch >= minimum.patch))
    }

    /// The rendering "MAJOR.MINOR.PATCH".
    pub fn to_version_string(&self) -> (r: String)
        ensures
            r@ == semver_text(*self),
    {
        let mut out: Vec<char> = Vec::new();
        push_decimal(&mut out, self.major as u64);
        out.push('.');
        push_decimal(&mut out, self.minor as u64);
        out.push('.');
        push_decimal(&mut out, self.patch as u64);
        assert(out@ == semver_text(*self));
        string_from_chars(out.as_slice())
    }
}

/// Version information of a pipeline module.
#[derive(Debug, Clone)]
pub struct ModuleVersion {
    /// Module identifier (e.g. "MOD-04")
    pub module_id: String,
    /// Version of the module's implementation
    pub version: SemVer,
    /// Version of the API the module implements
    pub api_version: SemVer,
    /// Versioned dependencies on other modules
    pub dependencies: Vec<ModuleDependency>,
}

/// A versioned dependency on another module.
#[derive(Debug, Clone)]
pub struct ModuleDependency {
    /// Identifier of the module depended on
    pub module_id: String,
    /// Minimum compatible version
    pub min_version: SemVer,
}

/// Version information of the grammar virtual machine.
#[derive(Debug, Clone)]
pub struct GVMVersion {
    pub major: u16,
    pub minor: u16,
    pub patch: u16,
    pub supported_bytecode_versions: Vec<String>,
}

} // verus!
