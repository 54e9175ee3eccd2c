//! MOD-02: splits normalized text into an ordered stream of raw tokens.
//!
//! Consecutive characters of one class form a token; diacritics (tashkeel)
//! travel with the Arabic letters they are attached to.

use vstd::prelude::*;

use crate::error::PipelineResult;
use crate::ir::{NormalizedText, RawToken, TokenStream, TokenStreamMetadata};
use crate::morph_error::{is_morph_pipeline_error, MorphError};
use crate::pipeline::{PipelineContext, PipelineStage};
use crate::text::{byte_len, byte_offsets, chars_of, owned, push_char, string_from_range};
use crate::types::TokenType;

verus! {

/// Configuration of the lexer.
#[derive(Debug, Clone)]
pub struct LexerConfig {
    /// Whether whitespace tokens are dropped from the output (default: false).
    pub skip_whitespace: bool,
    /// Whether diacritics are part of word tokens (default: true). When false,
    /// each diacritic is a token of its own, of unknown type.
    pub include_tashkeel_in_words: bool,
}

impl Default for LexerConfig {
    fn default() -> (r: Self)
        ensures
            !r.skip_whitespace,
            r.include_tashkeel_in_words,
    {
        Self { skip_whitespace: false, include_tashkeel_in_words: true }
    }
}

impl LexerConfig {
    /// The default configuration, with whitespace tokens dropped.
    pub fn skipping_whitespace() -> (r: Self)
        ensures
            r.skip_whitespace,
            r.include_tashkeel_in_words,
    {
        Self { skip_whitespace: true, include_tashkeel_in_words: true }
    }
}

/// The class of a character, which decides what token it belongs to.
#[derive(Debug, Clone, Copy, PartialEq, Eq, Structural)]
pub enum CharClass {
    ArabicLetter,
    ArabicDigit,
    Whitespace,
    Punctuation,
    Symbol,
    Tashkeel,
    Other,
}

/// The punctuation characters the lexer knows.
pub open spec fn is_lexer_punctuation(c: char) -> bool {
    c == '.' || c == ',' || c == ';' || c == ':' || c == '!' || c == '?' || c == '[' || c == ']'
        || c == '{' || c == '}' || c == '\u{060C}' || c == '\u{061B}' || c == '\u{061F}' || c
        == '\u{06D4}' || c == '\u{00AB}' || c == '\u{00BB}' || c == '\u{2010}' || c == '\u{2013}'
        || c == '\u{2014}' || c == '\u{2018}' || c == '\u{2019}' || c == '\u{201C}' || c
        == '\u{201D}' || c == '-' || c == '/' || c == '\\'
}

/// The symbol characters the lexer knows.
pub open spec fn is_lexer_symbol(c: char) -> bool {
    c == '@' || c == '#' || c == '$' || c == '%' || c == '^' || c == '&' || c == '*' || c == '+'
        || c == '=' || c == '<' || c == '>' || c == '|' || c == '~' || c == '`'
}

/// The class of `c`. The tests are taken in order: whitespace, punctuation,
/// Arabic-Indic digits, diacritics, the Arabic blocks, symbols, ASCII digits.
pub open spec fn char_class(c: char) -> CharClass {
    if c == ' ' || c == '\t' || c == '\n' || c == '\r' {
        CharClass::Whitespace
    } else if is_lexer_punctuation(c) {
        CharClass::Punctuation
    } else if ('\u{0660}' <= c <= '\u{0669}') || ('\u{06F0}' <= c <= '\u{06F9}') {
        CharClass::ArabicDigit
    } else if ('\u{064B}' <= c <= '\u{0652}') || c == '\u{0670}' {
        CharClass::Tashkeel
    } else if ('\u{0600}' <= c <= '\u{06FF}') || ('\u{0750}' <= c <= '\u{077F}') || ('\u{08A0}'
        <= c <= '\u{08FF}') {
        CharClass::ArabicLetter
    } else if is_lexer_symbol(c) {
        CharClass::Symbol
    } else if '0' <= c <= '9' {
        CharClass::ArabicDigit
    } else {
        CharClass::Other
    }
}

/// Classify a single character.
pub fn classify_char(c: char) -> (r: CharClass)
    ensures
        r == char_class(c),
{
    if c == ' ' || c == '\t' || c == '\n' || c == '\r' {
        return CharClass::Whitespace;
    }
    if c == '.' || c == ',' || c == ';' || c == ':' || c == '!' || c == '?' || c == '[' || c
        == ']' || c == '{' || c == '}' || c == '\u{060C}' || c == '\u{061B}' || c == '\u{061F}'
        || c == '\u{06D4}' || c == '\u{00AB}' || c == '\u{00BB}' || c == '\u{2010}' || c
        == '\u{2013}' || c == '\u{2014}' || c == '\u{2018}' || c == '\u{2019}' || c == '\u{201C}'
        || c == '\u{201D}' || c == '-' || c == '/' || c == '\\' {
        return CharClass::Punctuation;
    }
    if ('\u{0660}' <= c && c <= '\u{0669}') || ('\u{06F0}' <= c && c <= '\u{06F9}') {
        return CharClass::ArabicDigit;
    }
    if ('\u{064B}' <= c && c <= '\u{0652}') || c == '\u{0670}' {
        return CharClass::Tashkeel;
    }
    if ('\u{0600}' <= c && c <= '\u{06FF}') || ('\u{0750}' <= c && c <= '\u{077F}') || ('\u{08A0}'
        <= c && c <= '\u{08FF}') {
        return CharClass::ArabicLetter;
    }
    if c == '@' || c == '#' || c == '$' || c == '%' || c == '^' || c == '&' || c == '*' || c
        == '+' || c == '=' || c == '<' || c == '>' || c == '|' || c == '~' || c == '`' {
        return CharClass::Symbol;
    }
    if '0' <= c && c <= '9' {
        return CharClass::ArabicDigit;
    }
    CharClass::Other
}

/// The token type of a run of characters of class `cls`.
pub open spec fn class_token_type(cls: CharClass) -> TokenType {
    match cls {
        CharClass::ArabicLetter => TokenType::Word,
        CharClass::ArabicDigit => TokenType::Number,
        CharClass::Whitespace => TokenType::Whitespace,
        CharClass::Punctuation => TokenType::Punctuation,
        CharClass::Symbol => TokenType::Symbol,
        CharClass::Tashkeel => TokenType::Unknown,
        CharClass::Other => TokenType::Unknown,
    }
}

fn token_type_of(cls: CharClass) -> (r: TokenType)
    ensures
        r == class_token_type(cls),
{
    match cls {
        CharClass::ArabicLetter => TokenType::Word,
        CharClass::ArabicDigit => TokenType::Number,
        CharClass::Whitespace => TokenType::Whitespace,
        CharClass::Punctuation => TokenType::Punctuation,
        CharClass::Symbol => TokenType::Symbol,
        CharClass::Tashkeel => TokenType::Unknown,
        CharClass::Other => TokenType::Unknown,
    }
}

/// Whether a character of class `next` continues a token of class `cls`.
pub open spec fn continues(cfg: LexerConfig, cls: CharClass, next: CharClass) -> bool {
    (cls == CharClass::ArabicLetter && next == CharClass::Tashkeel && cfg.include_tashkeel_in_words)
        || next == cls
}

/// The end of the run that continues a token of class `cls` from index `j` on.
pub open spec fn group_end(cfg: LexerConfig, s: Seq<char>, cls: CharClass, j: int) -> int
    decreases s.len() - j,
{
    if 0 <= j < s.len() && continues(cfg, cls, char_class(s[j])) {
        group_end(cfg, s, cls, j + 1)
    } else {
        j
    }
}

/// The end of the run of letters and diacritics from index `j` on.
pub open spec fn word_end(s: Seq<char>, j: int) -> int
    decreases s.len() - j,
{
    if 0 <= j < s.len() && (char_class(s[j]) == CharClass::ArabicLetter || char_class(s[j])
        == CharClass::Tashkeel) {
        word_end(s, j + 1)
    } else {
        j
    }
}

/// A token as a span of character indices `[start, end)` with its type.
pub type Span = (int, int, TokenType);

/// One step of the scan at character index `k`: the spans found so far, and
/// the index where the scan goes on.
///
/// When diacritics belong to words, a diacritic that follows a letter joins
/// the preceding word token, one next to a letter otherwise starts a word of
/// letters and diacritics, and a lone diacritic is a token of unknown type.
/// When they do not, every diacritic is a token of unknown type of its own.
/// Any other character starts a token that runs as long as its class continues.
pub open spec fn lex_step(cfg: LexerConfig, s: Seq<char>, spans: Seq<Span>, k: int) -> (
    Seq<Span>,
    int,
) {
    let cls = char_class(s[k]);
    if cls == CharClass::Tashkeel && !cfg.include_tashkeel_in_words {
        (spans.push((k, k + 1, TokenType::Unknown)), k + 1)
    } else if cls == CharClass::Tashkeel {
        let prev_letter = k > 0 && char_class(s[k - 1]) == CharClass::ArabicLetter;
        let next_letter = k + 1 < s.len() && char_class(s[k + 1]) == CharClass::ArabicLetter;
        if prev_letter && spans.len() > 0 && spans.last().2 == TokenType::Word {
            (spans.update(spans.len() - 1, (spans.last().0, k + 1, TokenType::Word)), k + 1)
        } else if prev_letter || next_letter {
            let e = word_end(s, k + 1);
            (spans.push((k, e, TokenType::Word)), e)
        } else {
            (spans.push((k, k + 1, TokenType::Unknown)), k + 1)
        }
    } else {
        let e = group_end(cfg, s, cls, k + 1);
        (spans.push((k, e, class_token_type(cls))), e)
    }
}

/// The scan from index `k` on, after `spans` were found.
pub open spec fn lex_from(cfg: LexerConfig, s: Seq<char>, spans: Seq<Span>, k: int) -> Seq<Span>
    decreases s.len() - k,
{
    if k < 0 || k >= s.len() {
        spans
    } else {
        proof {
            lemma_scan_ends(cfg, s, k);
        }
        let step = lex_step(cfg, s, spans, k);
        lex_from(cfg, s, step.0, step.1)
    }
}

/// The spans of all tokens of `s`, whitespace included.
pub open spec fn lexed_spans(cfg: LexerConfig, s: Seq<char>) -> Seq<Span> {
    lex_from(cfg, s, Seq::empty(), 0)
}

/// The spans that the lexer outputs: whitespace tokens dropped if so configured.
pub open spec fn kept_spans(cfg: LexerConfig, s: Seq<char>) -> Seq<Span> {
    if cfg.skip_whitespace {
        lexed_spans(cfg, s).filter(|g: Span| g.2 != TokenType::Whitespace)
    } else {
        lexed_spans(cfg, s)
    }
}

/// `t` is the token of span `g` of `s`, with id `id`.
pub open spec fn token_matches(s: Seq<char>, t: RawToken, g: Span, id: int) -> bool {
    &&& t.id == id
    &&& t.text@ == s.subrange(g.0, g.1)
    &&& t.token_type == g.2
    &&& t.start_offset == byte_len(s.take(g.0))
    &&& t.end_offset == byte_len(s.take(g.1))
}

/// The token stream that the lexer produces for the non-empty text `s`.
pub open spec fn lexer_output(cfg: LexerConfig, s: Seq<char>, ts: TokenStream) -> bool {
    let kept = kept_spans(cfg, s);
    &&& ts.spec@ == "SPEC-0001"@
    &&& ts.version@ == "1.0"@
    &&& ts.text@ == s
    &&& ts.tokens@.len() == kept.len()
    &&& forall|i: int| 0 <= i < kept.len() ==> token_matches(s, #[trigger] ts.tokens@[i], kept[i], i)
    &&& ts.metadata.token_count == kept.len()
    &&& ts.metadata.word_count == kept.filter(|g: Span| g.2 == TokenType::Word).len()
    &&& ts.metadata.has_tokens == (kept.len() > 0)
}

/// The outcome of lexing `s`: the empty text is refused, any other is tokenized.
pub open spec fn lex_outcome(cfg: LexerConfig, s: Seq<char>, r: PipelineResult<TokenStream>) -> bool {
    if s.len() == 0 {
        r matches Err(e) && is_morph_pipeline_error(MorphError::EmptyInput, "MOD-02"@, e)
    } else {
        r matches Ok(ts) && lexer_output(cfg, s, ts)
    }
}

/// Both runs end at or after their start and at or before the end of `s`.
pub proof fn lemma_run_ends(cfg: LexerConfig, s: Seq<char>, cls: CharClass, j: int)
    requires
        0 <= j <= s.len(),
    ensures
        j <= group_end(cfg, s, cls, j) <= s.len(),
        j <= word_end(s, j) <= s.len(),
    decreases s.len() - j,
{
    if j < s.len() {
        lemma_run_ends(cfg, s, cls, j + 1);
    }
}

/// A scan step at `k` moves forward and stays within `s`.
pub proof fn lemma_scan_ends(cfg: LexerConfig, s: Seq<char>, k: int)
    requires
        0 <= k < s.len(),
    ensures
        forall|spans: Seq<Span>|
            k < #[trigger] lex_step(cfg, s, spans, k).1 <= s.len(),
{
    lemma_run_ends(cfg, s, char_class(s[k]), k + 1);
}

/// `spans` tile `[0, n)`: they are non-empty, in order, each starting where
/// the previous one ended, the first at 0 and the last at `n`.
pub open spec fn spans_tile(spans: Seq<Span>, n: int) -> bool {
    &&& (spans.len() == 0 <==> n == 0)
    &&& spans.len() > 0 ==> spans[0].0 == 0 && spans.last().1 == n
    &&& forall|i: int| 0 <= i < spans.len() ==> 0 <= #[trigger] spans[i].0 < spans[i].1 <= n
    &&& forall|i: int| 0 <= i < spans.len() - 1 ==> #[trigger] spans[i].1 == spans[i + 1].0
}

/// Appending a span that starts where the tiling ends extends the tiling.
proof fn lemma_tile_push(spans: Seq<Span>, n: int, g: Span)
    requires
        spans_tile(spans, n),
        g.0 == n,
        g.0 < g.1,
    ensures
        spans_tile(spans.push(g), g.1),
{
    let next = spans.push(g);
    assert forall|i: int| 0 <= i < next.len() - 1 implies #[trigger] next[i].1 == next[i + 1].0 by {
        if i < spans.len() - 1 {
            assert(next[i] == spans[i] && next[i + 1] == spans[i + 1]);
        }
    }
    assert forall|i: int| 0 <= i < next.len() implies 0 <= #[trigger] next[i].0 < next[i].1 <= g.1 by {
        if i < spans.len() {
            assert(next[i] == spans[i]);
        }
    }
}

/// Moving the end of the last span forward keeps a tiling.
proof fn lemma_tile_extend(spans: Seq<Span>, n: int, e: int, ty: TokenType)
    requires
        spans_tile(spans, n),
        spans.len() > 0,
        n < e,
    ensures
        spans_tile(spans.update(spans.len() - 1, (spans.last().0, e, ty)), e),
{
    let last: int = spans.len() - 1;
    let next = spans.update(last, (spans.last().0, e, ty));
    assert(0 <= spans[last].0 < spans[last].1);
    assert forall|i: int| 0 <= i < next.len() - 1 implies #[trigger] next[i].1 == next[i + 1].0 by {
        assert(next[i] == spans[i]);
        if i + 1 < last {
            assert(next[i + 1] == spans[i + 1]);
        }
    }
    assert forall|i: int| 0 <= i < next.len() implies 0 <= #[trigger] next[i].0 < next[i].1 <= e by {
        if i < last {
            assert(next[i] == spans[i]);
        }
    }
}

proof fn lemma_step_tiles(cfg: LexerConfig, s: Seq<char>, spans: Seq<Span>, k: int)
    requires
        0 <= k < s.len(),
        spans_tile(spans, k),
    ensures
        spans_tile(lex_step(cfg, s, spans, k).0, lex_step(cfg, s, spans, k).1),
{
    lemma_scan_ends(cfg, s, k);
    let step = lex_step(cfg, s, spans, k);
    let cls = char_class(s[k]);
    if cls == CharClass::Tashkeel && !cfg.include_tashkeel_in_words {
        lemma_tile_push(spans, k, (k, k + 1, TokenType::Unknown));
    } else if cls == CharClass::Tashkeel {
        let prev_letter = k > 0 && char_class(s[k - 1]) == CharClass::ArabicLetter;
        if prev_letter && spans.len() > 0 && spans.last().2 == TokenType::Word {
            lemma_tile_extend(spans, k, k + 1, TokenType::Word);
        } else {
            lemma_tile_push(spans, k, (k, step.1, step.0.last().2));
            assert(step.0 == spans.push((k, step.1, step.0.last().2)));
        }
    } else {
        lemma_tile_push(spans, k, (k, step.1, class_token_type(cls)));
    }
}

proof fn lemma_lex_from_tiles(cfg: LexerConfig, s: Seq<char>, spans: Seq<Span>, k: int)
    requires
        0 <= k <= s.len(),
        spans_tile(spans, k),
    ensures
        spans_tile(lex_from(cfg, s, spans, k), s.len() as int),
    decreases s.len() - k,
{
    if k < s.len() {
        lemma_scan_ends(cfg, s, k);
        lemma_step_tiles(cfg, s, spans, k);
        let step = lex_step(cfg, s, spans, k);
        lemma_lex_from_tiles(cfg, s, step.0, step.1);
    }
}

/// The tokens of a text tile it: every character belongs to exactly one
/// token, and the tokens come in text order.
pub proof fn lemma_lexed_spans_tile(cfg: LexerConfig, s: Seq<char>)
    ensures
        spans_tile(lexed_spans(cfg, s), s.len() as int),
{
    lemma_lex_from_tiles(cfg, s, Seq::empty(), 0);
}

/// The concatenated texts of `tokens`.
pub open spec fn joined_text(tokens: Seq<RawToken>) -> Seq<char>
    decreases tokens.len(),
{
    if tokens.len() == 0 {
        Seq::empty()
    } else {
        joined_text(tokens.drop_last()) + tokens.last().text@
    }
}

/// The first `j` tokens join to the characters up to the end of span `j - 1`.
proof fn lemma_joined_prefix(s: Seq<char>, spans: Seq<Span>, toks: Seq<RawToken>, j: int)
    requires
        1 <= j <= toks.len(),
        toks.len() == spans.len(),
        spans_tile(spans, s.len() as int),
        forall|i: int| 0 <= i < spans.len() ==> token_matches(s, #[trigger] toks[i], spans[i], i),
    ensures
        joined_text(toks.take(j)) == s.subrange(0, spans[j - 1].1),
    decreases j,
{
    assert(toks.take(j).drop_last() == toks.take(j - 1));
    assert(token_matches(s, toks[j - 1], spans[j - 1], j - 1));
    if j == 1 {
        assert(toks.take(0).len() == 0);
        assert(joined_text(toks.take(0)) == Seq::<char>::empty());
        assert(Seq::<char>::empty() + s.subrange(0, spans[0].1) == s.subrange(0, spans[0].1));
    } else {
        lemma_joined_prefix(s, spans, toks, j - 1);
        assert(spans[j - 2].1 == spans[j - 1].0);
        assert(s.subrange(0, spans[j - 1].1) == s.subrange(0, spans[j - 1].0) + s.subrange(
            spans[j - 1].0,
            spans[j - 1].1,
        ));
    }
}

/// With whitespace kept, lexing loses nothing: the token texts, concatenated,
/// give back the text, the first token starts at byte 0, each token starts
/// where the previous one ended, and the last one ends at the text's byte
/// length.
pub proof fn lemma_tokens_cover_text(cfg: LexerConfig, s: Seq<char>, ts: TokenStream)
    requires
        !cfg.skip_whitespace,
        s.len() > 0,
        lexer_output(cfg, s, ts),
    ensures
        joined_text(ts.tokens@) == s,
        ts.tokens@[0].start_offset == 0,
        ts.tokens@.last().end_offset == byte_len(s),
        forall|i: int|
            0 <= i < ts.tokens@.len() - 1 ==> #[trigger] ts.tokens@[i].end_offset
                == ts.tokens@[i + 1].start_offset,
{
    let spans = lexed_spans(cfg, s);
    lemma_lexed_spans_tile(cfg, s);
    let toks = ts.tokens@;
    assert(token_matches(s, toks[0], spans[0], 0));
    assert(s.take(0) == Seq::<char>::empty());
    let last: int = toks.len() - 1;
    assert(token_matches(s, toks[last], spans[last], last));
    assert(s.take(s.len() as int) == s);
    assert forall|i: int| 0 <= i < toks.len() - 1 implies #[trigger] toks[i].end_offset
        == toks[i + 1].start_offset by {
        assert(token_matches(s, toks[i], spans[i], i));
        assert(token_matches(s, toks[i + 1], spans[i + 1], i + 1));
        assert(spans[i].1 == spans[i + 1].0);
    }
    lemma_joined_prefix(s, spans, toks, toks.len() as int);
    assert(toks.take(toks.len() as int) == toks);
    assert(s.subrange(0, s.len() as int) == s);
}

/// MOD-02: the lexer stage.
#[derive(Debug, Clone)]
pub struct Lexer {
    /// Configuration for this lexer instance
    pub config: LexerConfig,
}

impl Lexer {
    /// A lexer with the given configuration.
    pub fn new(config: LexerConfig) -> (r: Self)
        ensures
            r.config == config,
    {
        Self { config }
    }

    /// Splits the normalized text of `input` into tokens.
    pub fn tokenize(&self, input: NormalizedText) -> (r: PipelineResult<TokenStream>)
        ensures
            lex_outcome(self.config, input.normalized_text@, r),
    {
        let text = input.normalized_text;
        let s = chars_of(text.as_str());
        let ghost sv = s@;
        let ghost cfg = self.config;
        if s.len() == 0 {
            return Err(MorphError::EmptyInput.into_pipeline("MOD-02"));
        }
        let offs = byte_offsets(text.as_str(), &s);
        let n = s.len();
        let mut tokens: Vec<RawToken> = Vec::new();
        let ghost mut spans: Seq<Span> = Seq::empty();
        let mut k: usize = 0;
        while k < n
            invariant
                s@ == sv,
                n == sv.len(),
                cfg == self.config,
                offs@.len() == n + 1,
                forall|j: int| 0 <= j <= n ==> #[trigger] offs@[j] == byte_len(sv.take(j)),
                0 <= k <= n,
                spans_tile(spans, k as int),
                lex_from(cfg, sv, spans, k as int) == lexed_spans(cfg, sv),
                tokens@.len() == spans.len(),
                forall|i: int|
                    0 <= i < spans.len() ==> token_matches(sv, #[trigger] tokens@[i], spans[i], i),
            decreases n - k,
        {
            let cls = classify_char(s[k]);
            proof {
                lemma_scan_ends(cfg, sv, k as int);
                lemma_step_tiles(cfg, sv, spans, k as int);
            }
            let ghost step = lex_step(cfg, sv, spans, k as int);
            let mut next_k: usize = k + 1;
            if cls == CharClass::Tashkeel && !self.config.include_tashkeel_in_words {
                push_span_token(&mut tokens, &s, &offs, k, k + 1, TokenType::Unknown, Ghost(spans));
            } else if cls == CharClass::Tashkeel {
                let prev_letter = k > 0 && classify_char(s[k - 1]) == CharClass::ArabicLetter;
                let next_letter = k + 1 < n && classify_char(s[k + 1]) == CharClass::ArabicLetter;
                if prev_letter && tokens.len() > 0 && tokens[tokens.len() - 1].token_type
                    == TokenType::Word {
                    proof {
                        assert(token_matches(
                            sv,
                            tokens@[spans.len() - 1],
                            spans[spans.len() - 1],
                            spans.len() - 1,
                        ));
                    }
                    extend_last_token(&mut tokens, &s, &offs, k, Ghost(spans));
                } else if prev_letter || next_letter {
                    next_k = scan_word_end(&s, k + 1);
                    push_span_token(&mut tokens, &s, &offs, k, next_k, TokenType::Word, Ghost(spans));
                } else {
                    push_span_token(
                        &mut tokens,
                        &s,
                        &offs,
                        k,
                        k + 1,
                        TokenType::Unknown,
                        Ghost(spans),
                    );
                }
            } else {
                next_k = scan_group_end(&self.config, &s, cls, k + 1);
                push_span_token(&mut tokens, &s, &offs, k, next_k, token_type_of(cls), Ghost(spans));
            }
            proof {
                assert(step.1 == next_k);
                spans = step.0;
            }
            k = next_k;
        }
        assert(spans == lexed_spans(cfg, sv));
        let tokens = if self.config.skip_whitespace {
            drop_whitespace(tokens, Ghost(sv), Ghost(spans))
        } else {
            tokens
        };
        let ghost kept = kept_spans(cfg, sv);
        let mut word_count: u64 = 0;
        let mut i: usize = 0;
        while i < tokens.len()
            invariant
                0 <= i <= tokens@.len(),
                tokens@.len() == kept.len(),
                forall|j: int| 0 <= j < kept.len() ==> token_matches(sv, #[trigger] tokens@[j], kept[j], j),
                word_count == kept.take(i as int).filter(|g: Span| g.2 == TokenType::Word).len(),
                word_count <= i,
            decreases tokens@.len() - i,
        {
            proof {
                reveal_with_fuel(Seq::<Span>::filter, 1);
                assert(kept.take(i + 1).drop_last() == kept.take(i as int));
                assert(token_matches(sv, tokens@[i as int], kept[i as int], i as int));
            }
            if tokens[i].token_type == TokenType::Word {
                word_count = word_count + 1;
            }
            i = i + 1;
        }
        assert(kept.take(kept.len() as int) == kept);
        let token_count = tokens.len() as u64;
        let metadata = TokenStreamMetadata { token_count, word_count, has_tokens: token_count > 0 };
        Ok(TokenStream { spec: owned("SPEC-0001"), version: owned("1.0"), text, tokens, metadata })
    }
}

/// The end of the run of letters and diacritics of `s` from index `j` on.
fn scan_word_end(s: &Vec<char>, j: usize) -> (r: usize)
    requires
        j <= s@.len(),
    ensures
        r == word_end(s@, j as int),
{
    let mut e: usize = j;
    while e < s.len() && (classify_char(s[e]) == CharClass::ArabicLetter || classify_char(s[e])
        == CharClass::Tashkeel)
        invariant
            j <= e <= s@.len(),
            word_end(s@, e as int) == word_end(s@, j as int),
        decreases s@.len() - e,
    {
        e = e + 1;
    }
    e
}

/// The end of the run of `s` from index `j` on that continues a token of class `cls`.
fn scan_group_end(cfg: &LexerConfig, s: &Vec<char>, cls: CharClass, j: usize) -> (r: usize)
    requires
        j <= s@.len(),
    ensures
        r == group_end(*cfg, s@, cls, j as int),
{
    let mut e: usize = j;
    while e < s.len()
        invariant
            j <= e <= s@.len(),
            group_end(*cfg, s@, cls, e as int) == group_end(*cfg, s@, cls, j as int),
        ensures
            group_end(*cfg, s@, cls, e as int) == e,
            group_end(*cfg, s@, cls, e as int) == group_end(*cfg, s@, cls, j as int),
        decreases s@.len() - e,
    {
        let next = classify_char(s[e]);
        let joins = (cls == CharClass::ArabicLetter && next == CharClass::Tashkeel
            && cfg.include_tashkeel_in_words) || next == cls;
        if !joins {
            break;
        }
        e = e + 1;
    }
    e
}

/// Appends the token of characters `[a, b)` of `s`, of type `ty`, numbered next.
fn push_span_token(
    tokens: &mut Vec<RawToken>,
    s: &Vec<char>,
    offs: &Vec<usize>,
    a: usize,
    b: usize,
    ty: TokenType,
    Ghost(spans): Ghost<Seq<Span>>,
)
    requires
        a < b <= s@.len(),
        offs@.len() == s@.len() + 1,
        forall|j: int| 0 <= j <= s@.len() ==> #[trigger] offs@[j] == byte_len(s@.take(j)),
        old(tokens)@.len() == spans.len(),
        forall|i: int|
            0 <= i < spans.len() ==> token_matches(s@, #[trigger] old(tokens)@[i], spans[i], i),
    ensures
        final(tokens)@.len() == spans.len() + 1,
        forall|i: int|
            0 <= i < spans.len() + 1 ==> token_matches(
                s@,
                #[trigger] final(tokens)@[i],
                spans.push((a as int, b as int, ty))[i],
                i,
            ),
{
    let ghost before = tokens@;
    let t = RawToken {
        id: tokens.len(),
        text: string_from_range(s, a, b),
        token_type: ty,
        start_offset: offs[a],
        end_offset: offs[b],
    };
    tokens.push(t);
    assert forall|i: int| 0 <= i < spans.len() + 1 implies token_matches(
        s@,
        #[trigger] tokens@[i],
        spans.push((a as int, b as int, ty))[i],
        i,
    ) by {
        if i < before.len() {
            assert(tokens@[i] == before[i]);
        }
    }
}

/// Extends the last token, a word ending at index `k`, by the character at `k`.
fn extend_last_token(
    tokens: &mut Vec<RawToken>,
    s: &Vec<char>,
    offs: &Vec<usize>,
    k: usize,
    Ghost(spans): Ghost<Seq<Span>>,
)
    requires
        k < s@.len(),
        spans_tile(spans, k as int),
        spans.len() > 0,
        offs@.len() == s@.len() + 1,
        forall|j: int| 0 <= j <= s@.len() ==> #[trigger] offs@[j] == byte_len(s@.take(j)),
        old(tokens)@.len() == spans.len(),
        forall|i: int|
            0 <= i < spans.len() ==> token_matches(s@, #[trigger] old(tokens)@[i], spans[i], i),
    ensures
        final(tokens)@.len() == spans.len(),
        forall|i: int|
            0 <= i < spans.len() ==> token_matches(
                s@,
                #[trigger] final(tokens)@[i],
                spans.update(spans.len() - 1, (spans.last().0, k + 1, TokenType::Word))[i],
                i,
            ),
{
    let n = s.len();
    let ghost before = tokens@;
    let ghost li: int = spans.len() - 1;
    let ghost g = spans.update(li, (spans.last().0, k + 1, TokenType::Word));
    assert(token_matches(s@, before[li], spans[li], li));
    assert(0 <= spans[li].0 < spans[li].1 <= k);
    match tokens.pop() {
        Some(mut last) => {
            assert(s@.subrange(spans[li].0, k + 1) == s@.subrange(spans[li].0, k as int).push(
                s@[k as int],
            ));
            push_char(&mut last.text, s[k]);
            last.end_offset = offs[k + 1];
            last.token_type = TokenType::Word;
            tokens.push(last);
            assert forall|i: int| 0 <= i < spans.len() implies token_matches(
                s@,
                #[trigger] tokens@[i],
                g[i],
                i,
            ) by {
                if i < li {
                    assert(tokens@[i] == before[i]);
                }
            }
        },
        None => {},
    }
}

/// `tokens` without its whitespace tokens, renumbered from 0.
fn drop_whitespace(tokens: Vec<RawToken>, Ghost(s): Ghost<Seq<char>>, Ghost(spans): Ghost<Seq<Span>>) -> (r: Vec<RawToken>)
    requires
        tokens@.len() == spans.len(),
        forall|i: int| 0 <= i < spans.len() ==> token_matches(s, #[trigger] tokens@[i], spans[i], i),
    ensures
        r@.len() == spans.filter(|g: Span| g.2 != TokenType::Whitespace).len(),
        forall|i: int|
            0 <= i < r@.len() ==> token_matches(
                s,
                #[trigger] r@[i],
                spans.filter(|g: Span| g.2 != TokenType::Whitespace)[i],
                i,
            ),
{
    let ghost all = tokens@;
    let mut out: Vec<RawToken> = Vec::new();
    for t in it: tokens.into_iter()
        invariant
            it.seq() == all,
            all.len() == spans.len(),
            forall|i: int| 0 <= i < spans.len() ==> token_matches(s, #[trigger] all[i], spans[i], i),
            out@.len() == spans.take(it.index() as int).filter(
                |g: Span| g.2 != TokenType::Whitespace,
            ).len(),
            forall|i: int|
                0 <= i < out@.len() ==> token_matches(
                    s,
                    #[trigger] out@[i],
                    spans.take(it.index() as int).filter(|g: Span| g.2 != TokenType::Whitespace)[i],
                    i,
                ),
    {
        let ghost idx: int = it.index() as int;
        proof {
            reveal_with_fuel(Seq::<Span>::filter, 1);
            assert(spans.take(idx + 1).drop_last() == spans.take(idx));
            assert(token_matches(s, all[idx], spans[idx], idx));
        }
        let mut t = t;
        if t.token_type != TokenType::Whitespace {
            let ghost before = out@;
            t.id = out.len();
            out.push(t);
            proof {
                let f = spans.take(idx + 1).filter(|g: Span| g.2 != TokenType::Whitespace);
                assert forall|i: int| 0 <= i < out@.len() implies token_matches(
                    s,
                    #[trigger] out@[i],
                    f[i],
                    i,
                ) by {
                    if i < before.len() {
                        assert(out@[i] == before[i]);
                    }
                }
            }
        }
    }
    assert(spans.take(spans.len() as int) == spans);
    out
}

impl Default for Lexer {
    fn default() -> (r: Self)
        ensures
            !r.config.skip_whitespace,
            r.config.include_tashkeel_in_words,
    {
        Self::new(LexerConfig::default())
    }
}

impl PipelineStage<NormalizedText, TokenStream> for Lexer {
    fn stage_id(&self) -> (r: &'static str)
        ensures
            r@ == "MOD-02"@,
    {
        "MOD-02"
    }

    fn process(&self, input: NormalizedText, ctx: &PipelineContext) -> (r: PipelineResult<
        TokenStream,
    >)
        ensures
            lex_outcome(self.config, input.normalized_text@, r),
    {
        self.tokenize(input)
    }

    fn validate_config(&self, ctx: &PipelineContext) -> (r: PipelineResult<()>)
        ensures
            r is Ok,
    {
        Ok(())
    }
}

/// Lexing is deterministic: two results for the same text and configuration
/// agree on success and on every token's id, text, type and offsets.
pub proof fn lemma_lex_deterministic(
    cfg: LexerConfig,
    s: Seq<char>,
    r1: PipelineResult<TokenStream>,
    r2: PipelineResult<TokenStream>,
)
    requires
        lex_outcome(cfg, s, r1),
        lex_outcome(cfg, s, r2),
    ensures
        r1 is Ok <==> r2 is Ok,
        r1 matches Ok(a) ==> r2 matches Ok(b) && a.tokens@.len() == b.tokens@.len() && a.metadata == b.metadata
            && forall|i: int|
            0 <= i < a.tokens@.len() ==> {
                &&& (#[trigger] a.tokens@[i]).id == b.tokens@[i].id
                &&& a.tokens@[i].text@ == b.tokens@[i].text@
                &&& a.tokens@[i].token_type == b.tokens@[i].token_type
                &&& a.tokens@[i].start_offset == b.tokens@[i].start_offset
                &&& a.tokens@[i].end_offset == b.tokens@[i].end_offset
            },
{
    if s.len() > 0 {
        let kept = kept_spans(cfg, s);
        assert forall|i: int| 0 <= i < r1->Ok_0.tokens@.len() implies {
            &&& (#[trigger] r1->Ok_0.tokens@[i]).id == r2->Ok_0.tokens@[i].id
            &&& r1->Ok_0.tokens@[i].text@ == r2->Ok_0.tokens@[i].text@
            &&& r1->Ok_0.tokens@[i].token_type == r2->Ok_0.tokens@[i].token_type
            &&& r1->Ok_0.tokens@[i].start_offset == r2->Ok_0.tokens@[i].start_offset
            &&& r1->Ok_0.tokens@[i].end_offset == r2->Ok_0.tokens@[i].end_offset
        } by {
            assert(token_matches(s, r1->Ok_0.tokens@[i], kept[i], i));
            assert(token_matches(s, r2->Ok_0.tokens@[i], kept[i], i));
        }
    }
}

proof fn lemma_group_end_cfg(c1: LexerConfig, c2: LexerConfig, s: Seq<char>, cls: CharClass, j: int)
    requires
        c1.include_tashkeel_in_words == c2.include_tashkeel_in_words,
    ensures
        group_end(c1, s, cls, j) == group_end(c2, s, cls, j),
    decreases s.len() - j,
{
    if 0 <= j < s.len() && continues(c1, cls, char_class(s[j])) {
        lemma_group_end_cfg(c1, c2, s, cls, j + 1);
    }
}

proof fn lemma_lex_from_cfg(c1: LexerConfig, c2: LexerConfig, s: Seq<char>, spans: Seq<Span>, k: int)
    requires
        c1.include_tashkeel_in_words == c2.include_tashkeel_in_words,
    ensures
        lex_from(c1, s, spans, k) == lex_from(c2, s, spans, k),
    decreases s.len() - k,
{
    if 0 <= k < s.len() {
        lemma_scan_ends(c1, s, k);
        lemma_group_end_cfg(c1, c2, s, char_class(s[k]), k + 1);
        assert(lex_step(c1, s, spans, k) == lex_step(c2, s, spans, k));
        let step = lex_step(c1, s, spans, k);
        lemma_lex_from_cfg(c1, c2, s, step.0, step.1);
    }
}

/// What a token says of the text: its text, type and byte offsets (all but its id).
pub open spec fn token_view(t: RawToken) -> (Seq<char>, TokenType, usize, usize) {
    (t.text@, t.token_type, t.start_offset, t.end_offset)
}

/// Whether a token view is not white space.
pub open spec fn not_space_view(v: (Seq<char>, TokenType, usize, usize)) -> bool {
    v.1 != TokenType::Whitespace
}

proof fn lemma_views_filter(s: Seq<char>, spans: Seq<Span>, toks: Seq<RawToken>, fks: Seq<RawToken>)
    requires
        toks.len() == spans.len(),
        forall|i: int| 0 <= i < spans.len() ==> token_matches(s, #[trigger] toks[i], spans[i], i),
        fks.len() == spans.filter(|g: Span| g.2 != TokenType::Whitespace).len(),
        forall|i: int|
            0 <= i < fks.len() ==> token_matches(
                s,
                #[trigger] fks[i],
                spans.filter(|g: Span| g.2 != TokenType::Whitespace)[i],
                i,
            ),
    ensures
        fks.map_values(|t: RawToken| token_view(t)) == toks.map_values(|t: RawToken| token_view(t)).filter(
            |v: (Seq<char>, TokenType, usize, usize)| not_space_view(v),
        ),
    decreases spans.len(),
{
    reveal_with_fuel(Seq::<Span>::filter, 1);
    reveal_with_fuel(Seq::<(Seq<char>, TokenType, usize, usize)>::filter, 1);
    let fs = spans.filter(|g: Span| g.2 != TokenType::Whitespace);
    let tv = toks.map_values(|t: RawToken| token_view(t));
    if spans.len() == 0 {
        assert(fks.map_values(|t: RawToken| token_view(t)) =~= tv.filter(
            |v: (Seq<char>, TokenType, usize, usize)| not_space_view(v),
        ));
    } else {
        let sp = spans.drop_last();
        let tp = toks.drop_last();
        let fp = sp.filter(|g: Span| g.2 != TokenType::Whitespace);
        let last = spans.last();
        assert(token_matches(s, toks[toks.len() - 1], last, toks.len() - 1));
        let fkp = if last.2 != TokenType::Whitespace {
            fks.drop_last()
        } else {
            fks
        };
        assert(fs == if last.2 != TokenType::Whitespace { fp.push(last) } else { fp });
        assert forall|i: int| 0 <= i < sp.len() implies token_matches(s, #[trigger] tp[i], sp[i], i) by {
            assert(tp[i] == toks[i] && sp[i] == spans[i]);
        }
        assert forall|i: int| 0 <= i < fkp.len() implies token_matches(s, #[trigger] fkp[i], fp[i], i) by {
            assert(fkp[i] == fks[i]);
            assert(fp[i] == fs[i]);
        }
        lemma_views_filter(s, sp, tp, fkp);
        assert(tv.drop_last() =~= tp.map_values(|t: RawToken| token_view(t)));
        assert(tv.last() == token_view(toks.last()));
        if last.2 != TokenType::Whitespace {
            let k = fks.len() - 1;
            assert(token_matches(s, fks[k], fs[k], k));
            assert(fs[k] == last);
            assert(fks.map_values(|t: RawToken| token_view(t)) =~= fkp.map_values(|t: RawToken| token_view(t)).push(
                token_view(fks[k]),
            ));
        }
    }
}

/// Dropping white space while lexing gives the tokens of lexing with white
/// space kept, white-space tokens removed and the rest numbered 0, 1, ...;
/// the text and the word count are the same.
pub proof fn lemma_skip_whitespace(
    keep: LexerConfig,
    skip: LexerConfig,
    s: Seq<char>,
    r1: PipelineResult<TokenStream>,
    r2: PipelineResult<TokenStream>,
)
    requires
        !keep.skip_whitespace,
        skip.skip_whitespace,
        keep.include_tashkeel_in_words == skip.include_tashkeel_in_words,
        lex_outcome(keep, s, r1),
        lex_outcome(skip, s, r2),
    ensures
        r1 is Ok <==> r2 is Ok,
        r1 matches Ok(a) ==> r2 matches Ok(b) && b.text@ == a.text@ && b.metadata.word_count
            == a.metadata.word_count && b.metadata.token_count == b.tokens@.len() && b.tokens@.map_values(
            |t: RawToken| token_view(t),
        ) == a.tokens@.map_values(|t: RawToken| token_view(t)).filter(
            |v: (Seq<char>, TokenType, usize, usize)| not_space_view(v),
        ) && forall|i: int| 0 <= i < b.tokens@.len() ==> (#[trigger] b.tokens@[i]).id == i,
{
    if s.len() > 0 {
        let a = r1->Ok_0;
        let b = r2->Ok_0;
        lemma_lex_from_cfg(keep, skip, s, Seq::empty(), 0);
        let spans = lexed_spans(keep, s);
        assert(kept_spans(skip, s) == spans.filter(|g: Span| g.2 != TokenType::Whitespace));
        lemma_views_filter(s, spans, a.tokens@, b.tokens@);
        assert forall|i: int| 0 <= i < b.tokens@.len() implies (#[trigger] b.tokens@[i]).id == i by {
            assert(token_matches(s, b.tokens@[i], kept_spans(skip, s)[i], i));
        }
        let fs = spans.filter(|g: Span| g.2 != TokenType::Whitespace);
        assert(fs.filter(|g: Span| g.2 == TokenType::Word) =~= spans.filter(|g: Span| g.2 == TokenType::Word)) by {
            lemma_filter_word_after_space(spans);
        }
    }
}

proof fn lemma_filter_word_after_space(spans: Seq<Span>)
    ensures
        spans.filter(|g: Span| g.2 != TokenType::Whitespace).filter(|g: Span| g.2 == TokenType::Word)
            == spans.filter(|g: Span| g.2 == TokenType::Word),
    decreases spans.len(),
{
    reveal_with_fuel(Seq::<Span>::filter, 1);
    if spans.len() > 0 {
        lemma_filter_word_after_space(spans.drop_last());
        let fp = spans.drop_last().filter(|g: Span| g.2 != TokenType::Whitespace);
        if spans.last().2 != TokenType::Whitespace {
            assert(spans.filter(|g: Span| g.2 != TokenType::Whitespace) == fp.push(spans.last()));
            assert(fp.push(spans.last()).drop_last() =~= fp);
        }
    }
}


/// A character that may stand in a word token: in one of the Arabic blocks
/// (U+0600–U+06FF, U+0750–U+077F, U+08A0–U+08FF), and neither an Arabic-Indic
/// digit (U+0660–U+0669, U+06F0–U+06F9) nor one of the Arabic comma,
/// semicolon, question mark and full stop (U+060C, U+061B, U+061F, U+06D4).
pub open spec fn arabic_word_char(c: char) -> bool {
    &&& ('\u{0600}' <= c <= '\u{06FF}') || ('\u{0750}' <= c <= '\u{077F}') || ('\u{08A0}' <= c
        <= '\u{08FF}')
    &&& !('\u{0660}' <= c <= '\u{0669}') && !('\u{06F0}' <= c <= '\u{06F9}')
    &&& c != '\u{060C}' && c != '\u{061B}' && c != '\u{061F}' && c != '\u{06D4}'
}

/// Whether a token of type `ty` may hold a character of class `cls`.
spec fn type_admits(ty: TokenType, cls: CharClass) -> bool {
    match ty {
        TokenType::Word => cls == CharClass::ArabicLetter || cls == CharClass::Tashkeel,
        TokenType::Number => cls == CharClass::ArabicDigit,
        TokenType::Whitespace => cls == CharClass::Whitespace,
        TokenType::Punctuation => cls == CharClass::Punctuation,
        TokenType::Symbol => cls == CharClass::Symbol,
        TokenType::Unknown => cls == CharClass::Tashkeel || cls == CharClass::Other,
    }
}

/// Every span of `spans` lies within `s` and holds only characters its type admits.
spec fn spans_typed(s: Seq<char>, spans: Seq<Span>) -> bool {
    forall|i: int|
        0 <= i < spans.len() ==> {
            &&& 0 <= (#[trigger] spans[i]).0 <= spans[i].1 <= s.len()
            &&& forall|p: int| spans[i].0 <= p < spans[i].1 ==> type_admits(spans[i].2, char_class(#[trigger] s[p]))
        }
}

proof fn lemma_word_end_typed(s: Seq<char>, j: int)
    requires
        0 <= j <= s.len(),
    ensures
        forall|p: int| j <= p < word_end(s, j) ==> type_admits(TokenType::Word, char_class(#[trigger] s[p])),
    decreases s.len() - j,
{
    if j < s.len() {
        lemma_word_end_typed(s, j + 1);
    }
}

proof fn lemma_group_end_typed(cfg: LexerConfig, s: Seq<char>, cls: CharClass, j: int)
    requires
        0 <= j <= s.len(),
    ensures
        forall|p: int| j <= p < group_end(cfg, s, cls, j) ==> continues(cfg, cls, char_class(#[trigger] s[p])),
    decreases s.len() - j,
{
    if j < s.len() {
        lemma_group_end_typed(cfg, s, cls, j + 1);
    }
}

proof fn lemma_step_typed(cfg: LexerConfig, s: Seq<char>, spans: Seq<Span>, k: int)
    requires
        0 <= k < s.len(),
        spans_tile(spans, k),
        spans_typed(s, spans),
    ensures
        spans_typed(s, lex_step(cfg, s, spans, k).0),
{
    lemma_scan_ends(cfg, s, k);
    lemma_run_ends(cfg, s, char_class(s[k]), k + 1);
    let step = lex_step(cfg, s, spans, k);
    let out = step.0;
    let cls = char_class(s[k]);
    if cls == CharClass::Tashkeel && !cfg.include_tashkeel_in_words {
        assert forall|i: int| 0 <= i < out.len() implies {
            &&& 0 <= (#[trigger] out[i]).0 <= out[i].1 <= s.len()
            &&& forall|p: int| out[i].0 <= p < out[i].1 ==> type_admits(out[i].2, char_class(#[trigger] s[p]))
        } by {
            if i < spans.len() {
                assert(out[i] == spans[i]);
            }
        }
    } else if cls == CharClass::Tashkeel {
        let prev_letter = k > 0 && char_class(s[k - 1]) == CharClass::ArabicLetter;
        let next_letter = k + 1 < s.len() && char_class(s[k + 1]) == CharClass::ArabicLetter;
        if prev_letter && spans.len() > 0 && spans.last().2 == TokenType::Word {
            let last: int = spans.len() - 1;
            assert(spans[last].1 == k);
            assert forall|i: int| 0 <= i < out.len() implies {
                &&& 0 <= (#[trigger] out[i]).0 <= out[i].1 <= s.len()
                &&& forall|p: int| out[i].0 <= p < out[i].1 ==> type_admits(out[i].2, char_class(#[trigger] s[p]))
            } by {
                if i < last {
                    assert(out[i] == spans[i]);
                } else {
                    assert(spans[last].2 == TokenType::Word);
                }
            }
        } else {
            lemma_word_end_typed(s, k + 1);
            assert forall|i: int| 0 <= i < out.len() implies {
                &&& 0 <= (#[trigger] out[i]).0 <= out[i].1 <= s.len()
                &&& forall|p: int| out[i].0 <= p < out[i].1 ==> type_admits(out[i].2, char_class(#[trigger] s[p]))
            } by {
                if i < spans.len() {
                    assert(out[i] == spans[i]);
                } else if !(prev_letter || next_letter) {
                    assert(out[i] == (k, k + 1, TokenType::Unknown));
                }
            }
        }
    } else {
        lemma_group_end_typed(cfg, s, cls, k + 1);
        assert forall|i: int| 0 <= i < out.len() implies {
            &&& 0 <= (#[trigger] out[i]).0 <= out[i].1 <= s.len()
            &&& forall|p: int| out[i].0 <= p < out[i].1 ==> type_admits(out[i].2, char_class(#[trigger] s[p]))
        } by {
            if i < spans.len() {
                assert(out[i] == spans[i]);
            } else {
                assert forall|p: int| out[i].0 <= p < out[i].1 implies type_admits(out[i].2, char_class(#[trigger] s[p])) by {
                    if p > k {
                        assert(continues(cfg, cls, char_class(s[p])));
                    }
                }
            }
        }
    }
}

proof fn lemma_lex_from_typed(cfg: LexerConfig, s: Seq<char>, spans: Seq<Span>, k: int)
    requires
        0 <= k <= s.len(),
        spans_tile(spans, k),
        spans_typed(s, spans),
    ensures
        spans_typed(s, lex_from(cfg, s, spans, k)),
    decreases s.len() - k,
{
    if k < s.len() {
        lemma_scan_ends(cfg, s, k);
        lemma_step_tiles(cfg, s, spans, k);
        lemma_step_typed(cfg, s, spans, k);
        let step = lex_step(cfg, s, spans, k);
        lemma_lex_from_typed(cfg, s, step.0, step.1);
    }
}

proof fn lemma_filter_typed(s: Seq<char>, spans: Seq<Span>)
    requires
        spans_typed(s, spans),
    ensures
        spans_typed(s, spans.filter(|g: Span| g.2 != TokenType::Whitespace)),
    decreases spans.len(),
{
    reveal_with_fuel(Seq::<Span>::filter, 1);
    if spans.len() > 0 {
        let sp = spans.drop_last();
        assert forall|i: int| 0 <= i < sp.len() implies {
            &&& 0 <= (#[trigger] sp[i]).0 <= sp[i].1 <= s.len()
            &&& forall|p: int| sp[i].0 <= p < sp[i].1 ==> type_admits(sp[i].2, char_class(#[trigger] s[p]))
        } by {
            assert(sp[i] == spans[i]);
        }
        lemma_filter_typed(s, sp);
        let fp = sp.filter(|g: Span| g.2 != TokenType::Whitespace);
        let fs = spans.filter(|g: Span| g.2 != TokenType::Whitespace);
        assert(fs == if spans.last().2 != TokenType::Whitespace { fp.push(spans.last()) } else { fp });
        assert forall|i: int| 0 <= i < fs.len() implies {
            &&& 0 <= (#[trigger] fs[i]).0 <= fs[i].1 <= s.len()
            &&& forall|p: int| fs[i].0 <= p < fs[i].1 ==> type_admits(fs[i].2, char_class(#[trigger] s[p]))
        } by {
            if i < fp.len() {
                assert(fs[i] == fp[i]);
            } else {
                assert(fs[i] == spans[spans.len() - 1]);
            }
        }
    }
}

/// Each character of each token is one that the token's type admits.
proof fn lemma_tokens_typed(cfg: LexerConfig, s: Seq<char>, ts: TokenStream)
    requires
        lex_outcome(cfg, s, Ok(ts)),
    ensures
        forall|i: int, p: int|
            0 <= i < ts.tokens@.len() && 0 <= p < ts.tokens@[i].text@.len() ==> type_admits(
                ts.tokens@[i].token_type,
                char_class(#[trigger] ts.tokens@[i].text@[p]),
            ),
{
    lemma_lexed_spans_tile(cfg, s);
    assert(spans_tile(Seq::<Span>::empty(), 0));
    lemma_lex_from_typed(cfg, s, Seq::empty(), 0);
    let spans = lexed_spans(cfg, s);
    let kept = kept_spans(cfg, s);
    if cfg.skip_whitespace {
        lemma_filter_typed(s, spans);
    }
    assert(spans_typed(s, kept));
    assert forall|i: int, p: int| 0 <= i < ts.tokens@.len() && 0 <= p < ts.tokens@[i].text@.len() implies type_admits(
        ts.tokens@[i].token_type,
        char_class(#[trigger] ts.tokens@[i].text@[p]),
    ) by {
        let t = ts.tokens@[i];
        assert(token_matches(s, t, kept[i], i));
        let g = kept[i];
        assert(t.text@[p] == s[g.0 + p]);
    }
}

/// Word tokens are Arabic script only: whatever the configuration and the
/// text, every character of a word token is an Arabic letter or diacritic,
/// never a digit or an Arabic punctuation mark (see `arabic_word_char`).
/// In particular the Arabic comma, semicolon, question mark and full stop
/// always end a word.
pub proof fn lemma_word_tokens_arabic_only(cfg: LexerConfig, s: Seq<char>, ts: TokenStream)
    requires
        lex_outcome(cfg, s, Ok(ts)),
    ensures
        forall|i: int, p: int|
            0 <= i < ts.tokens@.len() && ts.tokens@[i].token_type == TokenType::Word && 0 <= p
                < ts.tokens@[i].text@.len() ==> arabic_word_char(#[trigger] ts.tokens@[i].text@[p]),
{
    lemma_tokens_typed(cfg, s, ts);
}

/// The punctuation marks `. , ; : ! ?` and the Arabic comma, semicolon,
/// question mark and full stop (U+060C, U+061B, U+061F, U+06D4) only ever
/// stand in punctuation tokens, and a punctuation token holds nothing but
/// punctuation: no letter, digit, space or symbol.
pub proof fn lemma_punctuation_tokens(cfg: LexerConfig, s: Seq<char>, ts: TokenStream)
    requires
        lex_outcome(cfg, s, Ok(ts)),
    ensures
        forall|i: int, p: int|
            0 <= i < ts.tokens@.len() && 0 <= p < ts.tokens@[i].text@.len() && ({
                let c = #[trigger] ts.tokens@[i].text@[p];
                c == '.' || c == ',' || c == ';' || c == ':' || c == '!' || c == '?' || c == '\u{060C}'
                    || c == '\u{061B}' || c == '\u{061F}' || c == '\u{06D4}'
            }) ==> ts.tokens@[i].token_type == TokenType::Punctuation,
        forall|i: int, p: int|
            0 <= i < ts.tokens@.len() && ts.tokens@[i].token_type == TokenType::Punctuation && 0 <= p
                < ts.tokens@[i].text@.len() ==> {
                let c = #[trigger] ts.tokens@[i].text@[p];
                &&& !('\u{0621}' <= c <= '\u{064A}')
                &&& !('0' <= c <= '9') && !('a' <= c <= 'z') && !('A' <= c <= 'Z')
                &&& c != ' ' && c != '\t' && c != '\n' && c != '\r'
            },
{
    lemma_tokens_typed(cfg, s, ts);
}

} // verus!
