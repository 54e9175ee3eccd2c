//! MOD-03: segments each word token into proclitic, stem and enclitic.
//!
//! Every way of splitting a known proclitic off the front and a known
//! enclitic off the back is a candidate; non-word tokens pass through as a
//! single particle.

use vstd::prelude::*;

use crate::error::{codes, PipelineError, PipelineResult};
use crate::ir::{
    Morpheme, RawToken, Segmentation, SegmentedToken, SegmentedTokenStream,
    SegmentedTokenStreamMetadata, TokenStream,
};
use crate::morph_error::{is_morph_pipeline_error, MorphError};
use crate::pipeline::{PipelineContext, PipelineStage};
use crate::text::{
    append_str, byte_len, chars_eq, chars_of, chars_range, decimal, lemma_byte_len_concat, owned,
    push_decimal, string_from_chars, utf8_len,
};
use crate::types::{MorphemeType, TokenType};

verus! {

/// The known proclitics, longest first.
pub open spec fn proclitics() -> Seq<Seq<char>> {
    seq![
        "\u{0633}\u{064E}\u{0648}\u{0652}\u{0641}\u{064E}"@,  // sawfa: future
        "\u{0641}\u{064E}\u{0628}\u{0650}"@,  // fa + bi
        "\u{0641}\u{064E}\u{0644}\u{0650}"@,  // fa + li
        "\u{0648}\u{064E}\u{0628}\u{0650}"@,  // wa + bi
        "\u{0648}\u{064E}\u{0627}\u{0644}"@,  // wa + al
        "\u{0641}\u{064E}\u{0627}\u{0644}"@,  // fa + al
        "\u{0628}\u{0650}\u{0627}\u{0644}"@,  // bi + al
        "\u{0644}\u{0650}\u{0644}"@,  // li + al
        "\u{0633}\u{064E}"@,  // sa: future
        "\u{0641}\u{064E}"@,  // fa: "and so"
        "\u{0648}\u{064E}"@,  // wa: "and"
        "\u{0628}\u{0650}"@,  // bi: "with, by"
        "\u{0644}\u{0650}"@,  // li: "for, to"
        "\u{0643}\u{064E}"@,  // ka: "like"
        "\u{0627}\u{0644}"@,  // al: definite article
        "\u{0623}\u{064E}"@,  // a: interrogative
    ]
}

/// The known enclitics, longest first within each group.
pub open spec fn enclitics() -> Seq<Seq<char>> {
    seq![
        "\u{0643}\u{064F}\u{0645}\u{064E}\u{0627}"@,  // kuma
        "\u{0647}\u{064F}\u{0645}\u{064E}\u{0627}"@,  // huma
        "\u{0643}\u{064F}\u{0646}\u{064E}\u{0651}"@,  // kunna
        "\u{0647}\u{064F}\u{0646}\u{064E}\u{0651}"@,  // hunna
        "\u{0643}\u{064F}\u{0645}\u{0652}"@,  // kum
        "\u{0647}\u{064F}\u{0645}\u{0652}"@,  // hum
        "\u{0646}\u{064E}\u{0627}"@,  // na
        "\u{0646}\u{0650}\u{064A}"@,  // ni
        "\u{0643}\u{0650}"@,  // ki
        "\u{0643}\u{064E}"@,  // ka
        "\u{0647}\u{064E}\u{0627}"@,  // ha
        "\u{0647}\u{064F}"@,  // hu
        "\u{062A}\u{064F}\u{0645}\u{064E}\u{0627}"@,  // tuma
        "\u{062A}\u{064F}\u{0646}\u{064E}\u{0651}"@,  // tunna
        "\u{062A}\u{064F}\u{0645}\u{0652}"@,  // tum
        "\u{062A}\u{064E}\u{0627}"@,  // ta
        "\u{062A}\u{064F}"@,  // tu
        "\u{062A}\u{064E}"@,  // ta
        "\u{062A}\u{0650}"@,  // ti
        "\u{0648}\u{064E}\u{0627}"@,  // wa
        "\u{064A}\u{0646}\u{064E}"@,  // ina
        "\u{064A}\u{0646}\u{0650}"@,  // ini
        "\u{0627}\u{0646}\u{0650}"@,  // ani
        "\u{0627}\u{062A}\u{064E}"@,  // ata
        "\u{0627}\u{062A}\u{064F}"@,  // atu
        "\u{0627}\u{062A}\u{0650}"@,  // ati
        "\u{0648}\u{0646}\u{064E}"@,  // una
        "\u{0627}"@,  // alif
        "\u{064A}"@,  // ya
        "\u{0646}\u{064E}"@,  // na
    ]
}

/// The views of the entries of a table of character vectors.
pub open spec fn table_view(t: Seq<Vec<char>>) -> Seq<Seq<char>> {
    t.map_values(|v: Vec<char>| v@)
}

fn proclitic_table() -> (r: Vec<Vec<char>>)
    ensures
        table_view(r@) == proclitics(),
{
    let mut t: Vec<Vec<char>> = Vec::new();
    t.push(chars_of("\u{0633}\u{064E}\u{0648}\u{0652}\u{0641}\u{064E}"));
    t.push(chars_of("\u{0641}\u{064E}\u{0628}\u{0650}"));
    t.push(chars_of("\u{0641}\u{064E}\u{0644}\u{0650}"));
    t.push(chars_of("\u{0648}\u{064E}\u{0628}\u{0650}"));
    t.push(chars_of("\u{0648}\u{064E}\u{0627}\u{0644}"));
    t.push(chars_of("\u{0641}\u{064E}\u{0627}\u{0644}"));
    t.push(chars_of("\u{0628}\u{0650}\u{0627}\u{0644}"));
    t.push(chars_of("\u{0644}\u{0650}\u{0644}"));
    t.push(chars_of("\u{0633}\u{064E}"));
    t.push(chars_of("\u{0641}\u{064E}"));
    t.push(chars_of("\u{0648}\u{064E}"));
    t.push(chars_of("\u{0628}\u{0650}"));
    t.push(chars_of("\u{0644}\u{0650}"));
    t.push(chars_of("\u{0643}\u{064E}"));
    t.push(chars_of("\u{0627}\u{0644}"));
    t.push(chars_of("\u{0623}\u{064E}"));
    assert(table_view(t@) =~= proclitics());
    t
}

fn enclitic_table() -> (r: Vec<Vec<char>>)
    ensures
        table_view(r@) == enclitics(),
{
    let mut t: Vec<Vec<char>> = Vec::new();
    t.push(chars_of("\u{0643}\u{064F}\u{0645}\u{064E}\u{0627}"));
    t.push(chars_of("\u{0647}\u{064F}\u{0645}\u{064E}\u{0627}"));
    t.push(chars_of("\u{0643}\u{064F}\u{0646}\u{064E}\u{0651}"));
    t.push(chars_of("\u{0647}\u{064F}\u{0646}\u{064E}\u{0651}"));
    t.push(chars_of("\u{0643}\u{064F}\u{0645}\u{0652}"));
    t.push(chars_of("\u{0647}\u{064F}\u{0645}\u{0652}"));
    t.push(chars_of("\u{0646}\u{064E}\u{0627}"));
    t.push(chars_of("\u{0646}\u{0650}\u{064A}"));
    t.push(chars_of("\u{0643}\u{0650}"));
    t.push(chars_of("\u{0643}\u{064E}"));
    t.push(chars_of("\u{0647}\u{064E}\u{0627}"));
    t.push(chars_of("\u{0647}\u{064F}"));
    t.push(chars_of("\u{062A}\u{064F}\u{0645}\u{064E}\u{0627}"));
    t.push(chars_of("\u{062A}\u{064F}\u{0646}\u{064E}\u{0651}"));
    t.push(chars_of("\u{062A}\u{064F}\u{0645}\u{0652}"));
    t.push(chars_of("\u{062A}\u{064E}\u{0627}"));
    t.push(chars_of("\u{062A}\u{064F}"));
    t.push(chars_of("\u{062A}\u{064E}"));
    t.push(chars_of("\u{062A}\u{0650}"));
    t.push(chars_of("\u{0648}\u{064E}\u{0627}"));
    t.push(chars_of("\u{064A}\u{0646}\u{064E}"));
    t.push(chars_of("\u{064A}\u{0646}\u{0650}"));
    t.push(chars_of("\u{0627}\u{0646}\u{0650}"));
    t.push(chars_of("\u{0627}\u{062A}\u{064E}"));
    t.push(chars_of("\u{0627}\u{062A}\u{064F}"));
    t.push(chars_of("\u{0627}\u{062A}\u{0650}"));
    t.push(chars_of("\u{0648}\u{0646}\u{064E}"));
    t.push(chars_of("\u{0627}"));
    t.push(chars_of("\u{064A}"));
    t.push(chars_of("\u{0646}\u{064E}"));
    assert(table_view(t@) =~= enclitics());
    t
}

/// Ta marbuta, which belongs to the stem and is never a clitic on its own.
pub const TA_MARBUTA: char = '\u{0629}';

/// Confidence of a split with both a proclitic and an enclitic.
pub const HIGH_CONFIDENCE: u32 = 900_000;

/// Confidence of a split with one clitic.
pub const MEDIUM_CONFIDENCE: u32 = 700_000;

/// Confidence of the unsplit word.
pub const LOW_CONFIDENCE: u32 = 300_000;

/// Confidence of a non-word token's single particle.
pub const FULL_CONFIDENCE: u32 = 1_000_000;

/// Whether `s` is made of ta marbuta only.
pub open spec fn all_ta_marbuta(s: Seq<char>) -> bool {
    forall|i: int| 0 <= i < s.len() ==> s[i] == TA_MARBUTA
}

/// A stem left by removing an enclitic must be non-empty and more than ta marbuta.
pub open spec fn usable_stem(stem: Seq<char>) -> bool {
    stem.len() > 0 && !all_ta_marbuta(stem)
}

/// A split of a word: proclitic (possibly empty), stem, enclitic (possibly empty).
pub type Split = (Seq<char>, Seq<char>, Seq<char>);

/// `text` starts with the proclitic `p` and has more after it.
pub open spec fn proclitic_fits(text: Seq<char>, p: Seq<char>) -> bool {
    p.len() < text.len() && text.take(p.len() as int) == p
}

/// `rest` ends with the enclitic `e`, and what comes before it is a usable stem.
pub open spec fn enclitic_fits(rest: Seq<char>, e: Seq<char>) -> bool {
    e.len() <= rest.len() && rest.skip(rest.len() - e.len()) == e && usable_stem(
        rest.take(rest.len() - e.len()),
    )
}

/// The splits of `rest` behind the proclitic `p` by each enclitic of `es` that fits, in order.
pub open spec fn enclitic_splits(rest: Seq<char>, p: Seq<char>, es: Seq<Seq<char>>) -> Seq<Split>
    decreases es.len(),
{
    if es.len() == 0 {
        Seq::empty()
    } else {
        let e = es.last();
        let before = enclitic_splits(rest, p, es.drop_last());
        if enclitic_fits(rest, e) {
            before.push((p, rest.take(rest.len() - e.len()), e))
        } else {
            before
        }
    }
}

/// The splits with a proclitic of `ps` and an enclitic, proclitics in order.
pub open spec fn full_splits(text: Seq<char>, ps: Seq<Seq<char>>) -> Seq<Split>
    decreases ps.len(),
{
    if ps.len() == 0 {
        Seq::empty()
    } else {
        let p = ps.last();
        let before = full_splits(text, ps.drop_last());
        if proclitic_fits(text, p) {
            before + enclitic_splits(text.skip(p.len() as int), p, enclitics())
        } else {
            before
        }
    }
}

/// The splits with a proclitic of `ps` and no enclitic, in order.
pub open spec fn prefix_splits(text: Seq<char>, ps: Seq<Seq<char>>) -> Seq<Split>
    decreases ps.len(),
{
    if ps.len() == 0 {
        Seq::empty()
    } else {
        let p = ps.last();
        let before = prefix_splits(text, ps.drop_last());
        if proclitic_fits(text, p) {
            before.push((p, text.skip(p.len() as int), Seq::empty()))
        } else {
            before
        }
    }
}

/// Each split paired with the confidence `conf`.
pub open spec fn scored(splits: Seq<Split>, conf: u32) -> Seq<(Split, u32)> {
    splits.map_values(|sp: Split| (sp, conf))
}

/// All candidate splits of `text`, highest confidence first; within one
/// confidence in the order they are tried: proclitics in table order, and
/// for each the enclitics in table order; the unsplit word comes last.
pub open spec fn candidates(text: Seq<char>) -> Seq<(Split, u32)> {
    scored(full_splits(text, proclitics()), HIGH_CONFIDENCE) + scored(
        prefix_splits(text, proclitics()) + enclitic_splits(text, Seq::empty(), enclitics()),
        MEDIUM_CONFIDENCE,
    ) + scored(seq![(Seq::<char>::empty(), text, Seq::<char>::empty())], LOW_CONFIDENCE)
}

/// `s` with every element that repeats the split of the one before it removed.
pub open spec fn dedup_splits(s: Seq<(Split, u32)>) -> Seq<(Split, u32)>
    decreases s.len(),
{
    if s.len() == 0 {
        s
    } else {
        let d = dedup_splits(s.drop_last());
        if d.len() > 0 && d.last().0 == s.last().0 {
            d
        } else {
            d.push(s.last())
        }
    }
}

/// The splits, with their confidences, that the tokenizer offers for `text`.
pub open spec fn segmentation_plan(text: Seq<char>) -> Seq<(Split, u32)> {
    dedup_splits(candidates(text))
}

/// The label of a confidence in segmentation ids.
pub open spec fn confidence_label(conf: u32) -> Seq<char> {
    if conf == HIGH_CONFIDENCE {
        "0.9"@
    } else if conf == MEDIUM_CONFIDENCE {
        "0.7"@
    } else {
        "0.3"@
    }
}

/// `m` is the morpheme `text` of type `ty` at byte offset `offset`.
pub open spec fn morpheme_is(m: Morpheme, text: Seq<char>, ty: MorphemeType, offset: int) -> bool {
    &&& m.text@ == text
    &&& m.morpheme_type == ty
    &&& m.original_offset == offset
    &&& m.length == byte_len(text)
}

/// `sg` is the segmentation of split `sp` with confidence `conf` of token `token_id`:
/// the proclitic (if any), the stem and the enclitic (if any), with their byte offsets.
pub open spec fn segmentation_matches(sg: Segmentation, sp: Split, conf: u32, token_id: usize) -> bool {
    let (p, stem, e) = sp;
    let ms = sg.morphemes@;
    let np: int = if p.len() > 0 {
        1
    } else {
        0
    };
    let ne: int = if e.len() > 0 {
        1
    } else {
        0
    };
    &&& sg.id@ == "seg-"@ + decimal(token_id as nat) + "-"@ + confidence_label(conf)
    &&& sg.confidence == conf
    &&& sg.source@ == "default"@
    &&& ms.len() == np + 1 + ne
    &&& p.len() > 0 ==> morpheme_is(ms[0], p, MorphemeType::Prefix, 0)
    &&& morpheme_is(ms[np], stem, MorphemeType::Stem, byte_len(p) as int)
    &&& e.len() > 0 ==> morpheme_is(ms[np + 1], e, MorphemeType::Suffix, (byte_len(p) + byte_len(stem)) as int)
}

/// `st` is the segmented form of the word token `t`.
pub open spec fn word_token_matches(st: SegmentedToken, t: RawToken) -> bool {
    let plan = segmentation_plan(t.text@);
    &&& st.raw_token == t
    &&& st.segmentations@.len() == plan.len()
    &&& forall|j: int|
        0 <= j < plan.len() ==> segmentation_matches(
            #[trigger] st.segmentations@[j],
            plan[j].0,
            plan[j].1,
            t.id,
        )
}

/// `st` is the segmented form of the non-word token `t`: one particle, the whole text.
pub open spec fn particle_token_matches(st: SegmentedToken, t: RawToken) -> bool {
    let sg = st.segmentations@[0];
    &&& st.raw_token == t
    &&& st.segmentations@.len() == 1
    &&& sg.id@ == "seg-"@ + decimal(t.id as nat) + "-0"@
    &&& sg.confidence == FULL_CONFIDENCE
    &&& sg.source@ == "default"@
    &&& sg.morphemes@.len() == 1
    &&& morpheme_is(sg.morphemes@[0], t.text@, MorphemeType::Particle, 0)
}

/// `st` is the segmented form of `t`.
pub open spec fn segmented_matches(st: SegmentedToken, t: RawToken) -> bool {
    if t.token_type == TokenType::Word {
        word_token_matches(st, t)
    } else {
        particle_token_matches(st, t)
    }
}

/// The word token `t` has more splits than `max` allows.
pub open spec fn too_many_splits(max: usize, t: RawToken) -> bool {
    t.token_type == TokenType::Word && segmentation_plan(t.text@).len() > max
}

/// The number of elements of `toks` that are word tokens.
pub open spec fn word_token_count(toks: Seq<RawToken>) -> nat {
    toks.filter(|t: RawToken| t.token_type == TokenType::Word).len()
}

/// The number of splits offered for each token, summed.
pub open spec fn total_splits(toks: Seq<RawToken>) -> nat
    decreases toks.len(),
{
    if toks.len() == 0 {
        0
    } else {
        total_splits(toks.drop_last()) + if toks.last().token_type == TokenType::Word {
            segmentation_plan(toks.last().text@).len()
        } else {
            1
        }
    }
}

/// The number of tokens with more than one split.
pub open spec fn ambiguous_count(toks: Seq<RawToken>) -> nat {
    toks.filter(
        |t: RawToken| t.token_type == TokenType::Word && segmentation_plan(t.text@).len() > 1,
    ).len()
}

/// Splits per word token in millionths (rounded down, capped at `u64::MAX`),
/// or 0 without word tokens.
pub open spec fn ambiguity_millionths(total: nat, words: nat) -> u64 {
    if words == 0 {
        0
    } else if total * 1_000_000 / words > u64::MAX {
        u64::MAX
    } else {
        (total * 1_000_000 / words) as u64
    }
}

/// The IR-3 stream produced for `toks` when no word token has too many splits.
pub open spec fn segmented_output(toks: Seq<RawToken>, out: SegmentedTokenStream) -> bool {
    &&& out.spec@ == "SPEC-0001"@
    &&& out.version@ == "1.0"@
    &&& out.tokens@.len() == toks.len()
    &&& forall|i: int| 0 <= i < toks.len() ==> segmented_matches(#[trigger] out.tokens@[i], toks[i])
    &&& out.metadata.total_tokens == toks.len()
    &&& out.metadata.segmentable_tokens == word_token_count(toks)
    &&& out.metadata.ambiguous_tokens == ambiguous_count(toks)
    &&& out.metadata.total_ambiguity == ambiguity_millionths(total_splits(toks), word_token_count(toks))
}

/// The outcome of segmenting `toks`: the first word token with more splits
/// than `max` is refused, otherwise every token is segmented.
pub open spec fn segmentation_outcome(
    max: usize,
    toks: Seq<RawToken>,
    r: PipelineResult<SegmentedTokenStream>,
) -> bool {
    if exists|i: int| 0 <= i < toks.len() && too_many_splits(max, #[trigger] toks[i]) {
        let i = choose|i: int|
            0 <= i < toks.len() && too_many_splits(max, #[trigger] toks[i]) && forall|j: int|
                0 <= j < i ==> !too_many_splits(max, #[trigger] toks[j]);
        r matches Err(e) && is_morph_pipeline_error(
            MorphError::MaxSegmentationsExceeded {
                token_id: toks[i].id,
                limit: max,
                actual: segmentation_plan(toks[i].text@).len() as usize,
            },
            "MOD-03"@,
            e,
        )
    } else {
        r matches Ok(out) && segmented_output(toks, out)
    }
}

/// No clitic in the tables is empty.
pub proof fn lemma_clitics_nonempty()
    ensures
        forall|k: int| 0 <= k < proclitics().len() ==> #[trigger] proclitics()[k].len() > 0,
        forall|k: int| 0 <= k < enclitics().len() ==> #[trigger] enclitics()[k].len() > 0,
{
    reveal_strlit("\u{0633}\u{064E}\u{0648}\u{0652}\u{0641}\u{064E}");
    reveal_strlit("\u{0641}\u{064E}\u{0628}\u{0650}");
    reveal_strlit("\u{0641}\u{064E}\u{0644}\u{0650}");
    reveal_strlit("\u{0648}\u{064E}\u{0628}\u{0650}");
    reveal_strlit("\u{0648}\u{064E}\u{0627}\u{0644}");
    reveal_strlit("\u{0641}\u{064E}\u{0627}\u{0644}");
    reveal_strlit("\u{0628}\u{0650}\u{0627}\u{0644}");
    reveal_strlit("\u{0644}\u{0650}\u{0644}");
    reveal_strlit("\u{0633}\u{064E}");
    reveal_strlit("\u{0641}\u{064E}");
    reveal_strlit("\u{0648}\u{064E}");
    reveal_strlit("\u{0628}\u{0650}");
    reveal_strlit("\u{0644}\u{0650}");
    reveal_strlit("\u{0643}\u{064E}");
    reveal_strlit("\u{0627}\u{0644}");
    reveal_strlit("\u{0623}\u{064E}");
    reveal_strlit("\u{0643}\u{064F}\u{0645}\u{064E}\u{0627}");
    reveal_strlit("\u{0647}\u{064F}\u{0645}\u{064E}\u{0627}");
    reveal_strlit("\u{0643}\u{064F}\u{0646}\u{064E}\u{0651}");
    reveal_strlit("\u{0647}\u{064F}\u{0646}\u{064E}\u{0651}");
    reveal_strlit("\u{0643}\u{064F}\u{0645}\u{0652}");
    reveal_strlit("\u{0647}\u{064F}\u{0645}\u{0652}");
    reveal_strlit("\u{0646}\u{064E}\u{0627}");
    reveal_strlit("\u{0646}\u{0650}\u{064A}");
    reveal_strlit("\u{0643}\u{0650}");
    reveal_strlit("\u{0643}\u{064E}");
    reveal_strlit("\u{0647}\u{064E}\u{0627}");
    reveal_strlit("\u{0647}\u{064F}");
    reveal_strlit("\u{062A}\u{064F}\u{0645}\u{064E}\u{0627}");
    reveal_strlit("\u{062A}\u{064F}\u{0646}\u{064E}\u{0651}");
    reveal_strlit("\u{062A}\u{064F}\u{0645}\u{0652}");
    reveal_strlit("\u{062A}\u{064E}\u{0627}");
    reveal_strlit("\u{062A}\u{064F}");
    reveal_strlit("\u{062A}\u{064E}");
    reveal_strlit("\u{062A}\u{0650}");
    reveal_strlit("\u{0648}\u{064E}\u{0627}");
    reveal_strlit("\u{064A}\u{0646}\u{064E}");
    reveal_strlit("\u{064A}\u{0646}\u{0650}");
    reveal_strlit("\u{0627}\u{0646}\u{0650}");
    reveal_strlit("\u{0627}\u{062A}\u{064E}");
    reveal_strlit("\u{0627}\u{062A}\u{064F}");
    reveal_strlit("\u{0627}\u{062A}\u{0650}");
    reveal_strlit("\u{0648}\u{0646}\u{064E}");
    reveal_strlit("\u{0627}");
    reveal_strlit("\u{064A}");
    reveal_strlit("\u{0646}\u{064E}");
}

/// The splits behind a proclitic keep it, split the rest, and have a non-empty enclitic.
proof fn lemma_enclitic_splits_parts(rest: Seq<char>, p: Seq<char>, es: Seq<Seq<char>>)
    requires
        forall|k: int| 0 <= k < es.len() ==> #[trigger] es[k].len() > 0,
    ensures
        forall|j: int|
            0 <= j < enclitic_splits(rest, p, es).len() ==> {
                let x = #[trigger] enclitic_splits(rest, p, es)[j];
                &&& x.0 == p
                &&& x.1 + x.2 == rest
                &&& x.2.len() > 0
            },
    decreases es.len(),
{
    if es.len() > 0 {
        let e = es.last();
        assert(es[es.len() - 1].len() > 0);
        lemma_enclitic_splits_parts(rest, p, es.drop_last());
        let before = enclitic_splits(rest, p, es.drop_last());
        if enclitic_fits(rest, e) {
            let x = (p, rest.take(rest.len() - e.len()), e);
            assert(rest.take(rest.len() - e.len()) + e == rest);
            assert forall|j: int| 0 <= j < before.push(x).len() implies {
                let y = #[trigger] before.push(x)[j];
                &&& y.0 == p
                &&& y.1 + y.2 == rest
                &&& y.2.len() > 0
            } by {
                if j < before.len() {
                    assert(before.push(x)[j] == before[j]);
                }
            }
        }
    }
}

/// The two-clitic splits reassemble `text` and have a non-empty proclitic.
proof fn lemma_full_splits_parts(text: Seq<char>, ps: Seq<Seq<char>>)
    requires
        forall|k: int| 0 <= k < ps.len() ==> #[trigger] ps[k].len() > 0,
    ensures
        forall|j: int|
            0 <= j < full_splits(text, ps).len() ==> {
                let x = #[trigger] full_splits(text, ps)[j];
                &&& x.0 + x.1 + x.2 == text
                &&& x.0.len() > 0
                &&& x.2.len() > 0
            },
    decreases ps.len(),
{
    if ps.len() > 0 {
        let p = ps.last();
        assert(ps[ps.len() - 1].len() > 0);
        lemma_full_splits_parts(text, ps.drop_last());
        if proclitic_fits(text, p) {
            lemma_clitics_nonempty();
            let rest = text.skip(p.len() as int);
            let tail = enclitic_splits(rest, p, enclitics());
            lemma_enclitic_splits_parts(rest, p, enclitics());
            let before = full_splits(text, ps.drop_last());
            assert forall|j: int| 0 <= j < (before + tail).len() implies {
                let x = #[trigger] (before + tail)[j];
                &&& x.0 + x.1 + x.2 == text
                &&& x.0.len() > 0
                &&& x.2.len() > 0
            } by {
                if j < before.len() {
                    assert((before + tail)[j] == before[j]);
                } else {
                    assert((before + tail)[j] == tail[j - before.len()]);
                    let x = tail[j - before.len()];
                    assert(x.0 + x.1 + x.2 == x.0 + (x.1 + x.2));
                    assert(p + rest == text);
                }
            }
            assert(full_splits(text, ps) == before + tail);
        } else {
            assert(full_splits(text, ps) == full_splits(text, ps.drop_last()));
        }
    }
}

/// The proclitic-only splits reassemble `text` and have a non-empty proclitic.
proof fn lemma_prefix_splits_parts(text: Seq<char>, ps: Seq<Seq<char>>)
    requires
        forall|k: int| 0 <= k < ps.len() ==> #[trigger] ps[k].len() > 0,
    ensures
        forall|j: int|
            0 <= j < prefix_splits(text, ps).len() ==> {
                let x = #[trigger] prefix_splits(text, ps)[j];
                &&& x.0 + x.1 + x.2 == text
                &&& x.0.len() > 0
            },
    decreases ps.len(),
{
    if ps.len() > 0 {
        let p = ps.last();
        assert(ps[ps.len() - 1].len() > 0);
        lemma_prefix_splits_parts(text, ps.drop_last());
        let before = prefix_splits(text, ps.drop_last());
        if proclitic_fits(text, p) {
            let x = (p, text.skip(p.len() as int), Seq::<char>::empty());
            assert(p + text.skip(p.len() as int) + Seq::<char>::empty() == text);
            assert forall|j: int| 0 <= j < before.push(x).len() implies {
                let y = #[trigger] before.push(x)[j];
                &&& y.0 + y.1 + y.2 == text
                &&& y.0.len() > 0
            } by {
                if j < before.len() {
                    assert(before.push(x)[j] == before[j]);
                }
            }
        }
    }
}

/// Every candidate reassembles `text`; all but the last have a clitic; the
/// last is the unsplit word; confidences never increase.
proof fn lemma_candidates_shape(text: Seq<char>)
    ensures
        candidates(text).len() >= 1,
        candidates(text).last() == ((Seq::<char>::empty(), text, Seq::<char>::empty()), LOW_CONFIDENCE),
        forall|j: int|
            0 <= j < candidates(text).len() ==> {
                let x = #[trigger] candidates(text)[j];
                x.0.0 + x.0.1 + x.0.2 == text
            },
        forall|j: int|
            0 <= j < candidates(text).len() - 1 ==> {
                let x = #[trigger] candidates(text)[j];
                x.0.0.len() > 0 || x.0.2.len() > 0
            },
        forall|i: int, j: int|
            0 <= i <= j < candidates(text).len() ==> #[trigger] candidates(text)[i].1
                >= #[trigger] candidates(text)[j].1,
{
    lemma_clitics_nonempty();
    lemma_full_splits_parts(text, proclitics());
    lemma_prefix_splits_parts(text, proclitics());
    lemma_enclitic_splits_parts(text, Seq::empty(), enclitics());
    let h = full_splits(text, proclitics());
    let pm = prefix_splits(text, proclitics());
    let em = enclitic_splits(text, Seq::empty(), enclitics());
    let m = pm + em;
    let low = seq![(Seq::<char>::empty(), text, Seq::<char>::empty())];
    let c = candidates(text);
    assert(c == scored(h, HIGH_CONFIDENCE) + scored(m, MEDIUM_CONFIDENCE) + scored(low, LOW_CONFIDENCE));
    assert forall|j: int| 0 <= j < c.len() implies {
        let x = #[trigger] c[j];
        &&& x.0.0 + x.0.1 + x.0.2 == text
        &&& (j < c.len() - 1 ==> x.0.0.len() > 0 || x.0.2.len() > 0)
        &&& x.1 == if j < h.len() {
            HIGH_CONFIDENCE
        } else if j < h.len() + m.len() {
            MEDIUM_CONFIDENCE
        } else {
            LOW_CONFIDENCE
        }
    } by {
        if j < h.len() {
            assert(c[j] == (h[j], HIGH_CONFIDENCE));
        } else if j < h.len() + m.len() {
            let k = j - h.len();
            assert(c[j] == (m[k], MEDIUM_CONFIDENCE));
            if k < pm.len() {
                assert(m[k] == pm[k]);
            } else {
                assert(m[k] == em[k - pm.len()]);
                let x = em[k - pm.len()];
                assert(x.0 + x.1 + x.2 == x.1 + x.2);
            }
        } else {
            assert(c[j] == (low[0], LOW_CONFIDENCE));
            assert(Seq::<char>::empty() + text + Seq::<char>::empty() == text);
        }
    }
}

/// What `dedup_splits` keeps comes from its input, in order; no kept split
/// repeats the one before it; and the last element is kept unless its split
/// repeats the one before.
proof fn lemma_dedup_splits(s: Seq<(Split, u32)>)
    ensures
        dedup_splits(s).len() <= s.len(),
        s.len() > 0 ==> dedup_splits(s).len() > 0,
        forall|i: int|
            0 <= i < dedup_splits(s).len() ==> exists|k: int|
                0 <= k < s.len() && s[k] == #[trigger] dedup_splits(s)[i] && (i == dedup_splits(
                    s,
                ).len() - 1 ==> k == s.len() - 1 || s[k].0 == s.last().0),
        forall|i: int|
            0 <= i < dedup_splits(s).len() - 1 ==> #[trigger] dedup_splits(s)[i].0 != dedup_splits(
                s,
            )[i + 1].0,
    decreases s.len(),
{
    if s.len() > 0 {
        let t = s.drop_last();
        lemma_dedup_splits(t);
        let d = dedup_splits(t);
        let r = dedup_splits(s);
        assert forall|i: int| 0 <= i < r.len() implies exists|k: int|
            0 <= k < s.len() && s[k] == #[trigger] r[i] && (i == r.len() - 1 ==> k == s.len() - 1
                || s[k].0 == s.last().0) by {
            if i < d.len() {
                let k = choose|k: int|
                    0 <= k < t.len() && t[k] == #[trigger] d[i] && (i == d.len() - 1 ==> k == t.len()
                        - 1 || t[k].0 == t.last().0);
                assert(s[k] == t[k]);
                if i == r.len() - 1 {
                    assert(d.len() > 0 && d.last().0 == s.last().0);
                }
            } else {
                assert(r[i] == s.last());
            }
        }
    }
}

/// The shape of what the tokenizer offers for a word: at least one split;
/// every split reassembles the word (proclitic, stem and enclitic
/// concatenated give the text); the unsplit word comes last, with the lowest
/// confidence; confidences never increase along the list; and no split
/// repeats the one before it.
pub proof fn lemma_segmentation_plan_shape(text: Seq<char>)
    ensures
        segmentation_plan(text).len() >= 1,
        segmentation_plan(text).last() == ((Seq::<char>::empty(), text, Seq::<char>::empty()), LOW_CONFIDENCE),
        forall|j: int|
            0 <= j < segmentation_plan(text).len() ==> {
                let x = #[trigger] segmentation_plan(text)[j];
                x.0.0 + x.0.1 + x.0.2 == text
            },
        forall|i: int, j: int|
            0 <= i <= j < segmentation_plan(text).len() ==> #[trigger] segmentation_plan(text)[i].1
                >= #[trigger] segmentation_plan(text)[j].1,
        forall|i: int|
            0 <= i < segmentation_plan(text).len() - 1 ==> #[trigger] segmentation_plan(text)[i].0
                != segmentation_plan(text)[i + 1].0,
{
    let c = candidates(text);
    lemma_candidates_shape(text);
    lemma_dedup_splits(c);
    let d = segmentation_plan(text);
    assert forall|j: int| 0 <= j < d.len() implies {
        let x = #[trigger] d[j];
        x.0.0 + x.0.1 + x.0.2 == text
    } by {
        let k = choose|k: int| 0 <= k < c.len() && c[k] == #[trigger] d[j] && (j == d.len() - 1 ==> k
            == c.len() - 1 || c[k].0 == c.last().0);
        assert(c[k].0.0 + c[k].0.1 + c[k].0.2 == text);
    }
    let kl = choose|k: int| 0 <= k < c.len() && c[k] == #[trigger] d[d.len() - 1] && (d.len() - 1
        == d.len() - 1 ==> k == c.len() - 1 || c[k].0 == c.last().0);
    if kl != c.len() - 1 {
        assert(c[kl].0.0.len() > 0 || c[kl].0.2.len() > 0);
    }
    assert forall|i: int, j: int| 0 <= i <= j < d.len() implies #[trigger] d[i].1 >= #[trigger] d[j].1 by {
        lemma_dedup_order(c, i, j);
    }
}

/// `dedup_splits` keeps the order of its input.
proof fn lemma_dedup_order(s: Seq<(Split, u32)>, i: int, j: int)
    requires
        0 <= i <= j < dedup_splits(s).len(),
        forall|a: int, b: int| 0 <= a <= b < s.len() ==> #[trigger] s[a].1 >= #[trigger] s[b].1,
    ensures
        dedup_splits(s)[i].1 >= dedup_splits(s)[j].1,
    decreases s.len(),
{
    let t = s.drop_last();
    let d = dedup_splits(t);
    lemma_dedup_splits(t);
    if j < d.len() {
        assert(dedup_splits(s)[i] == d[i] && dedup_splits(s)[j] == d[j]);
        lemma_dedup_order(t, i, j);
    } else if i < j {
        assert(dedup_splits(s)[j] == s.last());
        assert(dedup_splits(s)[i] == d[i]);
        let k = choose|k: int| 0 <= k < t.len() && t[k] == #[trigger] d[i] && (i == d.len() - 1 ==> k
            == t.len() - 1 || t[k].0 == t.last().0);
        assert(s[k] == t[k]);
        assert(s[k].1 >= s[s.len() - 1].1);
    }
}

/// At most 527 splits are offered for any word: 16 proclitics times 30
/// enclitics, 16 + 30 single-clitic splits, and the unsplit word.
pub proof fn lemma_plan_len_bound(text: Seq<char>)
    ensures
        segmentation_plan(text).len() <= 527,
{
    lemma_dedup_splits(candidates(text));
    lemma_full_splits_len(text, proclitics());
    lemma_prefix_splits_len(text, proclitics());
    lemma_enclitic_splits_len(text, Seq::empty(), enclitics());
}

proof fn lemma_enclitic_splits_len(rest: Seq<char>, p: Seq<char>, es: Seq<Seq<char>>)
    ensures
        enclitic_splits(rest, p, es).len() <= es.len(),
    decreases es.len(),
{
    if es.len() > 0 {
        lemma_enclitic_splits_len(rest, p, es.drop_last());
    }
}

proof fn lemma_full_splits_len(text: Seq<char>, ps: Seq<Seq<char>>)
    ensures
        full_splits(text, ps).len() <= ps.len() * 30,
    decreases ps.len(),
{
    if ps.len() > 0 {
        lemma_full_splits_len(text, ps.drop_last());
        lemma_enclitic_splits_len(text.skip(ps.last().len() as int), ps.last(), enclitics());
        assert(ps.len() * 30 == ps.drop_last().len() * 30 + 30) by (nonlinear_arith)
            requires
                ps.drop_last().len() + 1 == ps.len(),
        ;
    }
}

proof fn lemma_prefix_splits_len(text: Seq<char>, ps: Seq<Seq<char>>)
    ensures
        prefix_splits(text, ps).len() <= ps.len(),
    decreases ps.len(),
{
    if ps.len() > 0 {
        lemma_prefix_splits_len(text, ps.drop_last());
    }
}

/// A split held as characters.
struct SplitChars {
    prefix: Vec<char>,
    stem: Vec<char>,
    suffix: Vec<char>,
}

spec fn split_view(x: SplitChars) -> Split {
    (x.prefix@, x.stem@, x.suffix@)
}

spec fn scored_view(v: Seq<(SplitChars, u32)>) -> Seq<(Split, u32)> {
    v.map_values(|x: (SplitChars, u32)| (split_view(x.0), x.1))
}

proof fn lemma_scored_view_push(v: Seq<(SplitChars, u32)>, x: (SplitChars, u32))
    ensures
        scored_view(v.push(x)) == scored_view(v).push((split_view(x.0), x.1)),
{
    assert(scored_view(v.push(x)) =~= scored_view(v).push((split_view(x.0), x.1)));
}

proof fn lemma_scored_concat(a: Seq<Split>, b: Seq<Split>, conf: u32)
    ensures
        scored(a + b, conf) == scored(a, conf) + scored(b, conf),
{
    assert(scored(a + b, conf) =~= scored(a, conf) + scored(b, conf));
}

/// Whether `v` starts with `p`.
fn has_prefix(v: &Vec<char>, p: &Vec<char>) -> (r: bool)
    ensures
        r == (p@.len() <= v@.len() && v@.take(p@.len() as int) == p@),
{
    if p.len() > v.len() {
        return false;
    }
    let mut i: usize = 0;
    while i < p.len()
        invariant
            p@.len() <= v@.len(),
            0 <= i <= p@.len(),
            forall|j: int| 0 <= j < i ==> v@[j] == p@[j],
        decreases p@.len() - i,
    {
        if v[i] != p[i] {
            assert(v@.take(p@.len() as int)[i as int] != p@[i as int]);
            return false;
        }
        i = i + 1;
    }
    assert(v@.take(p@.len() as int) =~= p@);
    true
}

/// Whether `v` ends with `e`.
fn has_suffix(v: &Vec<char>, e: &Vec<char>) -> (r: bool)
    ensures
        r == (e@.len() <= v@.len() && v@.skip(v@.len() - e@.len()) == e@),
{
    if e.len() > v.len() {
        return false;
    }
    let n = v.len();
    let cut = n - e.len();
    let mut i: usize = 0;
    while i < e.len()
        invariant
            n == v@.len(),
            e@.len() <= v@.len(),
            cut == v@.len() - e@.len(),
            0 <= i <= e@.len(),
            forall|j: int| 0 <= j < i ==> v@[cut + j] == e@[j],
        decreases e@.len() - i,
    {
        if v[cut + i] != e[i] {
            assert(v@.skip(cut as int)[i as int] != e@[i as int]);
            return false;
        }
        i = i + 1;
    }
    assert(v@.skip(cut as int) =~= e@);
    true
}

/// Whether the first `n` characters of `v` are all ta marbuta.
fn ta_marbuta_only(v: &Vec<char>, n: usize) -> (r: bool)
    requires
        n <= v@.len(),
    ensures
        r == all_ta_marbuta(v@.take(n as int)),
{
    let mut i: usize = 0;
    while i < n
        invariant
            n <= v@.len(),
            0 <= i <= n,
            forall|j: int| 0 <= j < i ==> v@[j] == TA_MARBUTA,
        decreases n - i,
    {
        if v[i] != TA_MARBUTA {
            assert(v@.take(n as int)[i as int] != TA_MARBUTA);
            return false;
        }
        i = i + 1;
    }
    assert forall|j: int| 0 <= j < v@.take(n as int).len() implies v@.take(n as int)[j] == TA_MARBUTA by {
        assert(v@.take(n as int)[j] == v@[j]);
    }
    true
}

fn copy_chars(v: &Vec<char>) -> (r: Vec<char>)
    ensures
        r@ == v@,
{
    let r = chars_range(v, 0, v.len());
    assert(v@.subrange(0, v@.len() as int) == v@);
    r
}

/// Appends the splits of `rest` behind the proclitic `p` by each enclitic of
/// `enc` that fits, with confidence `conf`.
fn push_enclitic_splits(
    rest: &Vec<char>,
    p: &Vec<char>,
    enc: &Vec<Vec<char>>,
    conf: u32,
    out: &mut Vec<(SplitChars, u32)>,
)
    ensures
        scored_view(final(out)@) == scored_view(old(out)@) + scored(
            enclitic_splits(rest@, p@, table_view(enc@)),
            conf,
        ),
{
    let ghost start = scored_view(out@);
    let ghost es = table_view(enc@);
    let mut j: usize = 0;
    assert(es.take(0) =~= Seq::<Seq<char>>::empty());
    assert(scored(Seq::<Split>::empty(), conf) =~= Seq::<(Split, u32)>::empty());
    while j < enc.len()
        invariant
            es == table_view(enc@),
            0 <= j <= enc@.len(),
            scored_view(out@) == start + scored(enclitic_splits(rest@, p@, es.take(j as int)), conf),
        decreases enc@.len() - j,
    {
        let e = &enc[j];
        let ghost before = enclitic_splits(rest@, p@, es.take(j as int));
        proof {
            assert(es.take(j + 1).drop_last() =~= es.take(j as int));
            assert(es.take(j + 1).last() == e@);
        }
        if has_suffix(rest, e) {
            let cut = rest.len() - e.len();
            if cut > 0 && !ta_marbuta_only(rest, cut) {
                let x = (
                    SplitChars { prefix: copy_chars(p), stem: chars_range(rest, 0, cut), suffix: copy_chars(e) },
                    conf,
                );
                proof {
                    lemma_scored_view_push(out@, x);
                    assert(rest@.subrange(0, cut as int) == rest@.take(cut as int));
                    assert(scored(before.push((p@, rest@.take(cut as int), e@)), conf) =~= scored(
                        before,
                        conf,
                    ).push(((p@, rest@.take(cut as int), e@), conf)));
                }
                out.push(x);
            }
        }
        j = j + 1;
    }
    assert(es.take(enc@.len() as int) =~= es);
}

/// The candidate splits of `text`, as `candidates` orders them.
fn word_candidates(text: &Vec<char>) -> (r: Vec<(SplitChars, u32)>)
    ensures
        scored_view(r@) == candidates(text@),
{
    let pro = proclitic_table();
    let enc = enclitic_table();
    let ghost ps = table_view(pro@);
    let mut high: Vec<(SplitChars, u32)> = Vec::new();
    let mut mid: Vec<(SplitChars, u32)> = Vec::new();
    assert(ps.take(0) =~= Seq::<Seq<char>>::empty());
    assert(scored(Seq::<Split>::empty(), HIGH_CONFIDENCE) =~= Seq::<(Split, u32)>::empty());
    assert(scored(Seq::<Split>::empty(), MEDIUM_CONFIDENCE) =~= Seq::<(Split, u32)>::empty());
    assert(scored_view(high@) =~= Seq::<(Split, u32)>::empty());
    let mut i: usize = 0;
    while i < pro.len()
        invariant
            ps == table_view(pro@),
            table_view(enc@) == enclitics(),
            0 <= i <= pro@.len(),
            scored_view(high@) == scored(full_splits(text@, ps.take(i as int)), HIGH_CONFIDENCE),
            scored_view(mid@) == scored(prefix_splits(text@, ps.take(i as int)), MEDIUM_CONFIDENCE),
        decreases pro@.len() - i,
    {
        let p = &pro[i];
        proof {
            assert(ps.take(i + 1).drop_last() =~= ps.take(i as int));
            assert(ps.take(i + 1).last() == p@);
        }
        if p.len() < text.len() && has_prefix(text, p) {
            let rest = chars_range(text, p.len(), text.len());
            assert(rest@ == text@.skip(p@.len() as int));
            let ghost hb = full_splits(text@, ps.take(i as int));
            push_enclitic_splits(&rest, p, &enc, HIGH_CONFIDENCE, &mut high);
            proof {
                lemma_scored_concat(hb, enclitic_splits(rest@, p@, enclitics()), HIGH_CONFIDENCE);
            }
            let x = (
                SplitChars { prefix: copy_chars(p), stem: rest, suffix: Vec::new() },
                MEDIUM_CONFIDENCE,
            );
            proof {
                lemma_scored_view_push(mid@, x);
                let mb = prefix_splits(text@, ps.take(i as int));
                assert(scored(mb.push((p@, text@.skip(p@.len() as int), Seq::<char>::empty())), MEDIUM_CONFIDENCE) =~= scored(
                    mb,
                    MEDIUM_CONFIDENCE,
                ).push(((p@, text@.skip(p@.len() as int), Seq::<char>::empty()), MEDIUM_CONFIDENCE)));
            }
            mid.push(x);
        }
        i = i + 1;
    }
    assert(ps.take(pro@.len() as int) =~= ps);
    let none: Vec<char> = Vec::new();
    let ghost mb = prefix_splits(text@, proclitics());
    push_enclitic_splits(text, &none, &enc, MEDIUM_CONFIDENCE, &mut mid);
    proof {
        assert(none@ =~= Seq::<char>::empty());
        lemma_scored_concat(mb, enclitic_splits(text@, Seq::empty(), enclitics()), MEDIUM_CONFIDENCE);
    }
    let ghost hv = scored_view(high@);
    let ghost mv = scored_view(mid@);
    high.append(&mut mid);
    assert(scored_view(high@) =~= hv + mv);
    let whole = (
        SplitChars { prefix: Vec::new(), stem: copy_chars(text), suffix: Vec::new() },
        LOW_CONFIDENCE,
    );
    proof {
        lemma_scored_view_push(high@, whole);
        assert(scored(seq![(Seq::<char>::empty(), text@, Seq::<char>::empty())], LOW_CONFIDENCE) =~= seq![
            ((Seq::<char>::empty(), text@, Seq::<char>::empty()), LOW_CONFIDENCE),
        ]);
    }
    high.push(whole);
    high
}

/// Whether two splits hold the same proclitic, stem and enclitic.
fn same_split(a: &SplitChars, b: &SplitChars) -> (r: bool)
    ensures
        r == (split_view(*a) == split_view(*b)),
{
    chars_eq(&a.prefix, &b.prefix) && chars_eq(&a.stem, &b.stem) && chars_eq(&a.suffix, &b.suffix)
}

/// `v` with every split that repeats the one before it removed.
fn dedup_candidates(v: Vec<(SplitChars, u32)>) -> (r: Vec<(SplitChars, u32)>)
    ensures
        scored_view(r@) == dedup_splits(scored_view(v@)),
{
    let ghost all = v@;
    let ghost sv = scored_view(v@);
    let mut out: Vec<(SplitChars, u32)> = Vec::new();
    assert(sv.take(0) =~= Seq::<(Split, u32)>::empty());
    assert(scored_view(out@) =~= Seq::<(Split, u32)>::empty());
    for x in it: v.into_iter()
        invariant
            it.seq() == all,
            sv == scored_view(all),
            scored_view(out@) == dedup_splits(sv.take(it.index() as int)),
    {
        let ghost idx: int = it.index() as int;
        proof {
            assert(sv.take(idx + 1).drop_last() =~= sv.take(idx));
            assert(sv.take(idx + 1).last() == (split_view(x.0), x.1));
        }
        let keep = out.len() == 0 || !same_split(&out[out.len() - 1].0, &x.0);
        if keep {
            proof {
                lemma_scored_view_push(out@, x);
            }
            out.push(x);
        }
    }
    assert(sv.take(all.len() as int) =~= sv);
    out
}

/// Configuration of the tokenizer.
#[derive(Debug, Clone)]
pub struct TokenizerConfig {
    /// Maximum number of segmentation alternatives per token (default: 16).
    pub max_segmentations: usize,
}

impl Default for TokenizerConfig {
    fn default() -> (r: Self)
        ensures
            r.max_segmentations == 16,
    {
        Self { max_segmentations: 16 }
    }
}

/// MOD-03: the tokenizer stage.
#[derive(Debug, Clone)]
pub struct Tokenizer {
    /// Configuration for this tokenizer instance
    pub config: TokenizerConfig,
}

/// Appends the label of `conf` to `out`.
fn push_confidence_label(out: &mut Vec<char>, conf: u32)
    ensures
        final(out)@ == old(out)@ + confidence_label(conf),
{
    if conf == HIGH_CONFIDENCE {
        append_str(out, "0.9");
    } else if conf == MEDIUM_CONFIDENCE {
        append_str(out, "0.7");
    } else {
        append_str(out, "0.3");
    }
}

impl Tokenizer {
    /// A tokenizer with the given configuration.
    pub fn new(config: TokenizerConfig) -> (r: Self)
        ensures
            r.config == config,
    {
        Self { config }
    }

    /// Segments every token of `input`: word tokens into their splits,
    /// other tokens into one particle; fails on the first word token that has
    /// more splits than the configuration allows.
    pub fn tokenize(&self, input: TokenStream) -> (r: PipelineResult<SegmentedTokenStream>)
        ensures
            segmentation_outcome(self.config.max_segmentations, input.tokens@, r),
    {
        let ghost toks = input.tokens@;
        let ghost max = self.config.max_segmentations;
        let mut tokens: Vec<SegmentedToken> = Vec::new();
        for raw in it: input.tokens.into_iter()
            invariant
                it.seq() == toks,
                max == self.config.max_segmentations,
                tokens@.len() == it.index(),
                forall|i: int| 0 <= i < it.index() ==> segmented_matches(#[trigger] tokens@[i], toks[i]),
                forall|i: int| 0 <= i < it.index() ==> !too_many_splits(max, #[trigger] toks[i]),
        {
            let ghost idx: int = it.index() as int;
            let ghost t = raw;
            assert(t == toks[idx]);
            let st = if raw.token_type == TokenType::Word {
                match self.segment_word_token(raw) {
                    Ok(st) => st,
                    Err(e) => {
                        proof {
                            assert(too_many_splits(max, toks[idx]));
                            let k = choose|k: int|
                                0 <= k < toks.len() && too_many_splits(max, #[trigger] toks[k])
                                    && forall|j: int| 0 <= j < k ==> !too_many_splits(max, #[trigger] toks[j]);
                            assert(0 <= idx < toks.len() && too_many_splits(max, toks[idx])
                                && forall|j: int| 0 <= j < idx ==> !too_many_splits(max, #[trigger] toks[j]));
                            assert(k == idx) by {
                                if k < idx {
                                    assert(!too_many_splits(max, toks[k]));
                                } else if k > idx {
                                    assert(!too_many_splits(max, toks[idx]));
                                }
                            }
                        }
                        return Err(e);
                    },
                }
            } else {
                self.segment_non_word_token(raw)
            };
            tokens.push(st);
        }
        let ghost all = tokens@;
        let mut segmentable: u64 = 0;
        let mut ambiguous: u64 = 0;
        let mut total: u128 = 0;
        let mut i: usize = 0;
        assert(toks.take(0) =~= Seq::<RawToken>::empty());
        while i < tokens.len()
            invariant
                tokens@.len() == toks.len(),
                forall|k: int| 0 <= k < toks.len() ==> segmented_matches(#[trigger] tokens@[k], toks[k]),
                0 <= i <= toks.len(),
                segmentable == word_token_count(toks.take(i as int)),
                ambiguous == ambiguous_count(toks.take(i as int)),
                total == total_splits(toks.take(i as int)),
                segmentable <= i,
                ambiguous <= i,
                total <= 527 * i,
            decreases toks.len() - i,
        {
            let ghost t = toks[i as int];
            proof {
                reveal_with_fuel(Seq::<RawToken>::filter, 1);
                assert(toks.take(i + 1).drop_last() =~= toks.take(i as int));
                assert(toks.take(i + 1).last() == t);
                assert(segmented_matches(tokens@[i as int], t));
                lemma_plan_len_bound(t.text@);
            }
            let st = &tokens[i];
            let n = st.segmentations.len();
            if st.raw_token.token_type == TokenType::Word {
                segmentable = segmentable + 1;
            }
            if n > 1 {
                ambiguous = ambiguous + 1;
            }
            total = total + n as u128;
            i = i + 1;
        }
        assert(toks.take(toks.len() as int) =~= toks);
        let total_ambiguity: u64 = if segmentable > 0 {
            let q = total * 1_000_000 / (segmentable as u128);
            if q > u64::MAX as u128 {
                u64::MAX
            } else {
                q as u64
            }
        } else {
            0
        };
        let metadata = SegmentedTokenStreamMetadata {
            total_tokens: tokens.len() as u64,
            segmentable_tokens: segmentable,
            ambiguous_tokens: ambiguous,
            total_ambiguity,
        };
        Ok(SegmentedTokenStream { spec: owned("SPEC-0001"), version: owned("1.0"), tokens, metadata })
    }

    /// Segments a word token into every split that the clitic tables allow,
    /// or fails if there are more than the configuration allows.
    fn segment_word_token(&self, token: RawToken) -> (r: PipelineResult<SegmentedToken>)
        ensures
            segmentation_plan(token.text@).len() > self.config.max_segmentations ==> (r matches Err(
                e,
            ) && is_morph_pipeline_error(
                MorphError::MaxSegmentationsExceeded {
                    token_id: token.id,
                    limit: self.config.max_segmentations,
                    actual: segmentation_plan(token.text@).len() as usize,
                },
                "MOD-03"@,
                e,
            )),
            segmentation_plan(token.text@).len() <= self.config.max_segmentations ==> (r matches Ok(
                st,
            ) && word_token_matches(st, token)),
    {
        let text = chars_of(token.text.as_str());
        let total = utf8_len(token.text.as_str());
        let cands = dedup_candidates(word_candidates(&text));
        let ghost plan = segmentation_plan(text@);
        proof {
            lemma_segmentation_plan_shape(text@);
            lemma_plan_len_bound(text@);
        }
        if cands.len() > self.config.max_segmentations {
            return Err(
                MorphError::MaxSegmentationsExceeded {
                    token_id: token.id,
                    limit: self.config.max_segmentations,
                    actual: cands.len(),
                }.into_pipeline("MOD-03"),
            );
        }
        let mut segmentations: Vec<Segmentation> = Vec::new();
        let mut j: usize = 0;
        while j < cands.len()
            invariant
                scored_view(cands@) == plan,
                plan == segmentation_plan(token.text@),
                byte_len(token.text@) <= usize::MAX,
                forall|k: int| 0 <= k < plan.len() ==> #[trigger] plan[k].0.0 + plan[k].0.1 + plan[k].0.2 == token.text@,
                0 <= j <= cands@.len(),
                segmentations@.len() == j,
                forall|k: int|
                    0 <= k < j ==> segmentation_matches(#[trigger] segmentations@[k], plan[k].0, plan[k].1, token.id),
            decreases cands@.len() - j,
        {
            let ghost x = plan[j as int];
            assert(x == (split_view(cands@[j as int].0), cands@[j as int].1));
            assert(x.0.0 + x.0.1 + x.0.2 == token.text@);
            let sg = self.build_segmentation(&token, &cands[j].0, cands[j].1);
            segmentations.push(sg);
            j = j + 1;
        }
        Ok(SegmentedToken { raw_token: token, segmentations })
    }

    /// A non-word token as a single particle spanning its whole text.
    fn segment_non_word_token(&self, token: RawToken) -> (r: SegmentedToken)
        ensures
            particle_token_matches(r, token),
    {
        let length = utf8_len(token.text.as_str());
        let morpheme = Morpheme {
            text: owned(token.text.as_str()),
            morpheme_type: MorphemeType::Particle,
            original_offset: 0,
            length,
        };
        let mut id: Vec<char> = Vec::new();
        append_str(&mut id, "seg-");
        push_decimal(&mut id, token.id as u64);
        append_str(&mut id, "-0");
        let mut morphemes: Vec<Morpheme> = Vec::new();
        morphemes.push(morpheme);
        let segmentation = Segmentation {
            id: string_from_chars(id.as_slice()),
            morphemes,
            confidence: FULL_CONFIDENCE,
            source: owned("default"),
        };
        let mut segmentations: Vec<Segmentation> = Vec::new();
        segmentations.push(segmentation);
        SegmentedToken { raw_token: token, segmentations }
    }

    /// The segmentation of `token` into the given split, with its morphemes'
    /// byte offsets within the token text.
    fn build_segmentation(&self, token: &RawToken, parts: &SplitChars, confidence: u32) -> (r:
        Segmentation)
        requires
            byte_len(parts.prefix@ + parts.stem@ + parts.suffix@) <= usize::MAX,
        ensures
            segmentation_matches(r, split_view(*parts), confidence, token.id),
    {
        proof {
            lemma_byte_len_concat(parts.prefix@ + parts.stem@, parts.suffix@);
            lemma_byte_len_concat(parts.prefix@, parts.stem@);
        }
        let mut morphemes: Vec<Morpheme> = Vec::new();
        let prefix_text = string_from_chars(parts.prefix.as_slice());
        let prefix_len = utf8_len(prefix_text.as_str());
        if parts.prefix.len() > 0 {
            morphemes.push(
                Morpheme {
                    text: prefix_text,
                    morpheme_type: MorphemeType::Prefix,
                    original_offset: 0,
                    length: prefix_len,
                },
            );
        }
        let stem_text = string_from_chars(parts.stem.as_slice());
        let stem_len = utf8_len(stem_text.as_str());
        morphemes.push(
            Morpheme {
                text: stem_text,
                morpheme_type: MorphemeType::Stem,
                original_offset: prefix_len,
                length: stem_len,
            },
        );
        if parts.suffix.len() > 0 {
            let suffix_text = string_from_chars(parts.suffix.as_slice());
            let suffix_len = utf8_len(suffix_text.as_str());
            morphemes.push(
                Morpheme {
                    text: suffix_text,
                    morpheme_type: MorphemeType::Suffix,
                    original_offset: prefix_len + stem_len,
                    length: suffix_len,
                },
            );
        }
        let mut id: Vec<char> = Vec::new();
        append_str(&mut id, "seg-");
        push_decimal(&mut id, token.id as u64);
        append_str(&mut id, "-");
        push_confidence_label(&mut id, confidence);
        Segmentation {
            id: string_from_chars(id.as_slice()),
            morphemes,
            confidence,
            source: owned("default"),
        }
    }
}

impl PipelineStage<TokenStream, SegmentedTokenStream> for Tokenizer {
    fn stage_id(&self) -> (r: &'static str)
        ensures
            r@ == "MOD-03"@,
    {
        "MOD-03"
    }

    fn process(&self, input: TokenStream, ctx: &PipelineContext) -> (r: PipelineResult<
        SegmentedTokenStream,
    >)
        ensures
            segmentation_outcome(self.config.max_segmentations, input.tokens@, r),
    {
        self.tokenize(input)
    }

    fn validate_config(&self, ctx: &PipelineContext) -> (r: PipelineResult<()>)
        ensures
            self.config.max_segmentations == 0 ==> (r matches Err(e) && crate::error::is_plain_error(
                e,
                codes::INVALID_REQUEST@,
                "TokenizerConfig.max_segmentations must be > 0"@,
                "MOD-03"@,
                true,
            )),
            self.config.max_segmentations > 0 ==> r is Ok,
    {
        if self.config.max_segmentations == 0 {
            return Err(
                PipelineError::fatal(
                    codes::INVALID_REQUEST,
                    "TokenizerConfig.max_segmentations must be > 0",
                    "MOD-03",
                ),
            );
        }
        Ok(())
    }
}

impl Default for Tokenizer {
    fn default() -> (r: Self)
        ensures
            r.config.max_segmentations == 16,
    {
        Self::new(TokenizerConfig::default())
    }
}

/// Segmentation is deterministic: two results for the same tokens and limit
/// agree on success, on the metadata, and on every token's segmentations
/// (their ids, confidences and morpheme counts).
pub proof fn lemma_segmentation_deterministic(
    max: usize,
    toks: Seq<RawToken>,
    r1: PipelineResult<SegmentedTokenStream>,
    r2: PipelineResult<SegmentedTokenStream>,
)
    requires
        segmentation_outcome(max, toks, r1),
        segmentation_outcome(max, toks, r2),
    ensures
        r1 is Ok <==> r2 is Ok,
        r1 matches Ok(a) ==> r2 matches Ok(b) && a.metadata == b.metadata && a.tokens@.len() == b.tokens@.len()
            && forall|i: int|
            0 <= i < a.tokens@.len() ==> {
                &&& (#[trigger] a.tokens@[i]).raw_token == b.tokens@[i].raw_token
                &&& a.tokens@[i].segmentations@.len() == b.tokens@[i].segmentations@.len()
                &&& forall|j: int|
                    0 <= j < a.tokens@[i].segmentations@.len() ==> {
                        &&& (#[trigger] a.tokens@[i].segmentations@[j]).id@ == b.tokens@[i].segmentations@[j].id@
                        &&& a.tokens@[i].segmentations@[j].confidence == b.tokens@[i].segmentations@[j].confidence
                        &&& a.tokens@[i].segmentations@[j].morphemes@.len()
                            == b.tokens@[i].segmentations@[j].morphemes@.len()
                    }
            },
{
    if r1 is Ok {
        let a = r1->Ok_0;
        let b = r2->Ok_0;
        assert forall|i: int| 0 <= i < a.tokens@.len() implies {
            &&& (#[trigger] a.tokens@[i]).raw_token == b.tokens@[i].raw_token
            &&& a.tokens@[i].segmentations@.len() == b.tokens@[i].segmentations@.len()
            &&& forall|j: int|
                0 <= j < a.tokens@[i].segmentations@.len() ==> {
                    &&& (#[trigger] a.tokens@[i].segmentations@[j]).id@ == b.tokens@[i].segmentations@[j].id@
                    &&& a.tokens@[i].segmentations@[j].confidence == b.tokens@[i].segmentations@[j].confidence
                    &&& a.tokens@[i].segmentations@[j].morphemes@.len()
                        == b.tokens@[i].segmentations@[j].morphemes@.len()
                }
        } by {
            assert(segmented_matches(a.tokens@[i], toks[i]));
            assert(segmented_matches(b.tokens@[i], toks[i]));
            if toks[i].token_type == TokenType::Word {
                let plan = segmentation_plan(toks[i].text@);
                assert forall|j: int| 0 <= j < a.tokens@[i].segmentations@.len() implies {
                    &&& (#[trigger] a.tokens@[i].segmentations@[j]).id@ == b.tokens@[i].segmentations@[j].id@
                    &&& a.tokens@[i].segmentations@[j].confidence == b.tokens@[i].segmentations@[j].confidence
                    &&& a.tokens@[i].segmentations@[j].morphemes@.len()
                        == b.tokens@[i].segmentations@[j].morphemes@.len()
                } by {
                    assert(segmentation_matches(a.tokens@[i].segmentations@[j], plan[j].0, plan[j].1, toks[i].id));
                    assert(segmentation_matches(b.tokens@[i].segmentations@[j], plan[j].0, plan[j].1, toks[i].id));
                }
            }
        }
    }
}

/// `p` is one of the proclitics of the clitic table: sawfa, fa + bi, fa + li,
/// wa + bi, wa + al, fa + al, bi + al, li + al, sa, fa, wa, bi, li, ka, al, a.
pub open spec fn listed_proclitic(p: Seq<char>) -> bool {
        p == "\u{0633}\u{064E}\u{0648}\u{0652}\u{0641}\u{064E}"@  // sawfa
        || p == "\u{0641}\u{064E}\u{0628}\u{0650}"@  // fa + bi
        || p == "\u{0641}\u{064E}\u{0644}\u{0650}"@  // fa + li
        || p == "\u{0648}\u{064E}\u{0628}\u{0650}"@  // wa + bi
        || p == "\u{0648}\u{064E}\u{0627}\u{0644}"@  // wa + al
        || p == "\u{0641}\u{064E}\u{0627}\u{0644}"@  // fa + al
        || p == "\u{0628}\u{0650}\u{0627}\u{0644}"@  // bi + al
        || p == "\u{0644}\u{0650}\u{0644}"@  // li + al
        || p == "\u{0633}\u{064E}"@  // sa
        || p == "\u{0641}\u{064E}"@  // fa
        || p == "\u{0648}\u{064E}"@  // wa
        || p == "\u{0628}\u{0650}"@  // bi
        || p == "\u{0644}\u{0650}"@  // li
        || p == "\u{0643}\u{064E}"@  // ka
        || p == "\u{0627}\u{0644}"@  // al
        || p == "\u{0623}\u{064E}"@  // a
}

/// The proclitic split by `ps[k]` is among the prefix splits when it fits.
proof fn lemma_prefix_split_listed(text: Seq<char>, ps: Seq<Seq<char>>, k: int)
    requires
        0 <= k < ps.len(),
        proclitic_fits(text, ps[k]),
    ensures
        prefix_splits(text, ps).contains((ps[k], text.skip(ps[k].len() as int), Seq::<char>::empty())),
    decreases ps.len(),
{
    let sp = (ps[k], text.skip(ps[k].len() as int), Seq::<char>::empty());
    let before = prefix_splits(text, ps.drop_last());
    if k < ps.len() - 1 {
        assert(ps.drop_last()[k] == ps[k]);
        lemma_prefix_split_listed(text, ps.drop_last(), k);
        let j = choose|j: int| 0 <= j < before.len() && before[j] == sp;
        assert(prefix_splits(text, ps)[j] == sp);
    } else {
        assert(prefix_splits(text, ps)[before.len() as int] == sp);
    }
}

/// A word that starts with a proclitic of the clitic table and has more
/// after it is offered the split into that proclitic and the rest as stem,
/// with confidence 0.7.
pub proof fn lemma_proclitic_split_offered(text: Seq<char>, p: Seq<char>)
    requires
        listed_proclitic(p),
        p.len() < text.len(),
        text.take(p.len() as int) == p,
    ensures
        exists|j: int|
            0 <= j < segmentation_plan(text).len() && #[trigger] segmentation_plan(text)[j] == (
                (p, text.skip(p.len() as int), Seq::<char>::empty()),
                MEDIUM_CONFIDENCE,
            ),
        p.len() > 0,
{
    if p == "\u{0633}\u{064E}\u{0648}\u{0652}\u{0641}\u{064E}"@ {
        assert(proclitics()[0] == p);
    }
    if p == "\u{0641}\u{064E}\u{0628}\u{0650}"@ {
        assert(proclitics()[1] == p);
    }
    if p == "\u{0641}\u{064E}\u{0644}\u{0650}"@ {
        assert(proclitics()[2] == p);
    }
    if p == "\u{0648}\u{064E}\u{0628}\u{0650}"@ {
        assert(proclitics()[3] == p);
    }
    if p == "\u{0648}\u{064E}\u{0627}\u{0644}"@ {
        assert(proclitics()[4] == p);
    }
    if p == "\u{0641}\u{064E}\u{0627}\u{0644}"@ {
        assert(proclitics()[5] == p);
    }
    if p == "\u{0628}\u{0650}\u{0627}\u{0644}"@ {
        assert(proclitics()[6] == p);
    }
    if p == "\u{0644}\u{0650}\u{0644}"@ {
        assert(proclitics()[7] == p);
    }
    if p == "\u{0633}\u{064E}"@ {
        assert(proclitics()[8] == p);
    }
    if p == "\u{0641}\u{064E}"@ {
        assert(proclitics()[9] == p);
    }
    if p == "\u{0648}\u{064E}"@ {
        assert(proclitics()[10] == p);
    }
    if p == "\u{0628}\u{0650}"@ {
        assert(proclitics()[11] == p);
    }
    if p == "\u{0644}\u{0650}"@ {
        assert(proclitics()[12] == p);
    }
    if p == "\u{0643}\u{064E}"@ {
        assert(proclitics()[13] == p);
    }
    if p == "\u{0627}\u{0644}"@ {
        assert(proclitics()[14] == p);
    }
    if p == "\u{0623}\u{064E}"@ {
        assert(proclitics()[15] == p);
    }
    let k = choose|k: int| 0 <= k < proclitics().len() && proclitics()[k] == p;
    lemma_prefix_split_listed(text, proclitics(), k);
    let sp = (p, text.skip(p.len() as int), Seq::<char>::empty());
    let pre = prefix_splits(text, proclitics());
    let full = scored(full_splits(text, proclitics()), HIGH_CONFIDENCE);
    let mid = scored(pre + enclitic_splits(text, Seq::empty(), enclitics()), MEDIUM_CONFIDENCE);
    let c = candidates(text);
    lemma_clitics_nonempty();
    assert(proclitics()[k].len() > 0);
    let j1 = first_index(pre, sp);
    let i = full.len() + j1;
    assert((pre + enclitic_splits(text, Seq::empty(), enclitics()))[j1] == sp);
    assert(mid[j1] == (sp, MEDIUM_CONFIDENCE));
    assert(c[i] == (sp, MEDIUM_CONFIDENCE));
    if i > 0 {
        if j1 > 0 {
            assert((pre + enclitic_splits(text, Seq::empty(), enclitics()))[j1 - 1] == pre[j1 - 1]);
            assert(c[i - 1] == mid[j1 - 1]);
        } else {
            lemma_full_splits_parts(text, proclitics());
            let fs = full_splits(text, proclitics());
            assert(c[i - 1] == full[i - 1]);
            assert(full[i - 1] == (fs[i - 1], HIGH_CONFIDENCE));
            assert(fs[i - 1].2.len() > 0);
        }
        assert(c[i - 1].0 != c[i].0);
    }
    lemma_dedup_keeps_first(c, i);
    let j = choose|j: int| 0 <= j < dedup_splits(c).len() && #[trigger] dedup_splits(c)[j] == c[i];
    assert(segmentation_plan(text)[j] == (sp, MEDIUM_CONFIDENCE));
}

/// The first index at which `x` occurs in `s`.
proof fn first_index<A>(s: Seq<A>, x: A) -> (i: int)
    requires
        s.contains(x),
    ensures
        0 <= i < s.len(),
        s[i] == x,
        forall|j: int| 0 <= j < i ==> s[j] != x,
    decreases s.len(),
{
    if s.drop_last().contains(x) {
        let i = first_index(s.drop_last(), x);
        assert forall|j: int| 0 <= j < i implies s[j] != x by {
            assert(s[j] == s.drop_last()[j]);
        }
        i
    } else {
        assert forall|j: int| 0 <= j < s.len() - 1 implies s[j] != x by {
            assert(s[j] == s.drop_last()[j]);
        }
        s.len() - 1
    }
}

/// Deduplication ends with an element of the same split as `s` ends with.
proof fn lemma_dedup_last(s: Seq<(Split, u32)>)
    requires
        s.len() > 0,
    ensures
        dedup_splits(s).len() > 0,
        dedup_splits(s).last().0 == s.last().0,
    decreases s.len(),
{
    if s.len() > 1 {
        lemma_dedup_last(s.drop_last());
    }
}

/// An element whose split differs from the one before it is kept, with its confidence.
proof fn lemma_dedup_keeps_first(s: Seq<(Split, u32)>, i: int)
    requires
        0 <= i < s.len(),
        i > 0 ==> s[i - 1].0 != s[i].0,
    ensures
        exists|j: int| 0 <= j < dedup_splits(s).len() && #[trigger] dedup_splits(s)[j] == s[i],
    decreases s.len(),
{
    let d = dedup_splits(s.drop_last());
    if i < s.len() - 1 {
        assert(s.drop_last()[i] == s[i]);
        if i > 0 {
            assert(s.drop_last()[i - 1] == s[i - 1]);
        }
        lemma_dedup_keeps_first(s.drop_last(), i);
        let j = choose|j: int| 0 <= j < d.len() && #[trigger] d[j] == s.drop_last()[i];
        assert(dedup_splits(s)[j] == d[j]);
    } else {
        if i > 0 {
            lemma_dedup_last(s.drop_last());
            assert(s.drop_last().last() == s[i - 1]);
        }
        assert(dedup_splits(s)[d.len() as int] == s.last());
    }
}

/// The tokenizer's law for proclitics: in the segmented form of a word
/// token that starts with a proclitic of the clitic table and has more after
/// it, one segmentation is that proclitic (a prefix at offset 0) followed by
/// the rest of the word as the stem.
pub proof fn lemma_word_token_proclitic(st: SegmentedToken, t: RawToken, p: Seq<char>)
    requires
        word_token_matches(st, t),
        listed_proclitic(p),
        p.len() < t.text@.len(),
        t.text@.take(p.len() as int) == p,
    ensures
        exists|j: int|
            0 <= j < st.segmentations@.len() && {
                let ms = (#[trigger] st.segmentations@[j]).morphemes@;
                &&& ms.len() == 2
                &&& ms[0].text@ == p
                &&& ms[0].morpheme_type == MorphemeType::Prefix
                &&& ms[0].original_offset == 0
                &&& ms[1].text@ == t.text@.skip(p.len() as int)
                &&& ms[1].morpheme_type == MorphemeType::Stem
                &&& st.segmentations@[j].confidence == 700_000
            },
{
    lemma_proclitic_split_offered(t.text@, p);
    let plan = segmentation_plan(t.text@);
    let j = choose|j: int|
        0 <= j < plan.len() && #[trigger] plan[j] == (
            (p, t.text@.skip(p.len() as int), Seq::<char>::empty()),
            MEDIUM_CONFIDENCE,
        );
    assert(segmentation_matches(st.segmentations@[j], plan[j].0, plan[j].1, t.id));
    assert(p.len() > 0);
}

/// `e` is one of the enclitics of the clitic table: the pronouns kuma, huma,
/// kunna, hunna, kum, hum, na, ni, ki, ka, ha, hu; the subject markers tuma,
/// tunna, tum, ta (dual), tu, ta, ti, wa; the plural and dual endings ina,
/// ini, ani, ata, atu, ati, una; and alif, ya, na.
pub open spec fn listed_enclitic(e: Seq<char>) -> bool {
        e == "\u{0643}\u{064F}\u{0645}\u{064E}\u{0627}"@  // kuma
        || e == "\u{0647}\u{064F}\u{0645}\u{064E}\u{0627}"@  // huma
        || e == "\u{0643}\u{064F}\u{0646}\u{064E}\u{0651}"@  // kunna
        || e == "\u{0647}\u{064F}\u{0646}\u{064E}\u{0651}"@  // hunna
        || e == "\u{0643}\u{064F}\u{0645}\u{0652}"@  // kum
        || e == "\u{0647}\u{064F}\u{0645}\u{0652}"@  // hum
        || e == "\u{0646}\u{064E}\u{0627}"@  // na
        || e == "\u{0646}\u{0650}\u{064A}"@  // ni
        || e == "\u{0643}\u{0650}"@  // ki
        || e == "\u{0643}\u{064E}"@  // ka
        || e == "\u{0647}\u{064E}\u{0627}"@  // ha
        || e == "\u{0647}\u{064F}"@  // hu
        || e == "\u{062A}\u{064F}\u{0645}\u{064E}\u{0627}"@  // tuma
        || e == "\u{062A}\u{064F}\u{0646}\u{064E}\u{0651}"@  // tunna
        || e == "\u{062A}\u{064F}\u{0645}\u{0652}"@  // tum
        || e == "\u{062A}\u{064E}\u{0627}"@  // ta
        || e == "\u{062A}\u{064F}"@  // tu
        || e == "\u{062A}\u{064E}"@  // ta
        || e == "\u{062A}\u{0650}"@  // ti
        || e == "\u{0648}\u{064E}\u{0627}"@  // wa
        || e == "\u{064A}\u{0646}\u{064E}"@  // ina
        || e == "\u{064A}\u{0646}\u{0650}"@  // ini
        || e == "\u{0627}\u{0646}\u{0650}"@  // ani
        || e == "\u{0627}\u{062A}\u{064E}"@  // ata
        || e == "\u{0627}\u{062A}\u{064F}"@  // atu
        || e == "\u{0627}\u{062A}\u{0650}"@  // ati
        || e == "\u{0648}\u{0646}\u{064E}"@  // una
        || e == "\u{0627}"@  // alif
        || e == "\u{064A}"@  // ya
        || e == "\u{0646}\u{064E}"@  // na
}

/// The enclitic split by `es[k]` is among the enclitic splits when it fits.
proof fn lemma_enclitic_split_listed(rest: Seq<char>, p: Seq<char>, es: Seq<Seq<char>>, k: int)
    requires
        0 <= k < es.len(),
        enclitic_fits(rest, es[k]),
    ensures
        enclitic_splits(rest, p, es).contains((p, rest.take(rest.len() - es[k].len()), es[k])),
    decreases es.len(),
{
    let sp = (p, rest.take(rest.len() - es[k].len()), es[k]);
    let before = enclitic_splits(rest, p, es.drop_last());
    if k < es.len() - 1 {
        assert(es.drop_last()[k] == es[k]);
        lemma_enclitic_split_listed(rest, p, es.drop_last(), k);
        let j = choose|j: int| 0 <= j < before.len() && before[j] == sp;
        assert(enclitic_splits(rest, p, es)[j] == sp);
    } else {
        assert(enclitic_splits(rest, p, es)[before.len() as int] == sp);
    }
}

/// A word that ends with an enclitic of the clitic table, with something
/// before it other than ta marbuta alone, is offered the split into that
/// stem and the enclitic, without proclitic, with confidence 0.7.
pub proof fn lemma_enclitic_split_offered(text: Seq<char>, e: Seq<char>, q: int)
    requires
        listed_enclitic(e),
        e.len() < text.len(),
        text.skip(text.len() - e.len()) == e,
        0 <= q < text.len() - e.len(),
        text[q] != '\u{0629}',
    ensures
        exists|j: int|
            0 <= j < segmentation_plan(text).len() && #[trigger] segmentation_plan(text)[j] == (
                (Seq::<char>::empty(), text.take(text.len() - e.len()), e),
                MEDIUM_CONFIDENCE,
            ),
{
    if e == "\u{0643}\u{064F}\u{0645}\u{064E}\u{0627}"@ {
        assert(enclitics()[0] == e);
    }
    if e == "\u{0647}\u{064F}\u{0645}\u{064E}\u{0627}"@ {
        assert(enclitics()[1] == e);
    }
    if e == "\u{0643}\u{064F}\u{0646}\u{064E}\u{0651}"@ {
        assert(enclitics()[2] == e);
    }
    if e == "\u{0647}\u{064F}\u{0646}\u{064E}\u{0651}"@ {
        assert(enclitics()[3] == e);
    }
    if e == "\u{0643}\u{064F}\u{0645}\u{0652}"@ {
        assert(enclitics()[4] == e);
    }
    if e == "\u{0647}\u{064F}\u{0645}\u{0652}"@ {
        assert(enclitics()[5] == e);
    }
    if e == "\u{0646}\u{064E}\u{0627}"@ {
        assert(enclitics()[6] == e);
    }
    if e == "\u{0646}\u{0650}\u{064A}"@ {
        assert(enclitics()[7] == e);
    }
    if e == "\u{0643}\u{0650}"@ {
        assert(enclitics()[8] == e);
    }
    if e == "\u{0643}\u{064E}"@ {
        assert(enclitics()[9] == e);
    }
    if e == "\u{0647}\u{064E}\u{0627}"@ {
        assert(enclitics()[10] == e);
    }
    if e == "\u{0647}\u{064F}"@ {
        assert(enclitics()[11] == e);
    }
    if e == "\u{062A}\u{064F}\u{0645}\u{064E}\u{0627}"@ {
        assert(enclitics()[12] == e);
    }
    if e == "\u{062A}\u{064F}\u{0646}\u{064E}\u{0651}"@ {
        assert(enclitics()[13] == e);
    }
    if e == "\u{062A}\u{064F}\u{0645}\u{0652}"@ {
        assert(enclitics()[14] == e);
    }
    if e == "\u{062A}\u{064E}\u{0627}"@ {
        assert(enclitics()[15] == e);
    }
    if e == "\u{062A}\u{064F}"@ {
        assert(enclitics()[16] == e);
    }
    if e == "\u{062A}\u{064E}"@ {
        assert(enclitics()[17] == e);
    }
    if e == "\u{062A}\u{0650}"@ {
        assert(enclitics()[18] == e);
    }
    if e == "\u{0648}\u{064E}\u{0627}"@ {
        assert(enclitics()[19] == e);
    }
    if e == "\u{064A}\u{0646}\u{064E}"@ {
        assert(enclitics()[20] == e);
    }
    if e == "\u{064A}\u{0646}\u{0650}"@ {
        assert(enclitics()[21] == e);
    }
    if e == "\u{0627}\u{0646}\u{0650}"@ {
        assert(enclitics()[22] == e);
    }
    if e == "\u{0627}\u{062A}\u{064E}"@ {
        assert(enclitics()[23] == e);
    }
    if e == "\u{0627}\u{062A}\u{064F}"@ {
        assert(enclitics()[24] == e);
    }
    if e == "\u{0627}\u{062A}\u{0650}"@ {
        assert(enclitics()[25] == e);
    }
    if e == "\u{0648}\u{0646}\u{064E}"@ {
        assert(enclitics()[26] == e);
    }
    if e == "\u{0627}"@ {
        assert(enclitics()[27] == e);
    }
    if e == "\u{064A}"@ {
        assert(enclitics()[28] == e);
    }
    if e == "\u{0646}\u{064E}"@ {
        assert(enclitics()[29] == e);
    }
    let k = choose|k: int| 0 <= k < enclitics().len() && enclitics()[k] == e;
    let stem = text.take(text.len() - e.len());
    assert(stem[q] == text[q]);
    assert(usable_stem(stem));
    lemma_enclitic_split_listed(text, Seq::empty(), enclitics(), k);
    let sp = (Seq::<char>::empty(), stem, e);
    let pre = prefix_splits(text, proclitics());
    let enc = enclitic_splits(text, Seq::empty(), enclitics());
    let both = pre + enc;
    let j0 = choose|j: int| 0 <= j < enc.len() && enc[j] == sp;
    assert(both[pre.len() + j0] == sp);
    let j1 = first_index(both, sp);
    let full = scored(full_splits(text, proclitics()), HIGH_CONFIDENCE);
    let mid = scored(both, MEDIUM_CONFIDENCE);
    let c = candidates(text);
    let i = full.len() + j1;
    assert(mid[j1] == (sp, MEDIUM_CONFIDENCE));
    assert(c[i] == (sp, MEDIUM_CONFIDENCE));
    if i > 0 {
        if j1 > 0 {
            assert(c[i - 1] == mid[j1 - 1]);
        } else {
            lemma_clitics_nonempty();
            lemma_full_splits_parts(text, proclitics());
            let fs = full_splits(text, proclitics());
            assert(c[i - 1] == full[i - 1]);
            assert(full[i - 1] == (fs[i - 1], HIGH_CONFIDENCE));
            assert(fs[i - 1].0.len() > 0);
        }
        assert(c[i - 1].0 != c[i].0);
    }
    lemma_dedup_keeps_first(c, i);
    let j = choose|j: int| 0 <= j < dedup_splits(c).len() && #[trigger] dedup_splits(c)[j] == c[i];
    assert(segmentation_plan(text)[j] == (sp, MEDIUM_CONFIDENCE));
}

} // verus!
