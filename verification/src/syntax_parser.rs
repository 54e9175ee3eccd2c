//! MOD-05: syntactic (nahw) analysis of morphologically analyzed tokens.
//!
//! The tokens, ordered by id, form one sentence. Its type comes from the
//! first token's part of speech; a verbal sentence is read as verb, subject
//! and objects, a nominal one as topic (mubtada') and comment (khabar).

use vstd::prelude::*;

use crate::error::{codes, PipelineError, PipelineResult};
use crate::ir::{
    Constituent, MorphologicalAnalysis, ParseTree, StemAnalysis, SyntaxTree, SyntaxTreeMetadata,
    TokenAnalysis,
};
use crate::pipeline::{PipelineContext, PipelineStage};
use crate::syntax_error::{syntax_error_code, syntax_error_message, SyntaxError};
use crate::text::{append_str, chars_eq, chars_of, decimal, owned, push_decimal, string_from_chars};
use crate::types::{school_name, GrammarSchool, NodeType, PartOfSpeech, SentenceType, SyntacticRole};

verus! {

/// Configuration of the syntax parser.
#[derive(Debug, Clone)]
pub struct SyntaxParserConfig {
    /// Grammar school for syntactic analysis
    pub school: GrammarSchool,
    /// Maximum parse trees in the ambiguity forest (default: 8)
    pub max_parse_trees: usize,
    /// Maximum tokens for full sentence parsing (default: 200)
    pub max_sentence_length: usize,
    /// Enable partial parse fallback when full parse fails (default: true)
    pub enable_partial_parse: bool,
}

impl Default for SyntaxParserConfig {
    fn default() -> (r: Self)
        ensures
            r.school == GrammarSchool::Basra,
            r.max_parse_trees == 8,
            r.max_sentence_length == 200,
            r.enable_partial_parse,
    {
        Self {
            school: GrammarSchool::Basra,
            max_parse_trees: 8,
            max_sentence_length: 200,
            enable_partial_parse: true,
        }
    }
}

// The token order and what is known of each token.

/// `ids` with `id` inserted, where `ids` ascend strictly; an id already
/// present is not inserted again.
pub open spec fn insert_sorted(ids: Seq<usize>, id: usize) -> Seq<usize>
    decreases ids.len(),
{
    if ids.len() == 0 {
        seq![id]
    } else if ids.last() < id {
        ids.push(id)
    } else if ids.last() == id {
        ids
    } else {
        insert_sorted(ids.drop_last(), id).push(ids.last())
    }
}

/// The distinct token ids of `tas`, ascending.
pub open spec fn sorted_token_ids(tas: Seq<TokenAnalysis>) -> Seq<usize>
    decreases tas.len(),
{
    if tas.len() == 0 {
        Seq::empty()
    } else {
        insert_sorted(sorted_token_ids(tas.drop_last()), tas.last().token_id)
    }
}

/// The analyses of the last entry of `tas` for token `id` (none if there is no entry).
pub open spec fn analyses_for(tas: Seq<TokenAnalysis>, id: usize) -> Seq<StemAnalysis>
    decreases tas.len(),
{
    if tas.len() == 0 {
        Seq::empty()
    } else if tas.last().token_id == id {
        tas.last().stem_analyses@
    } else {
        analyses_for(tas.drop_last(), id)
    }
}

/// What the parser reads of an analysis: part of speech, stem and root.
pub type Info = (PartOfSpeech, Seq<char>, Option<Seq<char>>);

/// The part of an analysis that the parser reads.
pub open spec fn info_of(sa: StemAnalysis) -> Info {
    (
        sa.pos,
        sa.stem@,
        match sa.root {
            Some(r) => Some(r.text@),
            None => None,
        },
    )
}

/// What the parser reads of each token of `ids`.
pub open spec fn token_infos(tas: Seq<TokenAnalysis>, ids: Seq<usize>) -> Seq<Seq<Info>> {
    ids.map_values(|id: usize| analyses_for(tas, id).map_values(|sa: StemAnalysis| info_of(sa)))
}

// Parts of speech.

/// The name of a part of speech, as `Debug` prints it.
pub open spec fn pos_name(p: PartOfSpeech) -> Seq<char> {
    match p {
        PartOfSpeech::Verb => "Verb"@,
        PartOfSpeech::Noun => "Noun"@,
        PartOfSpeech::Particle => "Particle"@,
        PartOfSpeech::Pronoun => "Pronoun"@,
        PartOfSpeech::Adjective => "Adjective"@,
        PartOfSpeech::Adverb => "Adverb"@,
        PartOfSpeech::Preposition => "Preposition"@,
        PartOfSpeech::Conjunction => "Conjunction"@,
        PartOfSpeech::ProperNoun => "ProperNoun"@,
        PartOfSpeech::Interrogative => "Interrogative"@,
        PartOfSpeech::Unknown => "Unknown"@,
    }
}

/// The name of a part of speech, as `Debug` prints it.
pub fn pos_debug_name(p: PartOfSpeech) -> (r: &'static str)
    ensures
        r@ == pos_name(p),
{
    match p {
        PartOfSpeech::Verb => "Verb",
        PartOfSpeech::Noun => "Noun",
        PartOfSpeech::Particle => "Particle",
        PartOfSpeech::Pronoun => "Pronoun",
        PartOfSpeech::Adjective => "Adjective",
        PartOfSpeech::Adverb => "Adverb",
        PartOfSpeech::Preposition => "Preposition",
        PartOfSpeech::Conjunction => "Conjunction",
        PartOfSpeech::ProperNoun => "ProperNoun",
        PartOfSpeech::Interrogative => "Interrogative",
        PartOfSpeech::Unknown => "Unknown",
    }
}

/// The groups of parts of speech the parser looks for.
#[derive(Debug, Clone, Copy, PartialEq, Eq, Structural)]
pub enum PosGroup {
    /// A verb.
    Verbal,
    /// What can be a subject or a topic: noun, pronoun, proper noun, adjective.
    Nominal,
    /// What can be an object: noun, pronoun, proper noun.
    Objective,
}

/// Whether `p` belongs to group `g`.
pub open spec fn in_group(g: PosGroup, p: PartOfSpeech) -> bool {
    match g {
        PosGroup::Verbal => p == PartOfSpeech::Verb,
        PosGroup::Nominal => p == PartOfSpeech::Noun || p == PartOfSpeech::Pronoun || p
            == PartOfSpeech::ProperNoun || p == PartOfSpeech::Adjective,
        PosGroup::Objective => p == PartOfSpeech::Noun || p == PartOfSpeech::Pronoun || p
            == PartOfSpeech::ProperNoun,
    }
}

/// Whether some analysis in `inf` has a part of speech of group `g`.
pub open spec fn any_in_group(inf: Seq<Info>, g: PosGroup) -> bool {
    exists|j: int| 0 <= j < inf.len() && in_group(g, #[trigger] inf[j].0)
}

/// The first index from `from` on of a token with an analysis in group `g`,
/// or the number of tokens if there is none.
pub open spec fn first_in_group(infos: Seq<Seq<Info>>, from: int, g: PosGroup) -> int
    decreases infos.len() - from,
{
    if from < 0 || from >= infos.len() {
        infos.len() as int
    } else if any_in_group(infos[from], g) {
        from
    } else {
        first_in_group(infos, from + 1, g)
    }
}

/// The part of speech of the first analysis of `inf`, or `Unknown`.
pub open spec fn lead_pos(inf: Seq<Info>) -> PartOfSpeech {
    if inf.len() > 0 {
        inf[0].0
    } else {
        PartOfSpeech::Unknown
    }
}

/// The sentence type that a first word of part of speech `p` opens.
pub open spec fn sentence_type_for(p: PartOfSpeech) -> SentenceType {
    match p {
        PartOfSpeech::Verb => SentenceType::JumlahFiliyyah,
        PartOfSpeech::Particle => SentenceType::JumlahShartiyyah,
        PartOfSpeech::Noun | PartOfSpeech::Pronoun | PartOfSpeech::Adjective
        | PartOfSpeech::ProperNoun => SentenceType::JumlahIsmiyyah,
        _ => SentenceType::Unknown,
    }
}

// Features.

/// A feature list as character sequences.
pub open spec fn features_view(f: Seq<(String, String)>) -> Seq<(Seq<char>, Seq<char>)> {
    f.map_values(|kv: (String, String)| (kv.0@, kv.1@))
}

/// The features of token `i`: its first analysis's part of speech and, if
/// known, root.
pub open spec fn word_features(infos: Seq<Seq<Info>>, i: int) -> Seq<(Seq<char>, Seq<char>)> {
    if 0 <= i < infos.len() && infos[i].len() > 0 {
        let info = infos[i][0];
        seq![("pos"@, pos_name(info.0))] + match info.2 {
            Some(root) => seq![("root"@, root)],
            None => Seq::empty(),
        }
    } else {
        Seq::empty()
    }
}

/// The part-of-speech names of the first analyses of tokens `start` to
/// `end - 1`, skipping tokens without analyses.
pub open spec fn pos_names_between(infos: Seq<Seq<Info>>, start: int, end: int) -> Seq<Seq<char>>
    decreases end - start,
{
    if start < 0 || end <= start || end > infos.len() {
        Seq::empty()
    } else {
        let before = pos_names_between(infos, start, end - 1);
        if infos[end - 1].len() > 0 {
            before.push(pos_name(infos[end - 1][0].0))
        } else {
            before
        }
    }
}

/// `names` joined by commas.
pub open spec fn join_commas(names: Seq<Seq<char>>) -> Seq<char>
    decreases names.len(),
{
    if names.len() == 0 {
        Seq::empty()
    } else if names.len() == 1 {
        names[0]
    } else {
        join_commas(names.drop_last()) + ","@ + names.last()
    }
}

/// The features of the tokens from `start` on: their comma-joined part-of-speech
/// sequence, if there is any.
pub open spec fn sequence_features(infos: Seq<Seq<Info>>, start: int) -> Seq<(Seq<char>, Seq<char>)> {
    let names = pos_names_between(infos, start, infos.len() as int);
    if names.len() > 0 {
        seq![("pos_sequence"@, join_commas(names))]
    } else {
        Seq::empty()
    }
}

// Constituents.

/// `c` is a word constituent of role `role` over `ids`, with features `feats`.
pub open spec fn is_word(
    c: Constituent,
    role: SyntacticRole,
    ids: Seq<usize>,
    feats: Seq<(Seq<char>, Seq<char>)>,
) -> bool {
    &&& c.node_type == NodeType::Word
    &&& c.role == role
    &&& c.token_ids@ == ids
    &&& c.children@.len() == 0
    &&& features_view(c.features@) == feats
    &&& !c.implicit
}

/// `c` is a constituent of type `node` and role `role` over `ids`, with
/// features `feats` (children aside).
pub open spec fn is_node(
    c: Constituent,
    node: NodeType,
    role: SyntacticRole,
    ids: Seq<usize>,
    feats: Seq<(Seq<char>, Seq<char>)>,
) -> bool {
    &&& c.node_type == node
    &&& c.role == role
    &&& c.token_ids@ == ids
    &&& features_view(c.features@) == feats
    &&& !c.implicit
}

/// The role of token `inf` in a partial parse.
pub open spec fn partial_role(inf: Seq<Info>) -> SyntacticRole {
    match lead_pos(inf) {
        PartOfSpeech::Verb => SyntacticRole::FiL,
        PartOfSpeech::Particle | PartOfSpeech::Preposition => SyntacticRole::HarfJarr,
        PartOfSpeech::Conjunction => SyntacticRole::Idafa,
        _ => SyntacticRole::Unknown,
    }
}

/// `c` is the partial parse of the tokens: a clause of one word per token.
pub open spec fn is_partial_parse(c: Constituent, ids: Seq<usize>, infos: Seq<Seq<Info>>) -> bool {
    &&& is_node(c, NodeType::Clause, SyntacticRole::Unknown, ids, seq![("partial"@, "true"@)])
    &&& c.children@.len() == ids.len()
    &&& forall|i: int|
        0 <= i < ids.len() ==> is_word(
            #[trigger] c.children@[i],
            partial_role(infos[i]),
            seq![ids[i]],
            Seq::empty(),
        )
}

// Verbal sentences.

/// The slots of a verbal parse, as (role, token index): the first verb, the
/// first nominal after it as subject, and up to two objects after the subject.
pub open spec fn verbal_slots(infos: Seq<Seq<Info>>) -> Seq<(SyntacticRole, int)> {
    let n = infos.len() as int;
    let v = first_in_group(infos, 0, PosGroup::Verbal);
    let s = first_in_group(infos, v + 1, PosGroup::Nominal);
    let o1 = first_in_group(infos, s + 1, PosGroup::Objective);
    let o2 = first_in_group(infos, o1 + 1, PosGroup::Objective);
    seq![(SyntacticRole::FiL, v)] + if s < n {
        seq![(SyntacticRole::Fail, s)] + if o1 < n {
            seq![(SyntacticRole::MafulBiHi, o1)] + if o2 < n {
                seq![(SyntacticRole::MafulBiHi, o2)]
            } else {
                Seq::empty()
            }
        } else {
            Seq::empty()
        }
    } else {
        Seq::empty()
    }
}

/// The confidence (in millionths) that each role adds to a verbal parse.
pub open spec fn verbal_role_weight(role: SyntacticRole) -> nat {
    if role == SyntacticRole::FiL {
        800_000
    } else if role == SyntacticRole::Fail {
        700_000
    } else {
        500_000
    }
}

/// The summed weights of `slots`.
pub open spec fn slot_weight_sum(slots: Seq<(SyntacticRole, int)>) -> nat
    decreases slots.len(),
{
    if slots.len() == 0 {
        0
    } else {
        slot_weight_sum(slots.drop_last()) + verbal_role_weight(slots.last().0)
    }
}

/// The confidence of a verbal parse: the mean weight of its slots, rounded down.
pub open spec fn verbal_confidence(infos: Seq<Seq<Info>>) -> u32 {
    let slots = verbal_slots(infos);
    (slot_weight_sum(slots) / slots.len()) as u32
}

/// `c` is the verbal parse of the tokens.
pub open spec fn is_verbal_parse(c: Constituent, ids: Seq<usize>, infos: Seq<Seq<Info>>) -> bool {
    let slots = verbal_slots(infos);
    &&& is_node(
        c,
        NodeType::Clause,
        SyntacticRole::FiL,
        ids,
        seq![("sentence_type"@, "jumlah_fi'liyyah"@)],
    )
    &&& c.children@.len() == slots.len()
    &&& forall|j: int|
        0 <= j < slots.len() ==> is_word(
            #[trigger] c.children@[j],
            slots[j].0,
            seq![ids[slots[j].1]],
            word_features(infos, slots[j].1),
        )
}

// Nominal sentences.

/// The prepositions recognized by their stem.
pub open spec fn is_preposition_stem(stem: Seq<char>) -> bool {
    stem == "\u{0628}\u{0650}"@ || stem == "\u{0644}\u{0650}"@ || stem == "\u{0643}\u{064E}"@
        || stem == "\u{0641}\u{0650}\u{064A}"@ || stem == "\u{0645}\u{0650}\u{0646}"@ || stem
        == "\u{0625}\u{0650}\u{0644}\u{064E}\u{0649}"@ || stem
        == "\u{0639}\u{064E}\u{0644}\u{064E}\u{0649}"@ || stem == "\u{0639}\u{064E}\u{0646}\u{0652}"@
}

/// Whether token `inf` reads as a preposition: its first analysis is a
/// preposition or particle, or its first stem is a known preposition.
pub open spec fn is_preposition_token(inf: Seq<Info>) -> bool {
    lead_pos(inf) == PartOfSpeech::Preposition || lead_pos(inf) == PartOfSpeech::Particle
        || is_preposition_stem(
        if inf.len() > 0 {
            inf[0].1
        } else {
            Seq::empty()
        },
    )
}

/// The role of a token in a comment phrase.
pub open spec fn khabar_child_role(inf: Seq<Info>) -> SyntacticRole {
    if is_preposition_token(inf) {
        SyntacticRole::HarfJarr
    } else {
        SyntacticRole::Majrur
    }
}

/// `c` is the comment (khabar) phrase over the tokens after index `m`.
pub open spec fn is_khabar_phrase(c: Constituent, ids: Seq<usize>, infos: Seq<Seq<Info>>, m: int) -> bool {
    let first = m + 1;
    let role = if khabar_child_role(infos[first]) == SyntacticRole::HarfJarr {
        SyntacticRole::Majrur
    } else {
        SyntacticRole::Khabar
    };
    &&& is_node(c, NodeType::Phrase, role, ids.skip(first), sequence_features(infos, first))
    &&& c.children@.len() == ids.len() - first
    &&& forall|k: int|
        0 <= k < ids.len() - first ==> is_word(
            #[trigger] c.children@[k],
            khabar_child_role(infos[first + k]),
            seq![ids[first + k]],
            Seq::empty(),
        )
}

/// The token `inf` opens with a preposition: its first analysis is a
/// preposition or a particle, or has one of the stems bi, li, ka, fi, min,
/// ila, ala, an.
pub open spec fn opens_with_preposition(inf: Seq<Info>) -> bool {
    inf.len() > 0 && (inf[0].0 == PartOfSpeech::Preposition || inf[0].0 == PartOfSpeech::Particle
        || inf[0].1 == "\u{0628}\u{0650}"@ || inf[0].1 == "\u{0644}\u{0650}"@ || inf[0].1
        == "\u{0643}\u{064E}"@ || inf[0].1 == "\u{0641}\u{0650}\u{064A}"@ || inf[0].1
        == "\u{0645}\u{0650}\u{0646}"@ || inf[0].1 == "\u{0625}\u{0650}\u{0644}\u{064E}\u{0649}"@
        || inf[0].1 == "\u{0639}\u{064E}\u{0644}\u{064E}\u{0649}"@ || inf[0].1
        == "\u{0639}\u{064E}\u{0646}\u{0652}"@)
}

/// In a nominal parse with a comment, the comment phrase is headed by the
/// word after the topic. When that word opens with a preposition the phrase
/// is a prepositional one (role Majrur) and the word is its preposition
/// (HarfJarr); otherwise the phrase is the comment proper (role Khabar) and
/// the word is not a preposition.
pub proof fn lemma_nominal_comment_role(c: Constituent, ids: Seq<usize>, infos: Seq<Seq<Info>>, f: int)
    requires
        is_nominal_parse(c, ids, infos),
        ids.len() == infos.len(),
        c.children@.len() == 2,
        f == first_in_group(infos, 0, PosGroup::Nominal) + 1,
    ensures
        0 < f < ids.len(),
        c.children@[1].node_type == NodeType::Phrase,
        c.children@[1].token_ids@ == ids.skip(f),
        c.children@[1].children@.len() >= 1,
        c.children@[1].children@[0].token_ids@ == seq![ids[f]],
        opens_with_preposition(infos[f]) ==> c.children@[1].role == SyntacticRole::Majrur
            && c.children@[1].children@[0].role == SyntacticRole::HarfJarr,
        !opens_with_preposition(infos[f]) ==> c.children@[1].role == SyntacticRole::Khabar
            && c.children@[1].children@[0].role != SyntacticRole::HarfJarr,
        c.children@[1].role == SyntacticRole::Majrur <==> c.children@[1].children@[0].role
            == SyntacticRole::HarfJarr,
        c.children@[1].children@.len() == ids.len() - f,
        forall|k: int|
            0 <= k < ids.len() - f ==> {
                &&& (#[trigger] c.children@[1].children@[k]).token_ids@ == seq![ids[f + k]]
                &&& c.children@[1].children@[k].role == if opens_with_preposition(infos[f + k]) {
                    SyntacticRole::HarfJarr
                } else {
                    SyntacticRole::Majrur
                }
            },
{
    lemma_first_in_group_bounds(infos, 0, PosGroup::Nominal);
    let phrase = c.children@[1];
    lemma_no_empty_preposition_stem();
    assert forall|k: int| 0 <= k < ids.len() - f implies {
        &&& (#[trigger] c.children@[1].children@[k]).token_ids@ == seq![ids[f + k]]
        &&& c.children@[1].children@[k].role == if opens_with_preposition(infos[f + k]) {
            SyntacticRole::HarfJarr
        } else {
            SyntacticRole::Majrur
        }
    } by {
        assert(is_word(phrase.children@[k], khabar_child_role(infos[f + k]), seq![ids[f + k]], Seq::empty()));
    }
    assert(phrase.children@[0].role == if opens_with_preposition(infos[f + 0]) {
        SyntacticRole::HarfJarr
    } else {
        SyntacticRole::Majrur
    });
    assert(infos[f + 0] == infos[f]);
}

/// No known preposition has an empty stem.
proof fn lemma_no_empty_preposition_stem()
    ensures
        !is_preposition_stem(Seq::empty()),
{
    reveal_strlit("\u{0628}\u{0650}");
    reveal_strlit("\u{0644}\u{0650}");
    reveal_strlit("\u{0643}\u{064E}");
    reveal_strlit("\u{0641}\u{0650}\u{064A}");
    reveal_strlit("\u{0645}\u{0650}\u{0646}");
    reveal_strlit("\u{0625}\u{0650}\u{0644}\u{064E}\u{0649}");
    reveal_strlit("\u{0639}\u{064E}\u{0644}\u{064E}\u{0649}");
    reveal_strlit("\u{0639}\u{064E}\u{0646}\u{0652}");
    assert("\u{0628}\u{0650}"@.len() > 0);
    assert("\u{0644}\u{0650}"@.len() > 0);
    assert("\u{0643}\u{064E}"@.len() > 0);
    assert("\u{0641}\u{0650}\u{064A}"@.len() > 0);
    assert("\u{0645}\u{0650}\u{0646}"@.len() > 0);
    assert("\u{0625}\u{0650}\u{0644}\u{064E}\u{0649}"@.len() > 0);
    assert("\u{0639}\u{064E}\u{0644}\u{064E}\u{0649}"@.len() > 0);
    assert("\u{0639}\u{064E}\u{0646}\u{0652}"@.len() > 0);
}

/// The first token of a group at or after `from` lies between `from` and the end.
proof fn lemma_first_in_group_bounds(infos: Seq<Seq<Info>>, from: int, g: PosGroup)
    requires
        0 <= from,
    ensures
        from <= first_in_group(infos, from, g) <= infos.len() || (from > infos.len()
            && first_in_group(infos, from, g) == infos.len()),
    decreases infos.len() - from,
{
    if from < infos.len() {
        lemma_first_in_group_bounds(infos, from + 1, g);
    }
}

/// `c` is the nominal parse of a sentence of one token: a topic alone.
pub open spec fn is_single_topic_parse(c: Constituent, ids: Seq<usize>, infos: Seq<Seq<Info>>) -> bool {
    &&& is_node(
        c,
        NodeType::Clause,
        SyntacticRole::Mubtada,
        ids,
        seq![("sentence_type"@, "jumlah_ismiyyah"@)],
    )
    &&& c.children@.len() == 1
    &&& is_word(c.children@[0], SyntacticRole::Mubtada, ids, word_features(infos, 0))
}

/// `c` is the nominal parse: the first nominal token as topic, and the tokens
/// after it, if any, as comment.
pub open spec fn is_nominal_parse(c: Constituent, ids: Seq<usize>, infos: Seq<Seq<Info>>) -> bool {
    let m = first_in_group(infos, 0, PosGroup::Nominal);
    let has_khabar = m + 1 < ids.len();
    &&& is_node(
        c,
        NodeType::Clause,
        SyntacticRole::Mubtada,
        ids,
        seq![("sentence_type"@, "jumlah_ismiyyah"@)],
    )
    &&& c.children@.len() == if has_khabar {
        2int
    } else {
        1int
    }
    &&& is_word(c.children@[0], SyntacticRole::Mubtada, seq![ids[m]], word_features(infos, m))
    &&& has_khabar ==> is_khabar_phrase(c.children@[1], ids, infos, m)
}

/// The confidence of the nominal parse: topic 0.7, comment 0.6, averaged.
pub open spec fn nominal_confidence(infos: Seq<Seq<Info>>) -> u32 {
    if first_in_group(infos, 0, PosGroup::Nominal) + 1 < infos.len() {
        650_000
    } else {
        700_000
    }
}

// Sentences.

/// The kinds of parse a sentence can receive.
#[derive(Debug, Clone, Copy, PartialEq, Eq, Structural)]
pub enum ParseKind {
    Verbal,
    SingleTopic,
    Nominal,
    /// A partial parse, with its confidence in millionths.
    Partial(u32),
}

/// The verbal reading: the verbal parse if there is a verb, else a partial
/// parse (confidence 0.3) if allowed.
pub open spec fn verbal_kinds(cfg: SyntaxParserConfig, infos: Seq<Seq<Info>>) -> Seq<ParseKind> {
    if first_in_group(infos, 0, PosGroup::Verbal) < infos.len() {
        seq![ParseKind::Verbal]
    } else if cfg.enable_partial_parse {
        seq![ParseKind::Partial(300_000)]
    } else {
        Seq::empty()
    }
}

/// The nominal reading: a lone topic for one token; the nominal parse if a
/// token is nominal; else a partial parse (confidence 0.2) if allowed.
pub open spec fn nominal_kinds(cfg: SyntaxParserConfig, infos: Seq<Seq<Info>>) -> Seq<ParseKind> {
    if infos.len() < 2 {
        seq![ParseKind::SingleTopic]
    } else if first_in_group(infos, 0, PosGroup::Nominal) < infos.len() {
        seq![ParseKind::Nominal]
    } else if cfg.enable_partial_parse {
        seq![ParseKind::Partial(200_000)]
    } else {
        Seq::empty()
    }
}

/// The parses of a non-empty sentence: by the type that its first word opens;
/// for another type both readings, or a partial parse (0.2) if neither gives one.
pub open spec fn sentence_kinds(cfg: SyntaxParserConfig, infos: Seq<Seq<Info>>) -> Seq<ParseKind> {
    let t = sentence_type_for(lead_pos(infos[0]));
    if t == SentenceType::JumlahFiliyyah {
        verbal_kinds(cfg, infos)
    } else if t == SentenceType::JumlahIsmiyyah {
        nominal_kinds(cfg, infos)
    } else {
        let both = verbal_kinds(cfg, infos) + nominal_kinds(cfg, infos);
        if both.len() == 0 && cfg.enable_partial_parse {
            seq![ParseKind::Partial(200_000)]
        } else {
            both
        }
    }
}

/// The confidence of a parse of kind `k`, in millionths.
pub open spec fn kind_confidence(k: ParseKind, infos: Seq<Seq<Info>>) -> u32 {
    match k {
        ParseKind::Verbal => verbal_confidence(infos),
        ParseKind::SingleTopic => 400_000,
        ParseKind::Nominal => nominal_confidence(infos),
        ParseKind::Partial(c) => c,
    }
}

/// `c` is the parse of kind `k` of the tokens.
pub open spec fn is_parse_of_kind(c: Constituent, k: ParseKind, ids: Seq<usize>, infos: Seq<Seq<Info>>) -> bool {
    match k {
        ParseKind::Verbal => is_verbal_parse(c, ids, infos),
        ParseKind::SingleTopic => is_single_topic_parse(c, ids, infos),
        ParseKind::Nominal => is_nominal_parse(c, ids, infos),
        ParseKind::Partial(_) => is_partial_parse(c, ids, infos),
    }
}

/// The order in which the parses are kept: by confidence, highest first
/// (equal confidences in the order they were found), cut to `max`. A sentence
/// has at most two parses, so ordering them is one comparison.
pub open spec fn kept_order(confs: Seq<u32>, max: usize) -> Seq<int> {
    let n: int = if confs.len() <= max { confs.len() as int } else { max as int };
    if confs.len() == 2 && confs[1] > confs[0] {
        seq![1int, 0int].take(n)
    } else {
        Seq::new(confs.len(), |i: int| i).take(n)
    }
}

/// The trees are ordered by confidence, highest first.
pub open spec fn by_confidence(ts: Seq<ParseTree>) -> bool {
    forall|i: int, j: int| 0 <= i < j < ts.len() ==> ts[i].confidence >= ts[j].confidence
}

/// `t` is the tree of parse number `k` of the sentence.
pub open spec fn is_tree(
    t: ParseTree,
    k: int,
    kind: ParseKind,
    cfg: SyntaxParserConfig,
    ids: Seq<usize>,
    infos: Seq<Seq<Info>>,
) -> bool {
    &&& t.id@ == "tree-"@ + decimal(0) + "-"@ + decimal(k as nat)
    &&& t.tree_type == sentence_type_for(lead_pos(infos[0]))
    &&& is_parse_of_kind(t.root, kind, ids, infos)
    &&& t.confidence == kind_confidence(kind, infos)
    &&& t.source@ == "agos-"@ + school_name(cfg.school)
}

/// The number of `kinds` whose confidence is below 0.7.
pub open spec fn low_confidence_count(kinds: Seq<ParseKind>, infos: Seq<Seq<Info>>) -> nat
    decreases kinds.len(),
{
    if kinds.len() == 0 {
        0
    } else {
        low_confidence_count(kinds.drop_last(), infos) + if kind_confidence(kinds.last(), infos)
            < 700_000 {
            1nat
        } else {
            0nat
        }
    }
}

/// The syntax tree produced for the tokens `ids` with `infos`.
pub open spec fn syntax_output(
    cfg: SyntaxParserConfig,
    ids: Seq<usize>,
    infos: Seq<Seq<Info>>,
    out: SyntaxTree,
) -> bool {
    &&& out.spec@ == "SPEC-0001"@
    &&& out.version@ == "1.0"@
    &&& out.metadata.parse_time_ms == 0
    &&& if ids.len() == 0 {
        &&& out.trees@.len() == 0
        &&& out.metadata.sentence_count == 0
        &&& out.metadata.tokens_parsed == 0
        &&& out.metadata.ambiguity_count == 0
    } else {
        let kinds = sentence_kinds(cfg, infos);
        let order = kept_order(kinds.map_values(|k: ParseKind| kind_confidence(k, infos)), cfg.max_parse_trees);
        &&& out.trees@.len() == order.len()
        &&& forall|j: int|
            0 <= j < order.len() ==> is_tree(
                #[trigger] out.trees@[j],
                order[j],
                kinds[order[j]],
                cfg,
                ids,
                infos,
            )
        &&& out.metadata.sentence_count == 1
        &&& out.metadata.tokens_parsed == ids.len()
        &&& out.metadata.ambiguity_count == low_confidence_count(kinds, infos)
    }
}

/// The outcome of parsing `input`: a sentence longer than the limit is
/// refused; otherwise it is parsed.
pub open spec fn parse_outcome(cfg: SyntaxParserConfig, input: MorphologicalAnalysis, r: PipelineResult<SyntaxTree>) -> bool {
    let tas = input.token_analyses@;
    let ids = sorted_token_ids(tas);
    if ids.len() > cfg.max_sentence_length {
        let e = SyntaxError::SentenceTooLong {
            token_count: ids.len() as usize,
            max_length: cfg.max_sentence_length,
        };
        r matches Err(err) && err.code@ == syntax_error_code(e) && err.message@ == syntax_error_message(e)
            && err.stage@ == "MOD-05"@ && err.is_fatal && err.recovery_hint is None && err.inner is None
    } else {
        r matches Ok(out) && syntax_output(cfg, ids, token_infos(tas, ids), out)
    }
}

/// MOD-05: the syntax parser stage.
#[derive(Debug, Clone)]
pub struct SyntaxParser {
    pub config: SyntaxParserConfig,
}

// The parser's working data.

/// A sentence: the ids of its tokens, and where it starts and ends in the
/// ordered token list.
struct Sentence {
    token_ids: Vec<usize>,
    start: usize,
    end: usize,
}

/// One parse of a sentence.
struct ParsedSentence {
    constituent: Constituent,
    sentence_type: SentenceType,
    confidence: u32,
}

/// What the parser reads of one analysis.
struct TokenParseInfo {
    pos: PartOfSpeech,
    stem: Vec<char>,
    root: Option<Vec<char>>,
}

spec fn parse_info_view(x: TokenParseInfo) -> Info {
    (
        x.pos,
        x.stem@,
        match x.root {
            Some(r) => Some(r@),
            None => None,
        },
    )
}

spec fn infos_view(v: Seq<Vec<TokenParseInfo>>) -> Seq<Seq<Info>> {
    v.map_values(|t: Vec<TokenParseInfo>| t@.map_values(|x: TokenParseInfo| parse_info_view(x)))
}

/// Inserts `id` into the strictly ascending `ids`, unless it is there.
fn insert_token_id(ids: &mut Vec<usize>, id: usize)
    ensures
        final(ids)@ == insert_sorted(old(ids)@, id),
    decreases old(ids)@.len(),
{
    let n = ids.len();
    if n == 0 {
        ids.push(id);
        return;
    }
    let last = ids[n - 1];
    if last < id {
        ids.push(id);
    } else if last == id {
    } else {
        let ghost before = ids@;
        ids.pop();
        assert(ids@ == before.drop_last());
        insert_token_id(ids, id);
        ids.push(last);
    }
}

/// A copy of `v[start..]`.
fn ids_from(v: &Vec<usize>, start: usize) -> (r: Vec<usize>)
    requires
        start <= v@.len(),
    ensures
        r@ == v@.skip(start as int),
{
    let mut out: Vec<usize> = Vec::new();
    let mut i: usize = start;
    while i < v.len()
        invariant
            start <= i <= v@.len(),
            out@ == v@.subrange(start as int, i as int),
        decreases v@.len() - i,
    {
        out.push(v[i]);
        assert(v@.subrange(start as int, i + 1) == v@.subrange(start as int, i as int).push(v@[i as int]));
        i = i + 1;
    }
    out
}

/// The one-element list `[id]`.
fn single_id(id: usize) -> (r: Vec<usize>)
    ensures
        r@ == seq![id],
{
    let mut v: Vec<usize> = Vec::new();
    v.push(id);
    v
}

/// The index of the last entry of `tas` for token `id`, if any.
fn last_entry_for(tas: &Vec<TokenAnalysis>, id: usize) -> (r: Option<usize>)
    ensures
        r matches Some(k) ==> k < tas@.len() && tas@[k as int].stem_analyses@ == analyses_for(tas@, id),
        r is None ==> analyses_for(tas@, id) == Seq::<StemAnalysis>::empty(),
{
    let mut k: usize = tas.len();
    assert(tas@.take(k as int) =~= tas@);
    while k > 0
        invariant
            0 <= k <= tas@.len(),
            analyses_for(tas@, id) == analyses_for(tas@.take(k as int), id),
        decreases k,
    {
        let ghost t = tas@.take(k as int);
        assert(t.drop_last() == tas@.take(k - 1));
        if tas[k - 1].token_id == id {
            return Some(k - 1);
        }
        k = k - 1;
    }
    None
}

/// What the parser reads of the analyses `sas`.
fn read_analyses(sas: &Vec<StemAnalysis>) -> (r: Vec<TokenParseInfo>)
    ensures
        r@.map_values(|x: TokenParseInfo| parse_info_view(x)) == sas@.map_values(
            |sa: StemAnalysis| info_of(sa),
        ),
{
    let mut out: Vec<TokenParseInfo> = Vec::new();
    let mut j: usize = 0;
    while j < sas.len()
        invariant
            0 <= j <= sas@.len(),
            out@.map_values(|x: TokenParseInfo| parse_info_view(x)) == sas@.take(j as int).map_values(
                |sa: StemAnalysis| info_of(sa),
            ),
        decreases sas@.len() - j,
    {
        let sa = &sas[j];
        let root = match &sa.root {
            Some(r) => Some(chars_of(r.text.as_str())),
            None => None,
        };
        let x = TokenParseInfo { pos: sa.pos, stem: chars_of(sa.stem.as_str()), root };
        let ghost before = out@;
        out.push(x);
        assert(out@.map_values(|x: TokenParseInfo| parse_info_view(x)) =~= before.map_values(
            |x: TokenParseInfo| parse_info_view(x),
        ).push(parse_info_view(x)));
        assert(sas@.take(j + 1).map_values(|sa: StemAnalysis| info_of(sa)) =~= sas@.take(
            j as int,
        ).map_values(|sa: StemAnalysis| info_of(sa)).push(info_of(sas@[j as int])));
        j = j + 1;
    }
    assert(sas@.take(sas@.len() as int) =~= sas@);
    out
}

/// What the parser reads of each token of `ids`.
fn collect_token_info(tas: &Vec<TokenAnalysis>, ids: &Vec<usize>) -> (r: Vec<Vec<TokenParseInfo>>)
    ensures
        infos_view(r@) == token_infos(tas@, ids@),
{
    let mut out: Vec<Vec<TokenParseInfo>> = Vec::new();
    let mut i: usize = 0;
    while i < ids.len()
        invariant
            0 <= i <= ids@.len(),
            infos_view(out@) == token_infos(tas@, ids@.take(i as int)),
        decreases ids@.len() - i,
    {
        let infos = match last_entry_for(tas, ids[i]) {
            Some(k) => read_analyses(&tas[k].stem_analyses),
            None => Vec::new(),
        };
        proof {
            if infos@.len() == 0 {
                assert(infos@.map_values(|x: TokenParseInfo| parse_info_view(x)) =~= Seq::<Info>::empty());
                assert(analyses_for(tas@, ids@[i as int]).map_values(|sa: StemAnalysis| info_of(sa))
                    =~= Seq::<Info>::empty());
            }
        }
        let ghost before = out@;
        out.push(infos);
        assert(infos_view(out@) =~= infos_view(before).push(infos@.map_values(|x: TokenParseInfo| parse_info_view(x))));
        assert(token_infos(tas@, ids@.take(i + 1)) =~= token_infos(tas@, ids@.take(i as int)).push(
            analyses_for(tas@, ids@[i as int]).map_values(|sa: StemAnalysis| info_of(sa)),
        ));
        i = i + 1;
    }
    assert(ids@.take(ids@.len() as int) =~= ids@);
    out
}

/// Whether some analysis in `inf` has a part of speech of group `g`.
fn any_of_group(inf: &Vec<TokenParseInfo>, g: PosGroup) -> (r: bool)
    ensures
        r == any_in_group(inf@.map_values(|x: TokenParseInfo| parse_info_view(x)), g),
{
    let ghost v = inf@.map_values(|x: TokenParseInfo| parse_info_view(x));
    let mut j: usize = 0;
    while j < inf.len()
        invariant
            0 <= j <= inf@.len(),
            v == inf@.map_values(|x: TokenParseInfo| parse_info_view(x)),
            forall|k: int| 0 <= k < j ==> !in_group(g, #[trigger] v[k].0),
        decreases inf@.len() - j,
    {
        let p = inf[j].pos;
        let hit = match g {
            PosGroup::Verbal => p == PartOfSpeech::Verb,
            PosGroup::Nominal => p == PartOfSpeech::Noun || p == PartOfSpeech::Pronoun || p
                == PartOfSpeech::ProperNoun || p == PartOfSpeech::Adjective,
            PosGroup::Objective => p == PartOfSpeech::Noun || p == PartOfSpeech::Pronoun || p
                == PartOfSpeech::ProperNoun,
        };
        if hit {
            assert(in_group(g, v[j as int].0));
            return true;
        }
        j = j + 1;
    }
    false
}

/// The first index from `from` on of a token with an analysis in group `g`,
/// or the number of tokens.
fn first_in(infos: &Vec<Vec<TokenParseInfo>>, from: usize, g: PosGroup) -> (r: usize)
    ensures
        r == first_in_group(infos_view(infos@), from as int, g),
{
    let ghost iv = infos_view(infos@);
    let mut i: usize = from;
    if i >= infos.len() {
        return infos.len();
    }
    while i < infos.len()
        invariant
            from <= i <= infos@.len(),
            iv == infos_view(infos@),
            first_in_group(iv, from as int, g) == first_in_group(iv, i as int, g),
        decreases infos@.len() - i,
    {
        if any_of_group(&infos[i], g) {
            return i;
        }
        i = i + 1;
    }
    i
}

/// The part of speech of the first analysis of `inf`, or `Unknown`.
fn lead_pos_of(inf: &Vec<TokenParseInfo>) -> (r: PartOfSpeech)
    ensures
        r == lead_pos(inf@.map_values(|x: TokenParseInfo| parse_info_view(x))),
{
    if inf.len() > 0 {
        inf[0].pos
    } else {
        PartOfSpeech::Unknown
    }
}

/// The feature pair `(name, value)`.
fn feature(name: &str, value: &str) -> (r: (String, String))
    ensures
        r.0@ == name@,
        r.1@ == value@,
{
    (owned(name), owned(value))
}

/// The sentence-type feature of a clause.
fn sentence_type_feature(value: &str) -> (r: Vec<(String, String)>)
    ensures
        features_view(r@) == seq![("sentence_type"@, value@)],
{
    let mut f: Vec<(String, String)> = Vec::new();
    f.push(feature("sentence_type", value));
    assert(features_view(f@) =~= seq![("sentence_type"@, value@)]);
    f
}

/// Whether `stem` is one of the prepositions recognized by their stem.
fn is_preposition_stem_chars(stem: &Vec<char>) -> (r: bool)
    ensures
        r == is_preposition_stem(stem@),
{
    chars_eq(stem, &chars_of("\u{0628}\u{0650}")) || chars_eq(stem, &chars_of("\u{0644}\u{0650}"))
        || chars_eq(stem, &chars_of("\u{0643}\u{064E}")) || chars_eq(
        stem,
        &chars_of("\u{0641}\u{0650}\u{064A}"),
    ) || chars_eq(stem, &chars_of("\u{0645}\u{0650}\u{0646}")) || chars_eq(
        stem,
        &chars_of("\u{0625}\u{0650}\u{0644}\u{064E}\u{0649}"),
    ) || chars_eq(stem, &chars_of("\u{0639}\u{064E}\u{0644}\u{064E}\u{0649}")) || chars_eq(
        stem,
        &chars_of("\u{0639}\u{064E}\u{0646}\u{0652}"),
    )
}

impl SyntaxParser {
    /// A parser with the given configuration.
    pub fn new(config: SyntaxParserConfig) -> (r: Self)
        ensures
            r.config == config,
    {
        Self { config }
    }

    /// The features of token `index`: its first analysis's part of speech and,
    /// if known, root.
    fn make_features(&self, token_info: &Vec<Vec<TokenParseInfo>>, index: usize) -> (r: Vec<(String, String)>)
        ensures
            features_view(r@) == word_features(infos_view(token_info@), index as int),
    {
        let ghost iv = infos_view(token_info@);
        let mut map: Vec<(String, String)> = Vec::new();
        if index < token_info.len() && token_info[index].len() > 0 {
            let info = &token_info[index][0];
            assert(iv[index as int][0] == parse_info_view(*info));
            map.push(feature("pos", pos_debug_name(info.pos)));
            match &info.root {
                Some(root) => {
                    map.push((owned("root"), string_from_chars(root.as_slice())));
                },
                None => {},
            }
        }
        assert(features_view(map@) =~= word_features(iv, index as int));
        map
    }

    /// The features of the tokens from `start` on: their comma-joined
    /// part-of-speech sequence, if there is any.
    fn make_features_slice(&self, token_info: &Vec<Vec<TokenParseInfo>>, start: usize) -> (r: Vec<(String, String)>)
        requires
            start <= token_info@.len(),
        ensures
            features_view(r@) == sequence_features(infos_view(token_info@), start as int),
    {
        let ghost iv = infos_view(token_info@);
        let mut joined: Vec<char> = Vec::new();
        let mut count: usize = 0;
        let mut i: usize = start;
        while i < token_info.len()
            invariant
                iv == infos_view(token_info@),
                start <= i <= token_info@.len(),
                count == pos_names_between(iv, start as int, i as int).len(),
                count <= i - start,
                joined@ == join_commas(pos_names_between(iv, start as int, i as int)),
            decreases token_info@.len() - i,
        {
            if token_info[i].len() > 0 {
                let info = &token_info[i][0];
                assert(iv[i as int][0] == parse_info_view(*info));
                let ghost names = pos_names_between(iv, start as int, i as int);
                assert(pos_names_between(iv, start as int, i + 1) == names.push(pos_name(info.pos)));
                if count > 0 {
                    append_str(&mut joined, ",");
                }
                append_str(&mut joined, pos_debug_name(info.pos));
                proof {
                    let nn = names.push(pos_name(info.pos));
                    assert(nn.drop_last() == names);
                    if names.len() == 0 {
                        assert(joined@ =~= nn[0]);
                    }
                }
                count = count + 1;
            }
            i = i + 1;
        }
        let mut map: Vec<(String, String)> = Vec::new();
        if count > 0 {
            map.push((owned("pos_sequence"), string_from_chars(joined.as_slice())));
        }
        assert(features_view(map@) =~= sequence_features(iv, start as int));
        map
    }

    /// A word constituent of role `role` over `token_ids`, with `features`.
    fn make_word_constituent(
        &self,
        role: SyntacticRole,
        token_ids: Vec<usize>,
        features: Vec<(String, String)>,
    ) -> (r: Constituent)
        ensures
            is_word(r, role, token_ids@, features_view(features@)),
    {
        Constituent {
            node_type: NodeType::Word,
            role,
            token_ids,
            children: Vec::new(),
            features,
            implicit: false,
        }
    }

    /// The partial parse of the tokens: a clause with one word per token,
    /// its role read from the token's first part of speech.
    fn make_partial_parse(&self, token_ids: &Vec<usize>, token_info: &Vec<Vec<TokenParseInfo>>) -> (r:
        Constituent)
        requires
            token_ids@.len() == token_info@.len(),
        ensures
            is_partial_parse(r, token_ids@, infos_view(token_info@)),
    {
        let ghost iv = infos_view(token_info@);
        let mut children: Vec<Constituent> = Vec::new();
        let mut i: usize = 0;
        while i < token_ids.len()
            invariant
                iv == infos_view(token_info@),
                token_ids@.len() == token_info@.len(),
                0 <= i <= token_ids@.len(),
                children@.len() == i,
                forall|k: int|
                    0 <= k < i ==> is_word(
                        #[trigger] children@[k],
                        partial_role(iv[k]),
                        seq![token_ids@[k]],
                        Seq::empty(),
                    ),
            decreases token_ids@.len() - i,
        {
            let pos = lead_pos_of(&token_info[i]);
            assert(iv[i as int] == token_info@[i as int]@.map_values(|x: TokenParseInfo| parse_info_view(x)));
            let role = match pos {
                PartOfSpeech::Verb => SyntacticRole::FiL,
                PartOfSpeech::Particle | PartOfSpeech::Preposition => SyntacticRole::HarfJarr,
                PartOfSpeech::Conjunction => SyntacticRole::Idafa,
                _ => SyntacticRole::Unknown,
            };
            let none: Vec<(String, String)> = Vec::new();
            assert(features_view(none@) =~= Seq::<(Seq<char>, Seq<char>)>::empty());
            let c = self.make_word_constituent(role, single_id(token_ids[i]), none);
            children.push(c);
            i = i + 1;
        }
        let mut features: Vec<(String, String)> = Vec::new();
        features.push(feature("partial", "true"));
        assert(features_view(features@) =~= seq![("partial"@, "true"@)]);
        let all_ids = ids_from(token_ids, 0);
        assert(token_ids@.skip(0) =~= token_ids@);
        Constituent {
            node_type: NodeType::Clause,
            role: SyntacticRole::Unknown,
            token_ids: all_ids,
            children,
            features,
            implicit: false,
        }
    }
}

impl SyntaxParser {
    /// The words of a comment phrase: the tokens from `first` on, each a
    /// preposition (harf jarr) or a governed noun (majrur).
    fn parse_khabar_phrase(
        &self,
        token_ids: &Vec<usize>,
        token_info: &Vec<Vec<TokenParseInfo>>,
        first: usize,
    ) -> (r: Vec<Constituent>)
        requires
            token_ids@.len() == token_info@.len(),
            first <= token_ids@.len(),
        ensures
            r@.len() == token_ids@.len() - first,
            forall|k: int|
                0 <= k < token_ids@.len() - first ==> is_word(
                    #[trigger] r@[k],
                    khabar_child_role(infos_view(token_info@)[first + k]),
                    seq![token_ids@[first + k]],
                    Seq::empty(),
                ),
    {
        let ghost iv = infos_view(token_info@);
        let mut children: Vec<Constituent> = Vec::new();
        let mut i: usize = first;
        while i < token_ids.len()
            invariant
                iv == infos_view(token_info@),
                token_ids@.len() == token_info@.len(),
                first <= i <= token_ids@.len(),
                children@.len() == i - first,
                forall|k: int|
                    0 <= k < i - first ==> is_word(
                        #[trigger] children@[k],
                        khabar_child_role(iv[first + k]),
                        seq![token_ids@[first + k]],
                        Seq::empty(),
                    ),
            decreases token_ids@.len() - i,
        {
            let infos = &token_info[i];
            assert(iv[i as int] == infos@.map_values(|x: TokenParseInfo| parse_info_view(x)));
            let pos = lead_pos_of(infos);
            let empty_stem: Vec<char> = Vec::new();
            let stem = if infos.len() > 0 {
                &infos[0].stem
            } else {
                &empty_stem
            };
            let is_preposition = pos == PartOfSpeech::Preposition || pos == PartOfSpeech::Particle
                || is_preposition_stem_chars(stem);
            let role = if is_preposition {
                SyntacticRole::HarfJarr
            } else {
                SyntacticRole::Majrur
            };
            let none: Vec<(String, String)> = Vec::new();
            assert(features_view(none@) =~= Seq::<(Seq<char>, Seq<char>)>::empty());
            let c = self.make_word_constituent(role, single_id(token_ids[i]), none);
            let ghost before = children@;
            children.push(c);
            assert forall|k: int| 0 <= k < i + 1 - first implies is_word(
                #[trigger] children@[k],
                khabar_child_role(iv[first + k]),
                seq![token_ids@[first + k]],
                Seq::empty(),
            ) by {
                if k < i - first {
                    assert(children@[k] == before[k]);
                }
            }
            i = i + 1;
        }
        children
    }

    /// A word constituent for token `idx` with its features.
    fn slot_word(
        &self,
        role: SyntacticRole,
        token_ids: &Vec<usize>,
        token_info: &Vec<Vec<TokenParseInfo>>,
        idx: usize,
    ) -> (r: Constituent)
        requires
            idx < token_ids@.len(),
        ensures
            is_word(r, role, seq![token_ids@[idx as int]], word_features(infos_view(token_info@), idx as int)),
    {
        let f = self.make_features(token_info, idx);
        self.make_word_constituent(role, single_id(token_ids[idx]), f)
    }

    /// The verbal reading of a sentence: verb, subject and up to two objects,
    /// or a partial parse (confidence 0.3) if there is no verb and it is allowed.
    fn parse_verbal_sentence(&self, token_ids: &Vec<usize>, token_info: &Vec<Vec<TokenParseInfo>>) -> (r:
        Vec<(Constituent, u32)>)
        requires
            token_ids@.len() == token_info@.len(),
        ensures
            r@.len() == verbal_kinds(self.config, infos_view(token_info@)).len(),
            forall|j: int|
                0 <= j < r@.len() ==> {
                    let k = verbal_kinds(self.config, infos_view(token_info@))[j];
                    &&& is_parse_of_kind(#[trigger] r@[j].0, k, token_ids@, infos_view(token_info@))
                    &&& r@[j].1 == kind_confidence(k, infos_view(token_info@))
                },
    {
        let ghost iv = infos_view(token_info@);
        let n = token_info.len();
        let mut results: Vec<(Constituent, u32)> = Vec::new();
        let verb_pos = first_in(token_info, 0, PosGroup::Verbal);
        if verb_pos >= n {
            if self.config.enable_partial_parse {
                results.push((self.make_partial_parse(token_ids, token_info), 300_000));
            }
            return results;
        }
        let ghost slots = verbal_slots(iv);
        let mut children: Vec<Constituent> = Vec::new();
        let mut confidence_sum: u32 = 0;
        let mut confidence_count: u32 = 0;
        children.push(self.slot_word(SyntacticRole::FiL, token_ids, token_info, verb_pos));
        confidence_sum = confidence_sum + 800_000;
        confidence_count = confidence_count + 1;
        let subj = first_in(token_info, verb_pos + 1, PosGroup::Nominal);
        if subj < n {
            children.push(self.slot_word(SyntacticRole::Fail, token_ids, token_info, subj));
            confidence_sum = confidence_sum + 700_000;
            confidence_count = confidence_count + 1;
            let obj1 = first_in(token_info, subj + 1, PosGroup::Objective);
            if obj1 < n {
                children.push(self.slot_word(SyntacticRole::MafulBiHi, token_ids, token_info, obj1));
                confidence_sum = confidence_sum + 500_000;
                confidence_count = confidence_count + 1;
                let obj2 = first_in(token_info, obj1 + 1, PosGroup::Objective);
                if obj2 < n {
                    children.push(
                        self.slot_word(SyntacticRole::MafulBiHi, token_ids, token_info, obj2),
                    );
                    confidence_sum = confidence_sum + 500_000;
                    confidence_count = confidence_count + 1;
                    assert(slots =~= seq![
                        (SyntacticRole::FiL, verb_pos as int),
                        (SyntacticRole::Fail, subj as int),
                        (SyntacticRole::MafulBiHi, obj1 as int),
                        (SyntacticRole::MafulBiHi, obj2 as int),
                    ]);
                } else {
                    assert(slots =~= seq![
                        (SyntacticRole::FiL, verb_pos as int),
                        (SyntacticRole::Fail, subj as int),
                        (SyntacticRole::MafulBiHi, obj1 as int),
                    ]);
                }
            } else {
                assert(slots =~= seq![(SyntacticRole::FiL, verb_pos as int), (SyntacticRole::Fail, subj as int)]);
            }
        } else {
            assert(slots =~= seq![(SyntacticRole::FiL, verb_pos as int)]);
        }
        proof {
            reveal_with_fuel(slot_weight_sum, 5);
            assert(slots.len() == confidence_count);
            assert(slot_weight_sum(slots) == confidence_sum);
            assert forall|j: int| 0 <= j < slots.len() implies is_word(
                #[trigger] children@[j],
                slots[j].0,
                seq![token_ids@[slots[j].1]],
                word_features(iv, slots[j].1),
            ) by {}
        }
        let confidence = confidence_sum / confidence_count;
        let root = Constituent {
            node_type: NodeType::Clause,
            role: SyntacticRole::FiL,
            token_ids: ids_from(token_ids, 0),
            children,
            features: sentence_type_feature("jumlah_fi'liyyah"),
            implicit: false,
        };
        assert(token_ids@.skip(0) =~= token_ids@);
        results.push((root, confidence));
        results
    }

    /// The nominal reading of a sentence: a lone topic for one token; else
    /// the first nominal token as topic and the tokens after it as comment;
    /// or a partial parse (confidence 0.2) if no token is nominal and it is allowed.
    fn parse_nominal_sentence(&self, token_ids: &Vec<usize>, token_info: &Vec<Vec<TokenParseInfo>>) -> (r:
        Vec<(Constituent, u32)>)
        requires
            token_ids@.len() == token_info@.len(),
            token_ids@.len() > 0,
        ensures
            r@.len() == nominal_kinds(self.config, infos_view(token_info@)).len(),
            forall|j: int|
                0 <= j < r@.len() ==> {
                    let k = nominal_kinds(self.config, infos_view(token_info@))[j];
                    &&& is_parse_of_kind(#[trigger] r@[j].0, k, token_ids@, infos_view(token_info@))
                    &&& r@[j].1 == kind_confidence(k, infos_view(token_info@))
                },
    {
        let ghost iv = infos_view(token_info@);
        let n = token_info.len();
        let mut results: Vec<(Constituent, u32)> = Vec::new();
        assert(token_ids@.skip(0) =~= token_ids@);
        if token_ids.len() < 2 {
            let f = self.make_features(token_info, 0);
            let topic = self.make_word_constituent(SyntacticRole::Mubtada, ids_from(token_ids, 0), f);
            let mut children: Vec<Constituent> = Vec::new();
            children.push(topic);
            let root = Constituent {
                node_type: NodeType::Clause,
                role: SyntacticRole::Mubtada,
                token_ids: ids_from(token_ids, 0),
                children,
                features: sentence_type_feature("jumlah_ismiyyah"),
                implicit: false,
            };
            results.push((root, 400_000));
            return results;
        }
        let mub_idx = first_in(token_info, 0, PosGroup::Nominal);
        if mub_idx >= n {
            if self.config.enable_partial_parse {
                results.push((self.make_partial_parse(token_ids, token_info), 200_000));
            }
            return results;
        }
        let mut children: Vec<Constituent> = Vec::new();
        let mut confidence_sum: u32 = 0;
        let mut confidence_count: u32 = 0;
        children.push(self.slot_word(SyntacticRole::Mubtada, token_ids, token_info, mub_idx));
        confidence_sum = confidence_sum + 700_000;
        confidence_count = confidence_count + 1;
        if mub_idx + 1 < n {
            let first = mub_idx + 1;
            let khabar_children = self.parse_khabar_phrase(token_ids, token_info, first);
            let khabar_role = if khabar_children[0].role == SyntacticRole::HarfJarr {
                SyntacticRole::Majrur
            } else {
                SyntacticRole::Khabar
            };
            let phrase = Constituent {
                node_type: NodeType::Phrase,
                role: khabar_role,
                token_ids: ids_from(token_ids, first),
                children: khabar_children,
                features: self.make_features_slice(token_info, first),
                implicit: false,
            };
            children.push(phrase);
            confidence_sum = confidence_sum + 600_000;
            confidence_count = confidence_count + 1;
        }
        let confidence = confidence_sum / confidence_count;
        let root = Constituent {
            node_type: NodeType::Clause,
            role: SyntacticRole::Mubtada,
            token_ids: ids_from(token_ids, 0),
            children,
            features: sentence_type_feature("jumlah_ismiyyah"),
            implicit: false,
        };
        results.push((root, confidence));
        results
    }
}

/// A sentence has at most two readings.
pub proof fn lemma_sentence_kinds_len(cfg: SyntaxParserConfig, infos: Seq<Seq<Info>>)
    ensures
        sentence_kinds(cfg, infos).len() <= 2,
{
}

/// Each reading `rv[j]` is a parse of kind `kinds[j]` with that kind's confidence.
spec fn readings_match(
    rv: Seq<(Constituent, u32)>,
    kinds: Seq<ParseKind>,
    ids: Seq<usize>,
    infos: Seq<Seq<Info>>,
) -> bool {
    &&& rv.len() == kinds.len()
    &&& forall|j: int|
        0 <= j < rv.len() ==> {
            &&& is_parse_of_kind(#[trigger] rv[j].0, kinds[j], ids, infos)
            &&& rv[j].1 == kind_confidence(kinds[j], infos)
        }
}

/// The id of parse tree number `k` of the sentence starting at `start`.
fn tree_id(start: usize, k: usize) -> (r: String)
    ensures
        r@ == "tree-"@ + decimal(start as nat) + "-"@ + decimal(k as nat),
{
    let mut id: Vec<char> = Vec::new();
    append_str(&mut id, "tree-");
    push_decimal(&mut id, start as u64);
    append_str(&mut id, "-");
    push_decimal(&mut id, k as u64);
    string_from_chars(id.as_slice())
}

impl SyntaxParser {
    /// Whether token `token_id` ends a sentence; no token does, since the
    /// analyses carry no punctuation.
    fn is_sentence_boundary(&self, token_id: usize, tas: &Vec<TokenAnalysis>) -> (r: bool)
        ensures
            !r,
    {
        if last_entry_for(tas, token_id).is_none() {
            return false;
        }
        false
    }

    /// The sentences of the analyzed tokens, ordered by token id: one
    /// sentence holding every distinct token id, or none without tokens.
    fn segment_sentences(&self, input: &MorphologicalAnalysis) -> (r: Vec<Sentence>)
        ensures
            sorted_token_ids(input.token_analyses@).len() == 0 ==> r@.len() == 0,
            sorted_token_ids(input.token_analyses@).len() > 0 ==> {
                &&& r@.len() == 1
                &&& r@[0].token_ids@ == sorted_token_ids(input.token_analyses@)
                &&& r@[0].start == 0
            },
    {
        let tas = &input.token_analyses;
        let mut all_token_ids: Vec<usize> = Vec::new();
        let mut i: usize = 0;
        assert(tas@.take(0) =~= Seq::<TokenAnalysis>::empty());
        while i < tas.len()
            invariant
                0 <= i <= tas@.len(),
                all_token_ids@ == sorted_token_ids(tas@.take(i as int)),
            decreases tas@.len() - i,
        {
            assert(tas@.take(i + 1).drop_last() =~= tas@.take(i as int));
            insert_token_id(&mut all_token_ids, tas[i].token_id);
            i = i + 1;
        }
        assert(tas@.take(tas@.len() as int) =~= tas@);
        let mut sentences: Vec<Sentence> = Vec::new();
        let n = all_token_ids.len();
        if n == 0 {
            return sentences;
        }
        let mut start: usize = 0;
        let mut k: usize = 0;
        while k < n
            invariant
                n == all_token_ids@.len(),
                0 <= k <= n,
                start == 0,
                sentences@.len() == 0,
            decreases n - k,
        {
            if self.is_sentence_boundary(all_token_ids[k], tas) {
                let end = k + 1;
                sentences.push(Sentence { token_ids: ids_from(&all_token_ids, start), start, end });
                start = end;
            }
            k = k + 1;
        }
        if start < n {
            let rest = ids_from(&all_token_ids, start);
            assert(all_token_ids@.skip(0) =~= all_token_ids@);
            sentences.push(Sentence { token_ids: rest, start, end: n });
        }
        sentences
    }

    /// Every reading of one sentence, with the sentence type its first word opens.
    fn parse_sentence(&self, input: &MorphologicalAnalysis, sentence: &Sentence) -> (r: Vec<ParsedSentence>)
        ensures
            sentence.token_ids@.len() == 0 ==> r@.len() == 0,
            sentence.token_ids@.len() > 0 ==> {
                let infos = token_infos(input.token_analyses@, sentence.token_ids@);
                let kinds = sentence_kinds(self.config, infos);
                &&& r@.len() == kinds.len()
                &&& forall|j: int|
                    0 <= j < r@.len() ==> {
                        &&& is_parse_of_kind(
                            #[trigger] r@[j].constituent,
                            kinds[j],
                            sentence.token_ids@,
                            infos,
                        )
                        &&& r@[j].confidence == kind_confidence(kinds[j], infos)
                        &&& r@[j].sentence_type == sentence_type_for(lead_pos(infos[0]))
                    }
            },
    {
        let token_ids = &sentence.token_ids;
        if token_ids.len() == 0 {
            return Vec::new();
        }
        let token_info = collect_token_info(&input.token_analyses, token_ids);
        let ghost iv = infos_view(token_info@);
        assert(iv.len() == token_ids@.len());
        assert(iv[0] == token_info@[0]@.map_values(|x: TokenParseInfo| parse_info_view(x)));
        let first_pos = lead_pos_of(&token_info[0]);
        let sentence_type = match first_pos {
            PartOfSpeech::Verb => SentenceType::JumlahFiliyyah,
            PartOfSpeech::Particle => SentenceType::JumlahShartiyyah,
            PartOfSpeech::Noun | PartOfSpeech::Pronoun | PartOfSpeech::Adjective
            | PartOfSpeech::ProperNoun => SentenceType::JumlahIsmiyyah,
            _ => SentenceType::Unknown,
        };
        let ghost kinds = sentence_kinds(self.config, iv);
        let results = if sentence_type == SentenceType::JumlahFiliyyah {
            self.parse_verbal_sentence(token_ids, &token_info)
        } else if sentence_type == SentenceType::JumlahIsmiyyah {
            self.parse_nominal_sentence(token_ids, &token_info)
        } else {
            let mut results = self.parse_verbal_sentence(token_ids, &token_info);
            let ghost verbal = results@;
            let mut nominal = self.parse_nominal_sentence(token_ids, &token_info);
            results.append(&mut nominal);
            let ghost vk = verbal_kinds(self.config, iv);
            let ghost nk = nominal_kinds(self.config, iv);
            assert forall|j: int| 0 <= j < results@.len() implies {
                let k = (vk + nk)[j];
                &&& is_parse_of_kind(#[trigger] results@[j].0, k, token_ids@, iv)
                &&& results@[j].1 == kind_confidence(k, iv)
            } by {
                if j < vk.len() {
                    assert(results@[j] == verbal[j]);
                } else {
                    assert((vk + nk)[j] == nk[j - vk.len()]);
                }
            }
            if results.len() == 0 && self.config.enable_partial_parse {
                let partial = self.make_partial_parse(token_ids, &token_info);
                results.push((partial, 200_000));
            }
            results
        };
        let mut parsed: Vec<ParsedSentence> = Vec::new();
        let ghost rv = results@;
        assert(sentence_type == sentence_type_for(lead_pos(iv[0])));
        assert(readings_match(rv, kinds, token_ids@, iv));
        for item in it: results.into_iter()
            invariant
                it.seq() == rv,
                iv.len() > 0,
                sentence_type == sentence_type_for(lead_pos(iv[0])),
                readings_match(rv, kinds, token_ids@, iv),
                parsed@.len() == it.index(),
                forall|j: int|
                    0 <= j < it.index() ==> {
                        &&& is_parse_of_kind(#[trigger] parsed@[j].constituent, kinds[j], token_ids@, iv)
                        &&& parsed@[j].confidence == kind_confidence(kinds[j], iv)
                        &&& parsed@[j].sentence_type == sentence_type_for(lead_pos(iv[0]))
                    },
        {
            let ghost idx: int = it.index() as int;
            assert(is_parse_of_kind(rv[idx].0, kinds[idx], token_ids@, iv));
            let (constituent, confidence) = item;
            let ghost before = parsed@;
            parsed.push(ParsedSentence { constituent, sentence_type, confidence });
            assert forall|j: int| 0 <= j < idx + 1 implies {
                &&& is_parse_of_kind(#[trigger] parsed@[j].constituent, kinds[j], token_ids@, iv)
                &&& parsed@[j].confidence == kind_confidence(kinds[j], iv)
                &&& parsed@[j].sentence_type == sentence_type_for(lead_pos(iv[0]))
            } by {
                if j < idx {
                    assert(parsed@[j] == before[j]);
                }
            }
        }
        parsed
    }
}

impl SyntaxParser {
    /// Parses the analyzed tokens: the tokens, ordered by id, form one
    /// sentence, whose readings become parse trees, most confident first and
    /// at most `max_parse_trees` of them. A sentence longer than
    /// `max_sentence_length` is refused.
    pub fn parse(&self, input: MorphologicalAnalysis) -> (r: PipelineResult<SyntaxTree>)
        ensures
            parse_outcome(self.config, input, r),
            r matches Ok(t) ==> by_confidence(t.trees@),
    {
        self.parse_analysis(&input)
    }

    /// Parses the analyzed tokens without taking the analysis; the result is
    /// that of `parse`.
    pub fn parse_analysis(&self, input: &MorphologicalAnalysis) -> (r: PipelineResult<SyntaxTree>)
        ensures
            parse_outcome(self.config, *input, r),
            r matches Ok(t) ==> by_confidence(t.trees@),
    {
        let sentences = self.segment_sentences(input);
        let ghost tas = input.token_analyses@;
        let ghost ids = sorted_token_ids(tas);
        if sentences.len() == 0 {
            return Ok(
                SyntaxTree {
                    spec: owned("SPEC-0001"),
                    version: owned("1.0"),
                    trees: Vec::new(),
                    metadata: SyntaxTreeMetadata {
                        sentence_count: 0,
                        tokens_parsed: 0,
                        ambiguity_count: 0,
                        parse_time_ms: 0,
                    },
                },
            );
        }
        // The tokens form a single sentence.
        let sentence = &sentences[0];
        if sentence.token_ids.len() > self.config.max_sentence_length {
            return Err(
                SyntaxError::SentenceTooLong {
                    token_count: sentence.token_ids.len(),
                    max_length: self.config.max_sentence_length,
                }.into_pipeline("MOD-05"),
            );
        }
        let ghost infos = token_infos(tas, ids);
        let ghost kinds = sentence_kinds(self.config, infos);
        proof {
            lemma_sentence_kinds_len(self.config, infos);
        }
        let parsed = self.parse_sentence(input, sentence);
        let mut source: Vec<char> = Vec::new();
        append_str(&mut source, "agos-");
        append_str(&mut source, self.config.school.as_str());
        let mut trees: Vec<ParseTree> = Vec::new();
        let mut total_ambiguity: u64 = 0;
        let ghost pv = parsed@;
        assert(kinds.take(0) =~= Seq::<ParseKind>::empty());
        for p in it: parsed.into_iter()
            invariant
                it.seq() == pv,
                pv.len() == kinds.len(),
                kinds.len() <= 2,
                ids.len() > 0,
                infos.len() == ids.len(),
                sentence.start == 0,
                source@ == "agos-"@ + school_name(self.config.school),
                forall|j: int|
                    0 <= j < pv.len() ==> {
                        &&& is_parse_of_kind(#[trigger] pv[j].constituent, kinds[j], ids, infos)
                        &&& pv[j].confidence == kind_confidence(kinds[j], infos)
                        &&& pv[j].sentence_type == sentence_type_for(lead_pos(infos[0]))
                    },
                trees@.len() == it.index(),
                forall|j: int|
                    0 <= j < it.index() ==> is_tree(#[trigger] trees@[j], j, kinds[j], self.config, ids, infos),
                total_ambiguity == low_confidence_count(kinds.take(it.index() as int), infos),
                total_ambiguity <= it.index(),
        {
            let ghost idx: int = it.index() as int;
            assert(is_parse_of_kind(pv[idx].constituent, kinds[idx], ids, infos));
            assert(kinds.take(idx + 1).drop_last() =~= kinds.take(idx));
            let confidence = p.confidence;
            let t = ParseTree {
                id: tree_id(sentence.start, trees.len()),
                tree_type: p.sentence_type,
                root: p.constituent,
                confidence,
                source: string_from_chars(source.as_slice()),
            };
            let ghost before = trees@;
            trees.push(t);
            assert forall|j: int| 0 <= j < idx + 1 implies is_tree(
                #[trigger] trees@[j],
                j,
                kinds[j],
                self.config,
                ids,
                infos,
            ) by {
                if j < idx {
                    assert(trees@[j] == before[j]);
                }
            }
            if confidence < 700_000 {
                total_ambiguity = total_ambiguity + 1;
            }
        }
        assert(kinds.take(kinds.len() as int) =~= kinds);
        let ghost confs = kinds.map_values(|k: ParseKind| kind_confidence(k, infos));
        let ghost order = kept_order(confs, self.config.max_parse_trees);
        let ghost all = trees@;
        // Most confident first (a sentence has at most two parses), then cut.
        if trees.len() == 2 && trees[1].confidence > trees[0].confidence {
            let second = trees.pop();
            let first = trees.pop();
            match (second, first) {
                (Some(b), Some(a)) => {
                    trees.push(b);
                    trees.push(a);
                },
                _ => {},
            }
            assert(trees@ =~= seq![all[1], all[0]]);
        }
        assert(by_confidence(trees@));
        if trees.len() > self.config.max_parse_trees {
            trees.truncate(self.config.max_parse_trees);
        }
        assert(by_confidence(trees@));
        assert forall|j: int| 0 <= j < order.len() implies is_tree(
            #[trigger] trees@[j],
            order[j],
            kinds[order[j]],
            self.config,
            ids,
            infos,
        ) by {
            if kinds.len() == 2 && confs[1] > confs[0] {
                assert(order[j] == seq![1int, 0int][j]);
            } else {
                assert(order[j] == j);
            }
        }
        let metadata = SyntaxTreeMetadata {
            sentence_count: 1,
            tokens_parsed: sentence.token_ids.len() as u64,
            ambiguity_count: total_ambiguity,
            parse_time_ms: 0,
        };
        Ok(SyntaxTree { spec: owned("SPEC-0001"), version: owned("1.0"), trees, metadata })
    }
}

impl PipelineStage<MorphologicalAnalysis, SyntaxTree> for SyntaxParser {
    fn stage_id(&self) -> (r: &'static str)
        ensures
            r@ == "MOD-05"@,
    {
        "MOD-05"
    }

    fn process(&self, input: MorphologicalAnalysis, ctx: &PipelineContext) -> (r: PipelineResult<
        SyntaxTree,
    >)
        ensures
            parse_outcome(self.config, input, r),
    {
        self.parse(input)
    }

    fn validate_config(&self, ctx: &PipelineContext) -> (r: PipelineResult<()>)
        ensures
            self.config.max_parse_trees == 0 ==> (r matches Err(e) && crate::error::is_plain_error(
                e,
                codes::INVALID_REQUEST@,
                "SyntaxParserConfig.max_parse_trees must be > 0"@,
                "MOD-05"@,
                true,
            )),
            self.config.max_parse_trees > 0 ==> r is Ok,
    {
        if self.config.max_parse_trees == 0 {
            return Err(
                PipelineError::fatal(
                    codes::INVALID_REQUEST,
                    "SyntaxParserConfig.max_parse_trees must be > 0",
                    "MOD-05",
                ),
            );
        }
        Ok(())
    }
}

impl Default for SyntaxParser {
    fn default() -> (r: Self)
        ensures
            r.config.school == GrammarSchool::Basra,
            r.config.max_parse_trees == 8,
            r.config.max_sentence_length == 200,
            r.config.enable_partial_parse,
    {
        Self::new(SyntaxParserConfig::default())
    }
}

/// `ids` ascend strictly.
pub open spec fn strictly_ascending(ids: Seq<usize>) -> bool {
    forall|i: int, j: int| 0 <= i < j < ids.len() ==> ids[i] < ids[j]
}

proof fn lemma_insert_sorted(ids: Seq<usize>, id: usize)
    requires
        strictly_ascending(ids),
    ensures
        strictly_ascending(insert_sorted(ids, id)),
        forall|x: usize| #[trigger] insert_sorted(ids, id).contains(x) <==> (ids.contains(x) || x == id),
    decreases ids.len(),
{
    if ids.len() > 0 && ids.last() > id {
        let t = ids.drop_last();
        lemma_insert_sorted(t, id);
        let r = insert_sorted(t, id);
        let rp = r.push(ids.last());
        assert forall|x: usize| rp.contains(x) <==> (ids.contains(x) || x == id) by {
            if rp.contains(x) {
                let k = choose|k: int| 0 <= k < rp.len() && rp[k] == x;
                if k == r.len() {
                    assert(ids[ids.len() - 1] == x);
                } else {
                    assert(r[k] == x);
                    assert(r.contains(x));
                    if t.contains(x) {
                        let k2 = choose|k2: int| 0 <= k2 < t.len() && t[k2] == x;
                        assert(ids[k2] == x);
                    }
                }
            }
            if ids.contains(x) {
                let k = choose|k: int| 0 <= k < ids.len() && ids[k] == x;
                if k == ids.len() - 1 {
                    assert(rp[r.len() as int] == x);
                } else {
                    assert(t[k] == x);
                    assert(t.contains(x));
                    assert(r.contains(x));
                    let k2 = choose|k2: int| 0 <= k2 < r.len() && r[k2] == x;
                    assert(rp[k2] == x);
                }
            }
            if x == id {
                assert(r.contains(x));
                let k2 = choose|k2: int| 0 <= k2 < r.len() && r[k2] == x;
                assert(rp[k2] == x);
            }
        }
        assert forall|i: int, j: int| 0 <= i < j < r.push(ids.last()).len() implies r.push(ids.last())[i]
            < r.push(ids.last())[j] by {
            if j == r.len() {
                let v = r[i];
                assert(r.contains(v));
                if t.contains(v) {
                    let k = choose|k: int| 0 <= k < t.len() && t[k] == v;
                    assert(ids[k] < ids[ids.len() - 1]);
                }
            }
        }
    } else if ids.len() > 0 && ids.last() < id {
        assert forall|x: usize| ids.push(id).contains(x) <==> (ids.contains(x) || x == id) by {
            if ids.push(id).contains(x) && x != id {
                let k = choose|k: int| 0 <= k < ids.push(id).len() && ids.push(id)[k] == x;
                assert(ids[k] == x);
            }
            if ids.contains(x) {
                let k = choose|k: int| 0 <= k < ids.len() && ids[k] == x;
                assert(ids.push(id)[k] == x);
            }
            if x == id {
                assert(ids.push(id)[ids.len() as int] == x);
            }
        }
    } else if ids.len() > 0 {
        assert(ids[ids.len() - 1] == id);
    } else {
        assert(seq![id][0] == id);
    }
}

/// The sentence's tokens are the distinct token ids of the analyses, in
/// ascending order.
pub proof fn lemma_sorted_token_ids(tas: Seq<TokenAnalysis>)
    ensures
        strictly_ascending(sorted_token_ids(tas)),
        forall|x: usize|
            sorted_token_ids(tas).contains(x) <==> exists|k: int|
                0 <= k < tas.len() && #[trigger] tas[k].token_id == x,
    decreases tas.len(),
{
    if tas.len() > 0 {
        let t = tas.drop_last();
        lemma_sorted_token_ids(t);
        lemma_insert_sorted(sorted_token_ids(t), tas.last().token_id);
        assert forall|x: usize|
            sorted_token_ids(tas).contains(x) <==> exists|k: int|
                0 <= k < tas.len() && #[trigger] tas[k].token_id == x by {
            if exists|k: int| 0 <= k < tas.len() && #[trigger] tas[k].token_id == x {
                let k = choose|k: int| 0 <= k < tas.len() && #[trigger] tas[k].token_id == x;
                if k < tas.len() - 1 {
                    assert(t[k].token_id == x);
                }
            }
            if sorted_token_ids(t).contains(x) {
                let k = choose|k: int| 0 <= k < t.len() && #[trigger] t[k].token_id == x;
                assert(tas[k].token_id == x);
            }
            if x == tas.last().token_id {
                assert(tas[tas.len() - 1].token_id == x);
            }
        }
    }
}

/// Parsing is deterministic: two results for the same input and
/// configuration agree on success, and on every tree's id, type and
/// confidence.
pub proof fn lemma_parse_deterministic(
    cfg: SyntaxParserConfig,
    input: MorphologicalAnalysis,
    r1: PipelineResult<SyntaxTree>,
    r2: PipelineResult<SyntaxTree>,
)
    requires
        parse_outcome(cfg, input, r1),
        parse_outcome(cfg, input, r2),
    ensures
        r1 is Ok <==> r2 is Ok,
        r1 matches Ok(a) ==> r2 matches Ok(b) && a.trees@.len() == b.trees@.len() && a.metadata
            == b.metadata && forall|j: int|
            0 <= j < a.trees@.len() ==> {
                &&& #[trigger] a.trees@[j].id@ == b.trees@[j].id@
                &&& a.trees@[j].tree_type == b.trees@[j].tree_type
                &&& a.trees@[j].confidence == b.trees@[j].confidence
            },
{
}

proof fn lemma_insert_sorted_len(ids: Seq<usize>, id: usize)
    requires
        !ids.contains(id),
    ensures
        insert_sorted(ids, id).len() == ids.len() + 1,
    decreases ids.len(),
{
    if ids.len() > 0 && ids.last() > id {
        let t = ids.drop_last();
        assert forall|x: usize| t.contains(x) implies ids.contains(x) by {
            let k = choose|k: int| 0 <= k < t.len() && t[k] == x;
            assert(ids[k] == x);
        }
        lemma_insert_sorted_len(t, id);
    } else if ids.len() > 0 {
        assert(ids[ids.len() - 1] == ids.last());
    }
}

/// When the analyses name distinct tokens, every analyzed token is parsed:
/// the sentence holds as many tokens as there are token analyses.
pub proof fn lemma_every_analyzed_token_parsed(tas: Seq<TokenAnalysis>)
    requires
        forall|i: int, j: int| 0 <= i < j < tas.len() ==> #[trigger] tas[i].token_id != #[trigger] tas[j].token_id,
    ensures
        sorted_token_ids(tas).len() == tas.len(),
    decreases tas.len(),
{
    if tas.len() > 0 {
        let t = tas.drop_last();
        assert forall|i: int, j: int| 0 <= i < j < t.len() implies #[trigger] t[i].token_id != #[trigger] t[j].token_id by {
            assert(t[i] == tas[i] && t[j] == tas[j]);
        }
        lemma_every_analyzed_token_parsed(t);
        lemma_sorted_token_ids(t);
        let id = tas.last().token_id;
        if sorted_token_ids(t).contains(id) {
            let k = choose|k: int| 0 <= k < t.len() && #[trigger] t[k].token_id == id;
            assert(tas[k].token_id == tas[tas.len() - 1].token_id);
        }
        lemma_insert_sorted_len(sorted_token_ids(t), id);
    }
}

} // verus!
