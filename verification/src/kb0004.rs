//! KB-0004: the pattern part-of-speech database.
//!
//! Stem-level part-of-speech overrides, verb-form profiles and noun-pattern
//! profiles, each with a confidence in millionths. Stems and noun patterns
//! are keys: adding an entry for a key that is present replaces it.

use vstd::prelude::*;

use crate::text::chars_eq;
use crate::types::PartOfSpeech;

verus! {

/// A stem-level part-of-speech override.
#[derive(Debug, Clone)]
pub struct StemOverrideEntry {
    /// The stem text (e.g., "رجل", "كتب")
    pub stem_text: String,
    /// Primary part of speech for this stem
    pub pos: PartOfSpeech,
    /// Confidence in millionths
    pub confidence: u32,
    /// Secondary part of speech for genuinely ambiguous stems
    pub secondary_pos: Option<PartOfSpeech>,
    /// Source of this override
    pub source: String,
    /// Optional semantic category (e.g., "body", "food", "abstract")
    pub category: Option<String>,
}

/// A verb-form part-of-speech profile.
#[derive(Debug, Clone)]
pub struct VerbPosProfile {
    /// Verb form number (1–15)
    pub verb_form: u8,
    /// Canonical pattern (e.g., "فَعَلَ")
    pub canonical_pattern: String,
    /// Template script (e.g., "C₁aC₂aC₃a")
    pub template_script: String,
    /// Default part of speech for this verb form
    pub default_pos: PartOfSpeech,
    /// Base confidence in millionths
    pub default_confidence: u32,
    /// Boosted confidence (millionths) for stems known as verbs
    pub boosted_confidence: Option<u32>,
    /// Minimum stem length in characters
    pub min_stem_len: usize,
    /// Maximum stem length in characters
    pub max_stem_len: usize,
    /// Expected prefix pattern, if any
    pub prefix_pattern: Option<String>,
    /// Root types this pattern applies to
    pub root_type_applicability: Vec<String>,
}

/// A noun-pattern part-of-speech profile.
#[derive(Debug, Clone)]
pub struct NounPosProfile {
    /// Canonical pattern (e.g., "فَاعِل")
    pub canonical_pattern: String,
    /// Template script
    pub template_script: String,
    /// Default part of speech for this noun pattern
    pub default_pos: PartOfSpeech,
    /// Base confidence in millionths
    pub default_confidence: u32,
    /// Minimum stem length in characters
    pub min_stem_len: usize,
    /// Maximum stem length in characters
    pub max_stem_len: usize,
    /// Noun type classification (e.g., "masdar", "ism_fail")
    pub noun_type: Option<String>,
}

/// The loaded KB-0004 data.
#[derive(Debug)]
pub struct Kb0004 {
    stem_overrides: Vec<StemOverrideEntry>,
    verb_profiles: Vec<VerbPosProfile>,
    noun_profiles: Vec<NounPosProfile>,
}

/// No two entries of `s` have the same stem.
pub open spec fn distinct_stems(s: Seq<StemOverrideEntry>) -> bool {
    forall|i: int, j: int|
        0 <= i < j < s.len() ==> #[trigger] s[i].stem_text@ != #[trigger] s[j].stem_text@
}

/// No two entries of `s` have the same pattern.
pub open spec fn distinct_patterns(s: Seq<NounPosProfile>) -> bool {
    forall|i: int, j: int|
        0 <= i < j < s.len() ==> #[trigger] s[i].canonical_pattern@
            != #[trigger] s[j].canonical_pattern@
}

/// The entry of `s` for `key`, if any.
pub open spec fn entry_for_stem(s: Seq<StemOverrideEntry>, key: Seq<char>) -> Option<StemOverrideEntry> {
    if exists|i: int| 0 <= i < s.len() && #[trigger] s[i].stem_text@ == key {
        Some(s[choose|i: int| 0 <= i < s.len() && #[trigger] s[i].stem_text@ == key])
    } else {
        None
    }
}

/// The profile of `s` for `key`, if any.
pub open spec fn profile_for_pattern(s: Seq<NounPosProfile>, key: Seq<char>) -> Option<NounPosProfile> {
    if exists|i: int| 0 <= i < s.len() && #[trigger] s[i].canonical_pattern@ == key {
        Some(s[choose|i: int| 0 <= i < s.len() && #[trigger] s[i].canonical_pattern@ == key])
    } else {
        None
    }
}

/// The profiles of `s` for verb form `form`, in order.
pub open spec fn profiles_for_form(s: Seq<VerbPosProfile>, form: u8) -> Seq<VerbPosProfile> {
    s.filter(|p: VerbPosProfile| p.verb_form == form)
}

/// The largest default confidence of `ps`, or 0.
pub open spec fn max_default_confidence(ps: Seq<VerbPosProfile>) -> u32
    decreases ps.len(),
{
    if ps.len() == 0 {
        0
    } else {
        let m = max_default_confidence(ps.drop_last());
        if ps.last().default_confidence > m {
            ps.last().default_confidence
        } else {
            m
        }
    }
}

/// The smallest boosted confidence of `ps`, if any profile has one.
pub open spec fn min_boosted_confidence(ps: Seq<VerbPosProfile>) -> Option<u32>
    decreases ps.len(),
{
    if ps.len() == 0 {
        None
    } else {
        let m = min_boosted_confidence(ps.drop_last());
        match ps.last().boosted_confidence {
            Some(b) => match m {
                Some(x) => Some(if b < x { b } else { x }),
                None => Some(b),
            },
            None => m,
        }
    }
}

/// The boosted confidence of a verb form with profiles `ps`: the smallest of
/// their boosted confidences, or, when none has one, the form's base confidence.
pub open spec fn boosted_confidence(ps: Seq<VerbPosProfile>) -> u32 {
    match min_boosted_confidence(ps) {
        Some(m) => m,
        None => max_default_confidence(ps),
    }
}

impl Kb0004 {
    /// Stems and noun patterns are keys.
    #[verifier::type_invariant]
    spec fn wf(&self) -> bool {
        &&& distinct_stems(self.stem_overrides@)
        &&& distinct_patterns(self.noun_profiles@)
    }

    /// The stem overrides, verb profiles and noun profiles.
    pub closed spec fn stems(&self) -> Seq<StemOverrideEntry> {
        self.stem_overrides@
    }

    pub closed spec fn verbs(&self) -> Seq<VerbPosProfile> {
        self.verb_profiles@
    }

    pub closed spec fn nouns(&self) -> Seq<NounPosProfile> {
        self.noun_profiles@
    }

    /// An empty database.
    pub fn empty() -> (r: Self)
        ensures
            r.stems().len() == 0,
            r.verbs().len() == 0,
            r.nouns().len() == 0,
    {
        Kb0004 { stem_overrides: Vec::new(), verb_profiles: Vec::new(), noun_profiles: Vec::new() }
    }

    /// Adds a stem override, replacing the entry for the same stem if there is one.
    pub fn insert_stem_override(&mut self, entry: StemOverrideEntry)
        ensures
            entry_for_stem(final(self).stems(), entry.stem_text@) == Some(entry),
            forall|k: Seq<char>|
                k != entry.stem_text@ ==> entry_for_stem(final(self).stems(), k) == entry_for_stem(
                    old(self).stems(),
                    k,
                ),
            final(self).verbs() == old(self).verbs(),
            final(self).nouns() == old(self).nouns(),
    {
        proof {
            use_type_invariant(&*self);
        }
        let ghost before = self.stem_overrides@;
        let ghost kk = entry.stem_text@;
        let key = crate::text::chars_of(entry.stem_text.as_str());
        match self.find_stem(&key) {
            Some(i) => {
                proof {
                    let after = before.update(i as int, entry);
                    assert forall|a: int, b: int|
                        0 <= a < b < after.len() implies #[trigger] after[a].stem_text@
                        != #[trigger] after[b].stem_text@ by {
                        if a != i && b != i {
                            assert(before[a].stem_text@ != before[b].stem_text@);
                        } else if a == i {
                            assert(before[a].stem_text@ != before[b].stem_text@);
                        } else {
                            assert(before[a].stem_text@ != before[b].stem_text@);
                        }
                    }
                    lemma_entry_unique(after, i as int, kk);
                    assert forall|k2: Seq<char>| k2 != kk implies entry_for_stem(after, k2)
                        == entry_for_stem(before, k2) by {
                        if exists|x: int| 0 <= x < before.len() && #[trigger] before[x].stem_text@ == k2 {
                            let x = choose|x: int| 0 <= x < before.len() && #[trigger] before[x].stem_text@ == k2;
                            assert(x != i);
                            lemma_entry_unique(before, x, k2);
                            lemma_entry_unique(after, x, k2);
                        } else {
                            assert forall|x: int| 0 <= x < after.len() implies #[trigger] after[x].stem_text@
                                != k2 by {
                                if x != i {
                                    assert(after[x] == before[x]);
                                }
                            }
                        }
                    }
                }
                let mut v = Vec::new();
                std::mem::swap(&mut v, &mut self.stem_overrides);
                v.set(i, entry);
                self.stem_overrides = v;
            },
            None => {
                proof {
                    let after = before.push(entry);
                    assert forall|a: int, b: int|
                        0 <= a < b < after.len() implies #[trigger] after[a].stem_text@
                        != #[trigger] after[b].stem_text@ by {
                        if b < before.len() {
                            assert(before[a].stem_text@ != before[b].stem_text@);
                        } else {
                            assert(after[a] == before[a]);
                        }
                    }
                    lemma_entry_unique(after, before.len() as int, kk);
                    assert forall|k2: Seq<char>| k2 != kk implies entry_for_stem(after, k2)
                        == entry_for_stem(before, k2) by {
                        if exists|x: int| 0 <= x < before.len() && #[trigger] before[x].stem_text@ == k2 {
                            let x = choose|x: int| 0 <= x < before.len() && #[trigger] before[x].stem_text@ == k2;
                            lemma_entry_unique(before, x, k2);
                            lemma_entry_unique(after, x, k2);
                        } else {
                            assert forall|x: int| 0 <= x < after.len() implies #[trigger] after[x].stem_text@
                                != k2 by {
                                if x < before.len() {
                                    assert(after[x] == before[x]);
                                }
                            }
                        }
                    }
                }
                let mut v = Vec::new();
                std::mem::swap(&mut v, &mut self.stem_overrides);
                v.push(entry);
                self.stem_overrides = v;
            },
        }
    }

    /// The index of the override for `key`, if any.
    fn find_stem(&self, key: &Vec<char>) -> (r: Option<usize>)
        ensures
            r matches Some(i) ==> i < self.stems().len() && self.stems()[i as int].stem_text@ == key@,
            r is None ==> forall|j: int|
                0 <= j < self.stems().len() ==> #[trigger] self.stems()[j].stem_text@ != key@,
    {
        let mut i: usize = 0;
        while i < self.stem_overrides.len()
            invariant
                0 <= i <= self.stem_overrides@.len(),
                forall|j: int| 0 <= j < i ==> #[trigger] self.stem_overrides@[j].stem_text@ != key@,
            decreases self.stem_overrides@.len() - i,
        {
            let k = crate::text::chars_of(self.stem_overrides[i].stem_text.as_str());
            if chars_eq(&k, key) {
                return Some(i);
            }
            i = i + 1;
        }
        None
    }

    /// The index of the noun profile for `key`, if any.
    fn find_pattern(&self, key: &Vec<char>) -> (r: Option<usize>)
        ensures
            r matches Some(i) ==> i < self.nouns().len() && self.nouns()[i as int].canonical_pattern@
                == key@,
            r is None ==> forall|j: int|
                0 <= j < self.nouns().len() ==> #[trigger] self.nouns()[j].canonical_pattern@ != key@,
    {
        let mut i: usize = 0;
        while i < self.noun_profiles.len()
            invariant
                0 <= i <= self.noun_profiles@.len(),
                forall|j: int|
                    0 <= j < i ==> #[trigger] self.noun_profiles@[j].canonical_pattern@ != key@,
            decreases self.noun_profiles@.len() - i,
        {
            let k = crate::text::chars_of(self.noun_profiles[i].canonical_pattern.as_str());
            if chars_eq(&k, key) {
                return Some(i);
            }
            i = i + 1;
        }
        None
    }

    /// Adds a verb-form profile; a form may have several.
    pub fn push_verb_profile(&mut self, profile: VerbPosProfile)
        ensures
            final(self).verbs() == old(self).verbs().push(profile),
            final(self).stems() == old(self).stems(),
            final(self).nouns() == old(self).nouns(),
    {
        proof {
            use_type_invariant(&*self);
        }
        let mut v = Vec::new();
        std::mem::swap(&mut v, &mut self.verb_profiles);
        v.push(profile);
        self.verb_profiles = v;
    }

    /// Adds a noun-pattern profile, replacing the profile for the same pattern
    /// if there is one.
    pub fn insert_noun_profile(&mut self, profile: NounPosProfile)
        ensures
            profile_for_pattern(final(self).nouns(), profile.canonical_pattern@) == Some(profile),
            forall|k: Seq<char>|
                k != profile.canonical_pattern@ ==> profile_for_pattern(final(self).nouns(), k)
                    == profile_for_pattern(old(self).nouns(), k),
            final(self).stems() == old(self).stems(),
            final(self).verbs() == old(self).verbs(),
    {
        proof {
            use_type_invariant(&*self);
        }
        let ghost before = self.noun_profiles@;
        let ghost kk = profile.canonical_pattern@;
        let key = crate::text::chars_of(profile.canonical_pattern.as_str());
        match self.find_pattern(&key) {
            Some(i) => {
                proof {
                    let after = before.update(i as int, profile);
                    assert forall|a: int, b: int|
                        0 <= a < b < after.len() implies #[trigger] after[a].canonical_pattern@
                        != #[trigger] after[b].canonical_pattern@ by {
                        assert(before[a].canonical_pattern@ != before[b].canonical_pattern@);
                    }
                    lemma_profile_unique(after, i as int, kk);
                    assert forall|k2: Seq<char>| k2 != kk implies profile_for_pattern(after, k2)
                        == profile_for_pattern(before, k2) by {
                        if exists|x: int| 0 <= x < before.len() && #[trigger] before[x].canonical_pattern@ == k2 {
                            let x = choose|x: int| 0 <= x < before.len() && #[trigger] before[x].canonical_pattern@ == k2;
                            assert(x != i);
                            lemma_profile_unique(before, x, k2);
                            lemma_profile_unique(after, x, k2);
                        } else {
                            assert forall|x: int| 0 <= x < after.len() implies #[trigger] after[x].canonical_pattern@
                                != k2 by {
                                if x != i {
                                    assert(after[x] == before[x]);
                                }
                            }
                        }
                    }
                }
                let mut v = Vec::new();
                std::mem::swap(&mut v, &mut self.noun_profiles);
                v.set(i, profile);
                self.noun_profiles = v;
            },
            None => {
                proof {
                    let after = before.push(profile);
                    assert forall|a: int, b: int|
                        0 <= a < b < after.len() implies #[trigger] after[a].canonical_pattern@
                        != #[trigger] after[b].canonical_pattern@ by {
                        if b < before.len() {
                            assert(before[a].canonical_pattern@ != before[b].canonical_pattern@);
                        } else {
                            assert(after[a] == before[a]);
                        }
                    }
                    lemma_profile_unique(after, before.len() as int, kk);
                    assert forall|k2: Seq<char>| k2 != kk implies profile_for_pattern(after, k2)
                        == profile_for_pattern(before, k2) by {
                        if exists|x: int| 0 <= x < before.len() && #[trigger] before[x].canonical_pattern@ == k2 {
                            let x = choose|x: int| 0 <= x < before.len() && #[trigger] before[x].canonical_pattern@ == k2;
                            lemma_profile_unique(before, x, k2);
                            lemma_profile_unique(after, x, k2);
                        } else {
                            assert forall|x: int| 0 <= x < after.len() implies #[trigger] after[x].canonical_pattern@
                                != k2 by {
                                if x < before.len() {
                                    assert(after[x] == before[x]);
                                }
                            }
                        }
                    }
                }
                let mut v = Vec::new();
                std::mem::swap(&mut v, &mut self.noun_profiles);
                v.push(profile);
                self.noun_profiles = v;
            },
        }
    }

    /// The number of stem overrides.
    pub fn stem_override_count(&self) -> (r: usize)
        ensures
            r == self.stems().len(),
    {
        self.stem_overrides.len()
    }

    /// The number of verb profiles.
    pub fn verb_profile_count(&self) -> (r: usize)
        ensures
            r == self.verbs().len(),
    {
        self.verb_profiles.len()
    }

    /// The number of noun profiles.
    pub fn noun_profile_count(&self) -> (r: usize)
        ensures
            r == self.nouns().len(),
    {
        self.noun_profiles.len()
    }

    /// The override for `stem_text`, if any.
    pub fn stem_pos_override(&self, stem_text: &Vec<char>) -> (r: Option<&StemOverrideEntry>)
        ensures
            r matches Some(e) ==> entry_for_stem(self.stems(), stem_text@) == Some(*e),
            r is None ==> entry_for_stem(self.stems(), stem_text@) is None,
    {
        proof {
            use_type_invariant(self);
        }
        let mut i: usize = 0;
        while i < self.stem_overrides.len()
            invariant
                0 <= i <= self.stem_overrides@.len(),
                distinct_stems(self.stem_overrides@),
                forall|j: int| 0 <= j < i ==> #[trigger] self.stem_overrides@[j].stem_text@ != stem_text@,
            decreases self.stem_overrides@.len() - i,
        {
            let k = crate::text::chars_of(self.stem_overrides[i].stem_text.as_str());
            if chars_eq(&k, stem_text) {
                proof {
                    lemma_entry_unique(self.stem_overrides@, i as int, stem_text@);
                }
                return Some(&self.stem_overrides[i]);
            }
            i = i + 1;
        }
        None
    }

    /// The profile for the noun pattern `canonical_pattern`, if any.
    pub fn noun_profile(&self, canonical_pattern: &Vec<char>) -> (r: Option<&NounPosProfile>)
        ensures
            r matches Some(p) ==> profile_for_pattern(self.nouns(), canonical_pattern@) == Some(*p),
            r is None ==> profile_for_pattern(self.nouns(), canonical_pattern@) is None,
    {
        proof {
            use_type_invariant(self);
        }
        let mut i: usize = 0;
        while i < self.noun_profiles.len()
            invariant
                0 <= i <= self.noun_profiles@.len(),
                distinct_patterns(self.noun_profiles@),
                forall|j: int|
                    0 <= j < i ==> #[trigger] self.noun_profiles@[j].canonical_pattern@
                        != canonical_pattern@,
            decreases self.noun_profiles@.len() - i,
        {
            let k = crate::text::chars_of(self.noun_profiles[i].canonical_pattern.as_str());
            if chars_eq(&k, canonical_pattern) {
                proof {
                    lemma_profile_unique(self.noun_profiles@, i as int, canonical_pattern@);
                }
                return Some(&self.noun_profiles[i]);
            }
            i = i + 1;
        }
        None
    }

    /// Whether verb form `verb_form` has a profile.
    pub fn has_verb_profiles(&self, verb_form: u8) -> (r: bool)
        ensures
            r == (profiles_for_form(self.verbs(), verb_form).len() > 0),
    {
        let ghost s = self.verb_profiles@;
        let mut i: usize = 0;
        assert(s.take(0) =~= Seq::<VerbPosProfile>::empty());
        while i < self.verb_profiles.len()
            invariant
                s == self.verb_profiles@,
                0 <= i <= s.len(),
                profiles_for_form(s.take(i as int), verb_form).len() == 0,
            decreases s.len() - i,
        {
            proof {
                reveal_with_fuel(Seq::<VerbPosProfile>::filter, 1);
                assert(s.take(i + 1).drop_last() =~= s.take(i as int));
            }
            if self.verb_profiles[i].verb_form == verb_form {
                proof {
                    lemma_filter_prefix_nonempty(s, i as int, verb_form);
                }
                return true;
            }
            i = i + 1;
        }
        assert(s.take(s.len() as int) =~= s);
        false
    }

    /// The highest default confidence of the profiles of verb form `verb_form` (0 if none).
    pub fn verb_confidence(&self, verb_form: u8) -> (r: u32)
        ensures
            r == max_default_confidence(profiles_for_form(self.verbs(), verb_form)),
    {
        let ghost s = self.verb_profiles@;
        let mut best: u32 = 0;
        let mut i: usize = 0;
        assert(s.take(0) =~= Seq::<VerbPosProfile>::empty());
        while i < self.verb_profiles.len()
            invariant
                s == self.verb_profiles@,
                0 <= i <= s.len(),
                best == max_default_confidence(profiles_for_form(s.take(i as int), verb_form)),
            decreases s.len() - i,
        {
            proof {
                reveal_with_fuel(Seq::<VerbPosProfile>::filter, 1);
                assert(s.take(i + 1).drop_last() =~= s.take(i as int));
            }
            let p = &self.verb_profiles[i];
            proof {
                let sub = profiles_for_form(s.take(i as int), verb_form);
                assert(s.take(i + 1).last() == s[i as int]);
                if p.verb_form == verb_form {
                    assert(profiles_for_form(s.take(i + 1), verb_form) == sub.push(*p));
                    assert(sub.push(*p).drop_last() =~= sub);
                } else {
                    assert(profiles_for_form(s.take(i + 1), verb_form) == sub);
                }
            }
            if p.verb_form == verb_form && p.default_confidence > best {
                best = p.default_confidence;
            }
            i = i + 1;
        }
        assert(s.take(s.len() as int) =~= s);
        best
    }

    /// The smallest boosted confidence of the form's profiles; the form's base
    /// confidence when none of them has one.
    pub fn verb_boosted_confidence(&self, verb_form: u8) -> (r: u32)
        ensures
            r == boosted_confidence(profiles_for_form(self.verbs(), verb_form)),
    {
        let ghost s = self.verb_profiles@;
        let mut best: Option<u32> = None;
        let mut i: usize = 0;
        assert(s.take(0) =~= Seq::<VerbPosProfile>::empty());
        while i < self.verb_profiles.len()
            invariant
                s == self.verb_profiles@,
                0 <= i <= s.len(),
                best == min_boosted_confidence(profiles_for_form(s.take(i as int), verb_form)),
            decreases s.len() - i,
        {
            proof {
                reveal_with_fuel(Seq::<VerbPosProfile>::filter, 1);
                assert(s.take(i + 1).drop_last() =~= s.take(i as int));
            }
            let p = &self.verb_profiles[i];
            proof {
                let sub = profiles_for_form(s.take(i as int), verb_form);
                assert(s.take(i + 1).last() == s[i as int]);
                if p.verb_form == verb_form {
                    assert(profiles_for_form(s.take(i + 1), verb_form) == sub.push(*p));
                    assert(sub.push(*p).drop_last() =~= sub);
                } else {
                    assert(profiles_for_form(s.take(i + 1), verb_form) == sub);
                }
            }
            if p.verb_form == verb_form {
                match p.boosted_confidence {
                    Some(b) => {
                        best = match best {
                            Some(x) => Some(if b < x { b } else { x }),
                            None => Some(b),
                        };
                    },
                    None => {},
                }
            }
            i = i + 1;
        }
        assert(s.take(s.len() as int) =~= s);
        match best {
            Some(m) => m,
            None => self.verb_confidence(verb_form),
        }
    }
}

impl Kb0004 {
    /// The confidence of `stem_text` as a noun, if its override says noun or adjective.
    pub fn is_primarily_noun(&self, stem_text: &Vec<char>) -> (r: Option<u32>)
        ensures
            r == (match entry_for_stem(self.stems(), stem_text@) {
                Some(e) => if e.pos == PartOfSpeech::Noun || e.pos == PartOfSpeech::Adjective {
                    Some(e.confidence)
                } else {
                    None
                },
                None => None,
            }),
    {
        match self.stem_pos_override(stem_text) {
            Some(e) => if e.pos == PartOfSpeech::Noun || e.pos == PartOfSpeech::Adjective {
                Some(e.confidence)
            } else {
                None
            },
            None => None,
        }
    }

    /// The confidence of `stem_text` as a verb, if its override says verb.
    pub fn is_primarily_verb(&self, stem_text: &Vec<char>) -> (r: Option<u32>)
        ensures
            r == (match entry_for_stem(self.stems(), stem_text@) {
                Some(e) => if e.pos == PartOfSpeech::Verb {
                    Some(e.confidence)
                } else {
                    None
                },
                None => None,
            }),
    {
        match self.stem_pos_override(stem_text) {
            Some(e) => if e.pos == PartOfSpeech::Verb {
                Some(e.confidence)
            } else {
                None
            },
            None => None,
        }
    }

    /// The overriding part of speech of `stem_text`, its confidence, and the
    /// source "KB-0004:override:" followed by the entry's source.
    pub fn best_pos_for_3l_stem(&self, stem_text: &Vec<char>) -> (r: Option<(PartOfSpeech, u32, String)>)
        ensures
            match entry_for_stem(self.stems(), stem_text@) {
                Some(e) => r matches Some(t) && t.0 == e.pos && t.1 == e.confidence && t.2@ == "KB-0004:override:"@
                    + e.source@,
                None => r is None,
            },
    {
        match self.stem_pos_override(stem_text) {
            Some(e) => {
                let mut v: Vec<char> = Vec::new();
                crate::text::append_str(&mut v, "KB-0004:override:");
                crate::text::append_str(&mut v, e.source.as_str());
                Some((e.pos, e.confidence, crate::text::string_from_chars(v.as_slice())))
            },
            None => None,
        }
    }

    /// The profiles of verb form `verb_form`, in order.
    pub fn verb_profiles_for_form(&self, verb_form: u8) -> (r: Vec<&VerbPosProfile>)
        ensures
            r@.len() == profiles_for_form(self.verbs(), verb_form).len(),
            forall|i: int| 0 <= i < r@.len() ==> *(#[trigger] r@[i]) == profiles_for_form(self.verbs(), verb_form)[i],
    {
        let ghost s = self.verb_profiles@;
        let mut out: Vec<&VerbPosProfile> = Vec::new();
        let mut i: usize = 0;
        assert(s.take(0) =~= Seq::<VerbPosProfile>::empty());
        while i < self.verb_profiles.len()
            invariant
                s == self.verb_profiles@,
                0 <= i <= s.len(),
                out@.len() == profiles_for_form(s.take(i as int), verb_form).len(),
                forall|k: int| 0 <= k < out@.len() ==> *(#[trigger] out@[k]) == profiles_for_form(s.take(i as int), verb_form)[k],
            decreases s.len() - i,
        {
            proof {
                reveal_with_fuel(Seq::<VerbPosProfile>::filter, 1);
                assert(s.take(i + 1).drop_last() =~= s.take(i as int));
            }
            let p = &self.verb_profiles[i];
            let ghost sub = profiles_for_form(s.take(i as int), verb_form);
            proof {
                assert(s.take(i + 1).last() == s[i as int]);
                if p.verb_form == verb_form {
                    assert(profiles_for_form(s.take(i + 1), verb_form) == sub.push(*p));
                } else {
                    assert(profiles_for_form(s.take(i + 1), verb_form) == sub);
                }
            }
            if p.verb_form == verb_form {
                out.push(p);
            }
            i = i + 1;
        }
        assert(s.take(s.len() as int) =~= s);
        out
    }

    /// The default part of speech of a noun pattern: its profile's, else noun.
    pub fn noun_pos(&self, canonical_pattern: &Vec<char>) -> (r: PartOfSpeech)
        ensures
            r == (match profile_for_pattern(self.nouns(), canonical_pattern@) {
                Some(p) => p.default_pos,
                None => PartOfSpeech::Noun,
            }),
    {
        match self.noun_profile(canonical_pattern) {
            Some(p) => p.default_pos,
            None => PartOfSpeech::Noun,
        }
    }

    /// The confidence of a noun pattern: its profile's, else 0.15.
    pub fn noun_confidence(&self, canonical_pattern: &Vec<char>) -> (r: u32)
        ensures
            r == (match profile_for_pattern(self.nouns(), canonical_pattern@) {
                Some(p) => p.default_confidence,
                None => 150_000,
            }),
    {
        match self.noun_profile(canonical_pattern) {
            Some(p) => p.default_confidence,
            None => 150_000,
        }
    }

    /// Whether a noun pattern is primarily an adjective.
    pub fn noun_is_adjective(&self, canonical_pattern: &Vec<char>) -> (r: bool)
        ensures
            r == (profile_for_pattern(self.nouns(), canonical_pattern@) matches Some(p) && p.default_pos
                == PartOfSpeech::Adjective),
    {
        self.noun_pos(canonical_pattern) == PartOfSpeech::Adjective
    }

    /// Whether a noun pattern's confidence exceeds a verb form's.
    pub fn noun_outranks_verb(&self, canonical_pattern: &Vec<char>, verb_form: u8) -> (r: bool)
        ensures
            r == ((match profile_for_pattern(self.nouns(), canonical_pattern@) {
                Some(p) => p.default_confidence,
                None => 150_000u32,
            }) > max_default_confidence(profiles_for_form(self.verbs(), verb_form))),
    {
        self.noun_confidence(canonical_pattern) > self.verb_confidence(verb_form)
    }
}

/// In a list of distinct stems, the entry for a stem is the one that has it.
pub proof fn lemma_entry_unique(s: Seq<StemOverrideEntry>, i: int, key: Seq<char>)
    requires
        distinct_stems(s),
        0 <= i < s.len(),
        s[i].stem_text@ == key,
    ensures
        entry_for_stem(s, key) == Some(s[i]),
{
    let c = choose|x: int| 0 <= x < s.len() && #[trigger] s[x].stem_text@ == key;
    if c < i {
        assert(s[c].stem_text@ != s[i].stem_text@);
    } else if c > i {
        assert(s[i].stem_text@ != s[c].stem_text@);
    }
}

/// In a list of distinct patterns, the profile for a pattern is the one that has it.
pub proof fn lemma_profile_unique(s: Seq<NounPosProfile>, i: int, key: Seq<char>)
    requires
        distinct_patterns(s),
        0 <= i < s.len(),
        s[i].canonical_pattern@ == key,
    ensures
        profile_for_pattern(s, key) == Some(s[i]),
{
    let c = choose|x: int| 0 <= x < s.len() && #[trigger] s[x].canonical_pattern@ == key;
    if c < i {
        assert(s[c].canonical_pattern@ != s[i].canonical_pattern@);
    } else if c > i {
        assert(s[i].canonical_pattern@ != s[c].canonical_pattern@);
    }
}

proof fn lemma_filter_prefix_nonempty(s: Seq<VerbPosProfile>, i: int, form: u8)
    requires
        0 <= i < s.len(),
        s[i].verb_form == form,
    ensures
        profiles_for_form(s, form).len() > 0,
    decreases s.len(),
{
    reveal_with_fuel(Seq::<VerbPosProfile>::filter, 1);
    if i < s.len() - 1 {
        lemma_filter_prefix_nonempty(s.drop_last(), i, form);
        assert(s.drop_last()[i] == s[i]);
    }
}

} // verus!
