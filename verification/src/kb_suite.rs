//! The suite of loaded knowledge bases, the reader interface the pipeline
//! uses to query it, and the directory loader's plan: which files, in what
//! order.

use vstd::prelude::*;

use crate::kb_types::{
    kb_code, kb_file_stem, FeatureDatabase, KbId, KbStore, KnowledgeBase, NounPatternEntry,
    ParticleEntry, PronounEntry, RootEntry, VerbParadigm, WazanEntry,
};
use crate::text::{append_str, chars_of, decimal, owned, push_decimal, string_from_chars};
use crate::version::{semver_text, KnowledgeVersionMap, SemVer};

verus! {

/// The position of a knowledge base in the suite's version table.
pub open spec fn kb_slot(k: KbId) -> int {
    match k {
        KbId::Kb0001 => 0,
        KbId::Kb0002 => 1,
        KbId::Kb0003 => 2,
        KbId::Kb0004 => 3,
        KbId::Kb0005 => 4,
        KbId::Kb0006 => 5,
        KbId::Kb0007 => 6,
        KbId::Kb0008 => 7,
    }
}

/// The knowledge base at position `i` of the version table.
pub open spec fn kb_at_slot(i: int) -> KbId {
    if i == 0 {
        KbId::Kb0001
    } else if i == 1 {
        KbId::Kb0002
    } else if i == 2 {
        KbId::Kb0003
    } else if i == 3 {
        KbId::Kb0004
    } else if i == 4 {
        KbId::Kb0005
    } else if i == 5 {
        KbId::Kb0006
    } else if i == 6 {
        KbId::Kb0007
    } else {
        KbId::Kb0008
    }
}

fn slot_of(k: KbId) -> (r: usize)
    ensures
        r == kb_slot(k),
        kb_at_slot(r as int) == k,
{
    match k {
        KbId::Kb0001 => 0,
        KbId::Kb0002 => 1,
        KbId::Kb0003 => 2,
        KbId::Kb0004 => 3,
        KbId::Kb0005 => 4,
        KbId::Kb0006 => 5,
        KbId::Kb0007 => 6,
        KbId::Kb0008 => 7,
    }
}

fn kb_of_slot(i: usize) -> (r: KbId)
    requires
        i < 8,
    ensures
        r == kb_at_slot(i as int),
        kb_slot(r) == i,
{
    if i == 0 {
        KbId::Kb0001
    } else if i == 1 {
        KbId::Kb0002
    } else if i == 2 {
        KbId::Kb0003
    } else if i == 3 {
        KbId::Kb0004
    } else if i == 4 {
        KbId::Kb0005
    } else if i == 5 {
        KbId::Kb0006
    } else if i == 6 {
        KbId::Kb0007
    } else {
        KbId::Kb0008
    }
}

/// `r` refers to the value held in `v`, or is `None` when `v` is.
pub open spec fn ref_of<T>(r: Option<&T>, v: Option<T>) -> bool {
    match r {
        Some(x) => v == Some(*x),
        None => v is None,
    }
}

/// The first entry filed under `key` in `store`, if there is one.
pub open spec fn first_entry<T>(store: Option<KbStore<T>>, key: Seq<char>) -> Option<T> {
    match store {
        Some(s) => if s.index@.contains_key(key) && s.index@[key]@.len() > 0 && s.index@[key]@[0]
            < s.entries@.len() {
            Some(s.entries@[s.index@[key]@[0] as int])
        } else {
            None
        },
        None => None,
    }
}

/// The first entry filed under `key` in `store`.
fn first_in_store<'a, T>(store: &'a Option<KbStore<T>>, key: &str) -> (r: Option<&'a T>)
    ensures
        ref_of(r, first_entry(*store, key@)),
{
    match store {
        Some(s) => match s.lookup(key) {
            Some(indices) => {
                if indices.len() > 0 {
                    s.get(indices[0])
                } else {
                    None
                }
            },
            None => None,
        },
        None => None,
    }
}

/// The key of a verb paradigm: its form in decimal, a hyphen and its class.
pub open spec fn paradigm_key(form: u8, class: Seq<char>) -> Seq<char> {
    decimal(form as nat) + "-"@ + class
}

/// Queries on loaded knowledge bases.
pub trait KbReader {
    /// The root entry for a consonantal skeleton (KB-0001).
    fn lookup_root(&self, root_text: &str) -> Option<&RootEntry>;

    /// The pattern entry for a pattern text (KB-0002).
    fn lookup_wazan(&self, pattern: &str) -> Option<&WazanEntry>;

    /// The verb paradigm for a form and a class (KB-0003).
    fn lookup_verb_paradigm(&self, form: u8, class: &str) -> Option<&VerbParadigm>;

    /// The noun pattern for a noun type (KB-0004).
    fn lookup_noun_pattern(&self, noun_type: &str) -> Option<&NounPatternEntry>;

    /// The particle entry for a particle text (KB-0005).
    fn lookup_particle(&self, particle_text: &str) -> Option<&ParticleEntry>;

    /// The pronoun entry for a pronoun text (KB-0006).
    fn lookup_pronoun(&self, pronoun_text: &str) -> Option<&PronounEntry>;

    /// Whether a knowledge base is loaded.
    fn is_kb_loaded(&self, kb_id: KbId) -> bool;

    /// The version of a loaded knowledge base.
    fn kb_version(&self, kb_id: KbId) -> Option<SemVer>;

    /// The identifiers of all loaded knowledge bases.
    fn loaded_kbs(&self) -> Vec<KbId>;
}

/// A suite of loaded knowledge bases and the version of each.
pub struct KbSuite {
    roots: Option<KbStore<RootEntry>>,
    wazan: Option<KbStore<WazanEntry>>,
    verb_paradigms: Option<KbStore<VerbParadigm>>,
    noun_patterns: Option<KbStore<NounPatternEntry>>,
    particles: Option<KbStore<ParticleEntry>>,
    pronouns: Option<KbStore<PronounEntry>>,
    features: Option<FeatureDatabase>,
    /// The version of each knowledge base, by its slot
    versions: [Option<SemVer>; 8],
}

/// The identifier under which a knowledge base is registered.
pub open spec fn registered_id(kb: KnowledgeBase) -> KbId {
    match kb {
        KnowledgeBase::Roots(_) => KbId::Kb0001,
        KnowledgeBase::Wazan(_) => KbId::Kb0002,
        KnowledgeBase::VerbForms(_) => KbId::Kb0003,
        KnowledgeBase::NounPatterns(_) => KbId::Kb0004,
        KnowledgeBase::Particles(_) => KbId::Kb0005,
        KnowledgeBase::Pronouns(_) => KbId::Kb0006,
        KnowledgeBase::Features(_) => KbId::Kb0007,
    }
}

/// The version under which a knowledge base is registered: its metadata's,
/// and 1.0.0 for the feature database.
pub open spec fn registered_version(kb: KnowledgeBase) -> SemVer {
    match kb {
        KnowledgeBase::Roots(s) => s.metadata.version,
        KnowledgeBase::Wazan(s) => s.metadata.version,
        KnowledgeBase::VerbForms(s) => s.metadata.version,
        KnowledgeBase::NounPatterns(s) => s.metadata.version,
        KnowledgeBase::Particles(s) => s.metadata.version,
        KnowledgeBase::Pronouns(s) => s.metadata.version,
        KnowledgeBase::Features(_) => SemVer { major: 1, minor: 0, patch: 0 },
    }
}

impl KbSuite {
    /// The roots store.
    pub closed spec fn roots_store(self) -> Option<KbStore<RootEntry>> {
        self.roots
    }

    /// The patterns store.
    pub closed spec fn wazan_store(self) -> Option<KbStore<WazanEntry>> {
        self.wazan
    }

    /// The verb paradigms store.
    pub closed spec fn verb_paradigms_store(self) -> Option<KbStore<VerbParadigm>> {
        self.verb_paradigms
    }

    /// The noun patterns store.
    pub closed spec fn noun_patterns_store(self) -> Option<KbStore<NounPatternEntry>> {
        self.noun_patterns
    }

    /// The particles store.
    pub closed spec fn particles_store(self) -> Option<KbStore<ParticleEntry>> {
        self.particles
    }

    /// The pronouns store.
    pub closed spec fn pronouns_store(self) -> Option<KbStore<PronounEntry>> {
        self.pronouns
    }

    /// The feature database.
    pub closed spec fn features_db(self) -> Option<FeatureDatabase> {
        self.features
    }

    /// The version of each loaded knowledge base.
    pub closed spec fn version_map(self) -> Map<KbId, SemVer> {
        Map::new(
            |k: KbId| self.versions@[kb_slot(k)] is Some,
            |k: KbId| self.versions@[kb_slot(k)].unwrap(),
        )
    }

    /// An empty suite.
    pub fn empty() -> (r: Self)
        ensures
            r.roots_store() is None,
            r.wazan_store() is None,
            r.verb_paradigms_store() is None,
            r.noun_patterns_store() is None,
            r.particles_store() is None,
            r.pronouns_store() is None,
            r.features_db() is None,
            r.version_map() == Map::<KbId, SemVer>::empty(),
    {
        let versions: [Option<SemVer>; 8] = [None, None, None, None, None, None, None, None];
        let r = Self {
            roots: None,
            wazan: None,
            verb_paradigms: None,
            noun_patterns: None,
            particles: None,
            pronouns: None,
            features: None,
            versions,
        };
        assert(r.version_map() =~= Map::<KbId, SemVer>::empty());
        r
    }

    fn set_version(&mut self, k: KbId, v: SemVer)
        ensures
            final(self).version_map() == old(self).version_map().insert(k, v),
            final(self).roots == old(self).roots,
            final(self).wazan == old(self).wazan,
            final(self).verb_paradigms == old(self).verb_paradigms,
            final(self).noun_patterns == old(self).noun_patterns,
            final(self).particles == old(self).particles,
            final(self).pronouns == old(self).pronouns,
            final(self).features == old(self).features,
    {
        let slot = slot_of(k);
        self.versions[slot] = Some(v);
        assert forall|q: KbId| kb_slot(q) == kb_slot(k) implies q == k by {}
        assert(self.version_map() =~= old(self).version_map().insert(k, v));
    }

    /// Adds a loaded knowledge base to the suite, replacing any of its kind,
    /// and records its version.
    pub fn register(&mut self, kb: KnowledgeBase)
        ensures
            final(self).version_map() == old(self).version_map().insert(registered_id(kb), registered_version(kb)),
            match kb {
                KnowledgeBase::Roots(s) => final(self).roots_store() == Some(s),
                _ => final(self).roots_store() == old(self).roots_store(),
            },
            match kb {
                KnowledgeBase::Wazan(s) => final(self).wazan_store() == Some(s),
                _ => final(self).wazan_store() == old(self).wazan_store(),
            },
            match kb {
                KnowledgeBase::VerbForms(s) => final(self).verb_paradigms_store() == Some(s),
                _ => final(self).verb_paradigms_store() == old(self).verb_paradigms_store(),
            },
            match kb {
                KnowledgeBase::NounPatterns(s) => final(self).noun_patterns_store() == Some(s),
                _ => final(self).noun_patterns_store() == old(self).noun_patterns_store(),
            },
            match kb {
                KnowledgeBase::Particles(s) => final(self).particles_store() == Some(s),
                _ => final(self).particles_store() == old(self).particles_store(),
            },
            match kb {
                KnowledgeBase::Pronouns(s) => final(self).pronouns_store() == Some(s),
                _ => final(self).pronouns_store() == old(self).pronouns_store(),
            },
            match kb {
                KnowledgeBase::Features(db) => final(self).features_db() == Some(db),
                _ => final(self).features_db() == old(self).features_db(),
            },
    {
        match kb {
            KnowledgeBase::Roots(store) => {
                self.set_version(KbId::Kb0001, store.metadata.version);
                self.roots = Some(store);
            },
            KnowledgeBase::Wazan(store) => {
                self.set_version(KbId::Kb0002, store.metadata.version);
                self.wazan = Some(store);
            },
            KnowledgeBase::VerbForms(store) => {
                self.set_version(KbId::Kb0003, store.metadata.version);
                self.verb_paradigms = Some(store);
            },
            KnowledgeBase::NounPatterns(store) => {
                self.set_version(KbId::Kb0004, store.metadata.version);
                self.noun_patterns = Some(store);
            },
            KnowledgeBase::Particles(store) => {
                self.set_version(KbId::Kb0005, store.metadata.version);
                self.particles = Some(store);
            },
            KnowledgeBase::Pronouns(store) => {
                self.set_version(KbId::Kb0006, store.metadata.version);
                self.pronouns = Some(store);
            },
            KnowledgeBase::Features(db) => {
                self.set_version(KbId::Kb0007, SemVer::new(1, 0, 0));
                self.features = Some(db);
            },
        }
    }

    /// The roots store (KB-0001).
    pub fn roots(&self) -> (r: Option<&KbStore<RootEntry>>)
        ensures
            ref_of(r, self.roots_store()),
    {
        match &self.roots {
            Some(s) => Some(s),
            None => None,
        }
    }

    /// The patterns store (KB-0002).
    pub fn wazan(&self) -> (r: Option<&KbStore<WazanEntry>>)
        ensures
            ref_of(r, self.wazan_store()),
    {
        match &self.wazan {
            Some(s) => Some(s),
            None => None,
        }
    }

    /// The verb paradigms store (KB-0003).
    pub fn verb_paradigms(&self) -> (r: Option<&KbStore<VerbParadigm>>)
        ensures
            ref_of(r, self.verb_paradigms_store()),
    {
        match &self.verb_paradigms {
            Some(s) => Some(s),
            None => None,
        }
    }

    /// The noun patterns store (KB-0004).
    pub fn noun_patterns(&self) -> (r: Option<&KbStore<NounPatternEntry>>)
        ensures
            ref_of(r, self.noun_patterns_store()),
    {
        match &self.noun_patterns {
            Some(s) => Some(s),
            None => None,
        }
    }

    /// The particles store (KB-0005).
    pub fn particles(&self) -> (r: Option<&KbStore<ParticleEntry>>)
        ensures
            ref_of(r, self.particles_store()),
    {
        match &self.particles {
            Some(s) => Some(s),
            None => None,
        }
    }

    /// The pronouns store (KB-0006).
    pub fn pronouns(&self) -> (r: Option<&KbStore<PronounEntry>>)
        ensures
            ref_of(r, self.pronouns_store()),
    {
        match &self.pronouns {
            Some(s) => Some(s),
            None => None,
        }
    }

    /// The feature database (KB-0007).
    pub fn features(&self) -> (r: Option<&FeatureDatabase>)
        ensures
            ref_of(r, self.features_db()),
    {
        match &self.features {
            Some(s) => Some(s),
            None => None,
        }
    }

    /// The loaded knowledge bases with their versions, in identifier order.
    pub fn versions(&self) -> (r: Vec<(KbId, SemVer)>)
        ensures
            forall|i: int, j: int| 0 <= i < j < r@.len() ==> r@[i].0 != r@[j].0,
            forall|i: int| 0 <= i < r@.len() ==> self.version_map().contains_key(#[trigger] r@[i].0)
                && self.version_map()[r@[i].0] == r@[i].1,
            forall|k: KbId| #[trigger] self.version_map().contains_key(k) ==> exists|i: int|
                0 <= i < r@.len() && r@[i].0 == k,
    {
        let mut out: Vec<(KbId, SemVer)> = Vec::new();
        let mut i: usize = 0;
        while i < 8
            invariant
                i <= 8,
                forall|a: int, b: int| 0 <= a < b < out@.len() ==> out@[a].0 != out@[b].0,
                forall|a: int| 0 <= a < out@.len() ==> kb_slot(#[trigger] out@[a].0) < i,
                forall|a: int| 0 <= a < out@.len() ==> self.version_map().contains_key(#[trigger] out@[a].0)
                    && self.version_map()[out@[a].0] == out@[a].1,
                forall|k: KbId| #[trigger] self.version_map().contains_key(k) && kb_slot(k) < i ==> exists|a: int|
                    0 <= a < out@.len() && out@[a].0 == k,
            decreases 8 - i,
        {
            let k = kb_of_slot(i);
            match self.versions[i] {
                Some(v) => {
                    let ghost before = out@;
                    out.push((k, v));
                    assert forall|q: KbId| #[trigger] self.version_map().contains_key(q) && kb_slot(q) < i + 1 implies exists|a: int|
                        0 <= a < out@.len() && out@[a].0 == q by {
                        if kb_slot(q) == i {
                            assert(q == k);
                            assert(out@[before.len() as int].0 == q);
                        } else {
                            let a = choose|a: int| 0 <= a < before.len() && before[a].0 == q;
                            assert(out@[a].0 == q);
                        }
                    }
                },
                None => {
                    assert forall|q: KbId| #[trigger] self.version_map().contains_key(q) && kb_slot(q) < i + 1 implies exists|a: int|
                        0 <= a < out@.len() && out@[a].0 == q by {
                        if kb_slot(q) == i {
                            assert(q == k);
                        }
                    }
                },
            }
            i = i + 1;
        }
        out
    }

    /// Whether all seven core knowledge bases (KB-0001 to KB-0007) are loaded.
    pub fn is_complete(&self) -> (r: bool)
        ensures
            r == (self.roots_store() is Some && self.wazan_store() is Some && self.verb_paradigms_store() is Some
                && self.noun_patterns_store() is Some && self.particles_store() is Some
                && self.pronouns_store() is Some && self.features_db() is Some),
    {
        self.roots.is_some() && self.wazan.is_some() && self.verb_paradigms.is_some()
            && self.noun_patterns.is_some() && self.particles.is_some() && self.pronouns.is_some()
            && self.features.is_some()
    }

    /// The code and version text of every loaded knowledge base, as recorded
    /// in the pipeline's intermediate representations.
    pub fn knowledge_version_map(&self) -> (r: KnowledgeVersionMap)
        ensures
            forall|k: KbId| #[trigger] self.version_map().contains_key(k) ==> r@.contains_key(kb_code(k))
                && r@[kb_code(k)]@ == semver_text(self.version_map()[k]),
            forall|s: Seq<char>| #[trigger] r@.contains_key(s) ==> exists|k: KbId|
                self.version_map().contains_key(k) && kb_code(k) == s,
    {
        let pairs = self.versions();
        let mut map = KnowledgeVersionMap::new();
        let mut i: usize = 0;
        while i < pairs.len()
            invariant
                i <= pairs@.len(),
                forall|a: int, b: int| 0 <= a < b < pairs@.len() ==> pairs@[a].0 != pairs@[b].0,
                forall|a: int| 0 <= a < pairs@.len() ==> self.version_map().contains_key(#[trigger] pairs@[a].0)
                    && self.version_map()[pairs@[a].0] == pairs@[a].1,
                forall|a: int| 0 <= a < i ==> map@.contains_key(kb_code(#[trigger] pairs@[a].0))
                    && map@[kb_code(pairs@[a].0)]@ == semver_text(pairs@[a].1),
                forall|s: Seq<char>| #[trigger] map@.contains_key(s) ==> exists|a: int|
                    0 <= a < i && kb_code(pairs@[a].0) == s,
            decreases pairs@.len() - i,
        {
            let (k, v) = pairs[i];
            let ghost before = map@;
            map.insert(owned(k.as_str()), v.to_version_string());
            assert forall|a: int| 0 <= a < i + 1 implies map@.contains_key(kb_code(#[trigger] pairs@[a].0))
                && map@[kb_code(pairs@[a].0)]@ == semver_text(pairs@[a].1) by {
                if a < i {
                    crate::kb_types::lemma_kb_ids_distinct(pairs@[a].0, k);
                    assert(before.contains_key(kb_code(pairs@[a].0)));
                }
            }
            assert forall|s: Seq<char>| #[trigger] map@.contains_key(s) implies exists|a: int|
                0 <= a < i + 1 && kb_code(pairs@[a].0) == s by {
                if s != kb_code(k) {
                    assert(before.contains_key(s));
                } else {
                    assert(kb_code(pairs@[i as int].0) == s);
                }
            }
            i = i + 1;
        }
        assert forall|k: KbId| #[trigger] self.version_map().contains_key(k) implies map@.contains_key(kb_code(k))
            && map@[kb_code(k)]@ == semver_text(self.version_map()[k]) by {
            let a = choose|a: int| 0 <= a < pairs@.len() && pairs@[a].0 == k;
            assert(map@.contains_key(kb_code(pairs@[a].0)));
        }
        map
    }
}

/// A knowledge base that was just registered is loaded, at its version.
pub proof fn lemma_register_then_version(before: Map<KbId, SemVer>, after: Map<KbId, SemVer>, kb: KnowledgeBase)
    requires
        after == before.insert(registered_id(kb), registered_version(kb)),
    ensures
        after.contains_key(registered_id(kb)),
        after[registered_id(kb)] == registered_version(kb),
        forall|k: KbId| k != registered_id(kb) ==> (after.contains_key(k) == before.contains_key(k)),
{
}

/// The roots store of the last `Roots` knowledge base in `kbs`, if there is one.
pub open spec fn last_roots(kbs: Seq<KnowledgeBase>) -> Option<KbStore<RootEntry>>
    decreases kbs.len(),
{
    if kbs.len() == 0 {
        None
    } else {
        match kbs.last() {
            KnowledgeBase::Roots(s) => Some(s),
            _ => last_roots(kbs.drop_last()),
        }
    }
}

/// The roots store after registering `kb` into a suite whose roots store was `before`.
pub open spec fn roots_after(before: Option<KbStore<RootEntry>>, kb: KnowledgeBase) -> Option<KbStore<RootEntry>> {
    match kb {
        KnowledgeBase::Roots(s) => Some(s),
        _ => before,
    }
}

/// After a sequence of registrations, the roots store is the last roots store
/// registered; where none was, it is the one the suite started with (none, for
/// an empty suite). `states[i + 1]` is the suite after registering `kbs[i]`
/// into `states[i]`.
pub proof fn lemma_roots_after_registrations(kbs: Seq<KnowledgeBase>, states: Seq<KbSuite>)
    requires
        states.len() == kbs.len() + 1,
        forall|i: int| 0 <= i < kbs.len() ==>
            states[i + 1].roots_store() == roots_after(states[i].roots_store(), #[trigger] kbs[i]),
    ensures
        states.last().roots_store() == match last_roots(kbs) {
            Some(s) => Some(s),
            None => states[0].roots_store(),
        },
        states[0].roots_store() is None ==> states.last().roots_store() == last_roots(kbs),
    decreases kbs.len(),
{
    if kbs.len() > 0 {
        let n = kbs.len() - 1;
        let k2 = kbs.drop_last();
        let s2 = states.drop_last();
        assert forall|i: int| 0 <= i < k2.len() implies
            s2[i + 1].roots_store() == roots_after(s2[i].roots_store(), #[trigger] k2[i]) by {
            assert(kbs[i] == k2[i]);
        }
        lemma_roots_after_registrations(k2, s2);
        assert(kbs[n] == kbs.last());
        assert(s2.last() == states[n]);
    }
}

/// The key under which a verb paradigm is filed.
fn paradigm_key_text(form: u8, class: &str) -> (r: String)
    ensures
        r@ == paradigm_key(form, class@),
{
    let mut v: Vec<char> = Vec::new();
    push_decimal(&mut v, form as u64);
    append_str(&mut v, "-");
    append_str(&mut v, class);
    string_from_chars(v.as_slice())
}

impl KbReader for KbSuite {
    fn lookup_root(&self, root_text: &str) -> (r: Option<&RootEntry>)
        ensures
            ref_of(r, first_entry(self.roots_store(), root_text@)),
    {
        first_in_store(&self.roots, root_text)
    }

    fn lookup_wazan(&self, pattern: &str) -> (r: Option<&WazanEntry>)
        ensures
            ref_of(r, first_entry(self.wazan_store(), pattern@)),
    {
        first_in_store(&self.wazan, pattern)
    }

    fn lookup_verb_paradigm(&self, form: u8, class: &str) -> (r: Option<&VerbParadigm>)
        ensures
            ref_of(r, first_entry(self.verb_paradigms_store(), paradigm_key(form, class@))),
    {
        if self.verb_paradigms.is_none() {
            return None;
        }
        let key = paradigm_key_text(form, class);
        first_in_store(&self.verb_paradigms, key.as_str())
    }

    fn lookup_noun_pattern(&self, noun_type: &str) -> (r: Option<&NounPatternEntry>)
        ensures
            ref_of(r, first_entry(self.noun_patterns_store(), noun_type@)),
    {
        first_in_store(&self.noun_patterns, noun_type)
    }

    fn lookup_particle(&self, particle_text: &str) -> (r: Option<&ParticleEntry>)
        ensures
            ref_of(r, first_entry(self.particles_store(), particle_text@)),
    {
        first_in_store(&self.particles, particle_text)
    }

    fn lookup_pronoun(&self, pronoun_text: &str) -> (r: Option<&PronounEntry>)
        ensures
            ref_of(r, first_entry(self.pronouns_store(), pronoun_text@)),
    {
        first_in_store(&self.pronouns, pronoun_text)
    }

    fn is_kb_loaded(&self, kb_id: KbId) -> (r: bool)
        ensures
            r == self.version_map().contains_key(kb_id),
    {
        self.versions[slot_of(kb_id)].is_some()
    }

    fn kb_version(&self, kb_id: KbId) -> (r: Option<SemVer>)
        ensures
            self.version_map().contains_key(kb_id) ==> r == Some(self.version_map()[kb_id]),
            !self.version_map().contains_key(kb_id) ==> r is None,
    {
        self.versions[slot_of(kb_id)]
    }

    fn loaded_kbs(&self) -> (r: Vec<KbId>)
        ensures
            forall|i: int, j: int| 0 <= i < j < r@.len() ==> r@[i] != r@[j],
            forall|k: KbId| self.version_map().contains_key(k) <==> r@.contains(k),
    {
        let pairs = self.versions();
        let mut out: Vec<KbId> = Vec::new();
        let mut i: usize = 0;
        while i < pairs.len()
            invariant
                i <= pairs@.len(),
                out@.len() == i,
                forall|a: int, b: int| 0 <= a < b < pairs@.len() ==> pairs@[a].0 != pairs@[b].0,
                forall|a: int| 0 <= a < i ==> out@[a] == (#[trigger] pairs@[a]).0,
            decreases pairs@.len() - i,
        {
            out.push(pairs[i].0);
            i = i + 1;
        }
        assert forall|k: KbId| self.version_map().contains_key(k) <==> out@.contains(k) by {
            if self.version_map().contains_key(k) {
                let a = choose|a: int| 0 <= a < pairs@.len() && pairs@[a].0 == k;
                assert(out@[a] == k);
            }
            if out@.contains(k) {
                let a = choose|a: int| 0 <= a < out@.len() && out@[a] == k;
                assert(pairs@[a].0 == k);
            }
        }
        assert forall|i: int, j: int| 0 <= i < j < out@.len() implies out@[i] != out@[j] by {
            assert(out@[i] == pairs@[i].0 && out@[j] == pairs@[j].0);
        }
        out
    }
}

/// The order in which the loader reads the knowledge bases: particles and
/// pronouns first (small, no dependencies), then features, roots, patterns,
/// verb forms, noun patterns and the developer particle module.
pub open spec fn loading_sequence() -> Seq<KbId> {
    seq![
        KbId::Kb0005,
        KbId::Kb0006,
        KbId::Kb0007,
        KbId::Kb0001,
        KbId::Kb0002,
        KbId::Kb0003,
        KbId::Kb0004,
        KbId::Kb0008,
    ]
}

/// The file name of a compiled knowledge base: its stem, a dot and the extension.
pub open spec fn kb_file(k: KbId) -> Seq<char> {
    kb_file_stem(k) + "."@ + "agos-kb"@
}

/// The default loader of compiled knowledge-base files in a directory.
pub struct DefaultKbLoader {
    kb_directory: String,
}

impl DefaultKbLoader {
    /// The directory the loader reads.
    pub closed spec fn directory(self) -> Seq<char> {
        self.kb_directory@
    }

    /// A loader that looks for knowledge-base files in `kb_directory`.
    pub fn new(kb_directory: String) -> (r: Self)
        ensures
            r.directory() == kb_directory@,
    {
        Self { kb_directory }
    }

    /// The directory the loader reads.
    pub fn kb_directory(&self) -> (r: &str)
        ensures
            r@ == self.directory(),
    {
        self.kb_directory.as_str()
    }

    /// The name of the compiled file of a knowledge base.
    pub fn kb_file_name(kb_id: KbId) -> (r: String)
        ensures
            r@ == kb_file(kb_id),
    {
        let mut v: Vec<char> = Vec::new();
        append_str(&mut v, kb_id.file_name());
        append_str(&mut v, ".");
        append_str(&mut v, kb_id.extension());
        string_from_chars(v.as_slice())
    }

    /// The order in which the knowledge bases are loaded.
    pub fn loading_order() -> (r: Vec<KbId>)
        ensures
            r@ == loading_sequence(),
    {
        let r = vec![
            KbId::Kb0005,
            KbId::Kb0006,
            KbId::Kb0007,
            KbId::Kb0001,
            KbId::Kb0002,
            KbId::Kb0003,
            KbId::Kb0004,
            KbId::Kb0008,
        ];
        assert(r@ =~= loading_sequence());
        r
    }
}

/// Every knowledge base is loaded exactly once, particles before the rest.
pub proof fn lemma_loading_order_complete()
    ensures
        loading_sequence().len() == 8,
        forall|k: KbId| #[trigger] loading_sequence().contains(k),
        forall|i: int, j: int| 0 <= i < j < 8 ==> loading_sequence()[i] != loading_sequence()[j],
        loading_sequence()[0] == KbId::Kb0005,
{
    let s = loading_sequence();
    assert forall|k: KbId| #[trigger] s.contains(k) by {
        match k {
            KbId::Kb0001 => assert(s[3] == k),
            KbId::Kb0002 => assert(s[4] == k),
            KbId::Kb0003 => assert(s[5] == k),
            KbId::Kb0004 => assert(s[6] == k),
            KbId::Kb0005 => assert(s[0] == k),
            KbId::Kb0006 => assert(s[1] == k),
            KbId::Kb0007 => assert(s[2] == k),
            KbId::Kb0008 => assert(s[7] == k),
        }
    }
}

} // verus!
