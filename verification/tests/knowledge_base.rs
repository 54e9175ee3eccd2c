use agos::kb0004::{Kb0004, NounPosProfile, StemOverrideEntry, VerbPosProfile};
use agos::kb_suite::{DefaultKbLoader, KbReader, KbSuite};
use agos::kb_types::{
    dependency_map,
    FeatureDatabase, KbFormat, KbId, KbMetadata, KbStore, KnowledgeBase, ParticleCategory, ParticleEntry,
    ParticleGovernance, GovernmentType,
};
use agos::types::PartOfSpeech;
use agos::version::SemVer;

fn chars(s: &str) -> Vec<char> {
    s.chars().collect()
}

fn metadata(kb_id: KbId, version: SemVer) -> KbMetadata {
    KbMetadata {
        kb_id,
        version,
        name: "test".to_string(),
        description: String::new(),
        checksum_sha256: String::new(),
        format: KbFormat::HashIndex,
        entry_count: 0,
        compiled_at: String::new(),
        dependencies: dependency_map(),
        compiler_version: String::new(),
    }
}

fn particle(text: &str) -> ParticleEntry {
    ParticleEntry {
        id: format!("p-{text}"),
        text: text.to_string(),
        category: ParticleCategory::Preposition,
        governance: ParticleGovernance {
            case_government: None,
            mood_government: None,
            government_type: GovernmentType::Independent,
        },
        sub_type: None,
        meaning: "in".to_string(),
        notes: None,
        homograph_score: None,
    }
}

#[test]
fn test_kb_id_names() {
    assert_eq!(KbId::Kb0001.as_str(), "KB-0001");
    assert_eq!(KbId::Kb0008.as_str(), "KB-0008");
    assert_eq!(KbId::Kb0003.name(), "VerbForms");
    assert_eq!(KbId::Kb0004.file_name(), "kb-0004-noun-patterns");
    assert_eq!(KbId::Kb0007.extension(), "agos-kb");
    assert_eq!(DefaultKbLoader::kb_file_name(KbId::Kb0005), "kb-0005-particles.agos-kb");
}

#[test]
fn test_loading_order() {
    let order = DefaultKbLoader::loading_order();
    assert_eq!(
        order,
        vec![
            KbId::Kb0005,
            KbId::Kb0006,
            KbId::Kb0007,
            KbId::Kb0001,
            KbId::Kb0002,
            KbId::Kb0003,
            KbId::Kb0004,
            KbId::Kb0008
        ]
    );
    let loader = DefaultKbLoader::new("knowledge".to_string());
    assert_eq!(loader.kb_directory(), "knowledge");
}

#[test]
fn test_kb_store_lookup() {
    let mut store: KbStore<ParticleEntry> = KbStore::new(metadata(KbId::Kb0005, SemVer::new(1, 2, 3)));
    assert!(store.is_empty());
    assert_eq!(store.len(), 0);
    store.entries.push(particle("في"));
    store.index.insert("في".to_string(), vec![0]);
    assert_eq!(store.len(), 1);
    assert!(!store.is_empty());
    assert_eq!(store.get(0).unwrap().text, "في");
    assert!(store.get(1).is_none());
    assert_eq!(store.lookup("في"), Some(&vec![0]));
    assert!(store.lookup("من").is_none());
}

#[test]
fn test_register_then_version() {
    let mut suite = KbSuite::empty();
    assert!(!suite.is_kb_loaded(KbId::Kb0005));
    assert!(suite.kb_version(KbId::Kb0005).is_none());
    assert!(!suite.is_complete());
    let mut store: KbStore<ParticleEntry> = KbStore::new(metadata(KbId::Kb0005, SemVer::new(1, 2, 3)));
    store.entries.push(particle("في"));
    store.index.insert("في".to_string(), vec![0]);
    suite.register(KnowledgeBase::Particles(store));
    assert!(suite.is_kb_loaded(KbId::Kb0005));
    assert_eq!(suite.kb_version(KbId::Kb0005), Some(SemVer::new(1, 2, 3)));
    assert_eq!(suite.loaded_kbs(), vec![KbId::Kb0005]);
    assert_eq!(suite.lookup_particle("في").unwrap().meaning, "in");
    assert!(suite.lookup_particle("من").is_none());
    assert!(suite.lookup_pronoun("هو").is_none());
    assert!(suite.particles().is_some());
    assert!(suite.roots().is_none());

    // The feature database is recorded at version 1.0.0.
    suite.register(KnowledgeBase::Features(FeatureDatabase {
        features: vec![],
        agreement_rules: vec![],
        inference_rules: vec![],
        constraints: vec![],
    }));
    assert_eq!(suite.kb_version(KbId::Kb0007), Some(SemVer::new(1, 0, 0)));
    let map = suite.knowledge_version_map();
    assert_eq!(map.len(), 2);
    assert_eq!(map.get("KB-0005").map(|s| s.as_str()), Some("1.2.3"));
    assert_eq!(map.get("KB-0007").map(|s| s.as_str()), Some("1.0.0"));
    assert_eq!(suite.versions(), vec![(KbId::Kb0005, SemVer::new(1, 2, 3)), (KbId::Kb0007, SemVer::new(1, 0, 0))]);

    // Registering again replaces the version.
    suite.register(KnowledgeBase::Particles(KbStore::new(metadata(KbId::Kb0005, SemVer::new(2, 0, 0)))));
    assert_eq!(suite.kb_version(KbId::Kb0005), Some(SemVer::new(2, 0, 0)));
    assert!(suite.lookup_particle("في").is_none());
}

fn kb0004_sample() -> Kb0004 {
    let mut kb = Kb0004::empty();
    kb.insert_stem_override(StemOverrideEntry {
        stem_text: "رجل".to_string(),
        pos: PartOfSpeech::Noun,
        confidence: 950_000,
        secondary_pos: None,
        source: "seed".to_string(),
        category: None,
    });
    kb.insert_stem_override(StemOverrideEntry {
        stem_text: "كتب".to_string(),
        pos: PartOfSpeech::Verb,
        confidence: 900_000,
        secondary_pos: Some(PartOfSpeech::Noun),
        source: "seed".to_string(),
        category: None,
    });
    kb.push_verb_profile(VerbPosProfile {
        verb_form: 1,
        canonical_pattern: "فَعَلَ".to_string(),
        template_script: "C1aC2aC3a".to_string(),
        default_pos: PartOfSpeech::Verb,
        default_confidence: 300_000,
        boosted_confidence: Some(350_000),
        min_stem_len: 3,
        max_stem_len: 3,
        prefix_pattern: None,
        root_type_applicability: vec![],
    });
    kb.push_verb_profile(VerbPosProfile {
        verb_form: 1,
        canonical_pattern: "فَعِلَ".to_string(),
        template_script: "C1aC2iC3a".to_string(),
        default_pos: PartOfSpeech::Verb,
        default_confidence: 250_000,
        boosted_confidence: None,
        min_stem_len: 3,
        max_stem_len: 3,
        prefix_pattern: None,
        root_type_applicability: vec![],
    });
    kb.insert_noun_profile(NounPosProfile {
        canonical_pattern: "فَاعِل".to_string(),
        template_script: "C1aaC2iC3".to_string(),
        default_pos: PartOfSpeech::Adjective,
        default_confidence: 400_000,
        min_stem_len: 4,
        max_stem_len: 4,
        noun_type: Some("ism_fail".to_string()),
    });
    kb
}

#[test]
fn test_kb0004_lookups() {
    let kb = kb0004_sample();
    assert_eq!(kb.stem_override_count(), 2);
    assert_eq!(kb.verb_profile_count(), 2);
    assert_eq!(kb.noun_profile_count(), 1);
    assert_eq!(kb.is_primarily_noun(&chars("رجل")), Some(950_000));
    assert_eq!(kb.is_primarily_verb(&chars("رجل")), None);
    assert_eq!(kb.is_primarily_verb(&chars("كتب")), Some(900_000));
    assert_eq!(kb.is_primarily_noun(&chars("قلم")), None);
    let best = kb.best_pos_for_3l_stem(&chars("كتب")).unwrap();
    assert_eq!(best.0, PartOfSpeech::Verb);
    assert_eq!(best.1, 900_000);
    assert_eq!(best.2, "KB-0004:override:seed");
    assert_eq!(kb.verb_profiles_for_form(1).len(), 2);
    assert_eq!(kb.verb_profiles_for_form(2).len(), 0);
    assert_eq!(kb.verb_confidence(1), 300_000);
    assert_eq!(kb.verb_boosted_confidence(1), 350_000);
    assert_eq!(kb.verb_confidence(3), 0);
    assert!(kb.has_verb_profiles(1));
    assert!(!kb.has_verb_profiles(7));
    assert_eq!(kb.noun_pos(&chars("فَاعِل")), PartOfSpeech::Adjective);
    assert_eq!(kb.noun_pos(&chars("مَفْعُول")), PartOfSpeech::Noun);
    assert_eq!(kb.noun_confidence(&chars("مَفْعُول")), 150_000);
    assert!(kb.noun_is_adjective(&chars("فَاعِل")));
    assert!(kb.noun_outranks_verb(&chars("فَاعِل"), 1));
    assert!(!kb.noun_outranks_verb(&chars("مَفْعُول"), 1));
}

#[test]
fn test_kb0004_override_replaces_entry() {
    let mut kb = kb0004_sample();
    kb.insert_stem_override(StemOverrideEntry {
        stem_text: "رجل".to_string(),
        pos: PartOfSpeech::Verb,
        confidence: 100_000,
        secondary_pos: None,
        source: "later".to_string(),
        category: None,
    });
    assert_eq!(kb.stem_override_count(), 2);
    assert_eq!(kb.is_primarily_verb(&chars("رجل")), Some(100_000));
}

#[test]
fn test_boosted_confidence_is_smallest_boost() {
    let mut kb = kb0004_sample();
    kb.push_verb_profile(VerbPosProfile {
        verb_form: 1,
        canonical_pattern: "فَعُلَ".to_string(),
        template_script: "C1aC2uC3a".to_string(),
        default_pos: PartOfSpeech::Verb,
        default_confidence: 200_000,
        boosted_confidence: Some(320_000),
        min_stem_len: 3,
        max_stem_len: 3,
        prefix_pattern: None,
        root_type_applicability: vec![],
    });
    assert_eq!(kb.verb_boosted_confidence(1), 320_000);
    // Without any boosted profile the base confidence is used.
    kb.push_verb_profile(VerbPosProfile {
        verb_form: 2,
        canonical_pattern: "فَعَّلَ".to_string(),
        template_script: "C1aC2C2aC3a".to_string(),
        default_pos: PartOfSpeech::Verb,
        default_confidence: 350_000,
        boosted_confidence: None,
        min_stem_len: 3,
        max_stem_len: 4,
        prefix_pattern: None,
        root_type_applicability: vec![],
    });
    assert_eq!(kb.verb_boosted_confidence(2), 350_000);
}

#[test]
fn test_roots_is_last_registered() {
    let mut suite = KbSuite::empty();
    assert!(suite.roots().is_none());
    suite.register(KnowledgeBase::Roots(KbStore::new(metadata(KbId::Kb0001, SemVer::new(1, 0, 0)))));
    suite.register(KnowledgeBase::Particles(KbStore::new(metadata(KbId::Kb0005, SemVer::new(1, 1, 0)))));
    assert_eq!(suite.roots().unwrap().metadata.version, SemVer::new(1, 0, 0));
    suite.register(KnowledgeBase::Roots(KbStore::new(metadata(KbId::Kb0001, SemVer::new(3, 2, 1)))));
    suite.register(KnowledgeBase::Features(FeatureDatabase {
        features: vec![],
        agreement_rules: vec![],
        inference_rules: vec![],
        constraints: vec![],
    }));
    assert_eq!(suite.roots().unwrap().metadata.version, SemVer::new(3, 2, 1));
    assert_eq!(suite.kb_version(KbId::Kb0001), Some(SemVer::new(3, 2, 1)));
}
