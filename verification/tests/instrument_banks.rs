use notarium::instruments::registry::{
    InstrumentFamily, InstrumentRegistry, InstrumentRegistryError,
};
use notarium::instruments::repository::InstrumentRepository;
use notarium::common::id::Id;
use notarium::instruments::model::{Clef, Instrument, InstrumentFamily as ModelFamily, Pitch};

#[test]
fn loads_embedded_json() {
    let registry = InstrumentRegistry::load_embedded().expect("embedded JSON should be valid");
    assert!(!registry.is_empty());
    assert!(registry.find_by_name("Violin I").is_some());
    assert!(registry.find_by_name("Soprano Voice").is_some());
    assert!(registry.find_by_name("Taiko").is_some());
}

#[test]
fn registry_lookup_folds_case() {
    let registry = InstrumentRegistry::load_embedded().expect("embedded JSON should be valid");
    let shouted = registry.find_by_name("VIOLIN I").expect("lookup should fold case");
    assert_eq!(shouted.name, "Violin I");
    assert!(registry.find_by_name("violin i").is_some());
    assert!(registry.find_by_name("Theremin").is_none());
}

#[test]
fn registry_rejects_a_bank_that_is_not_an_array() {
    let outcome = InstrumentRegistry::load_from_json("nope");
    match outcome {
        Err(InstrumentRegistryError::Parse(message)) => {
            assert_eq!(message, "array JSON esperado");
        },
        _ => panic!("a bare word is not a bank"),
    }
}

#[test]
fn registry_rejects_an_unknown_family() {
    let bank = "[ {\"id\":\"a1\",\"name\":\"Kazoo\",\"family\":\"Novelty\",\"range_low\":{\"midi\":60},\"range_high\":{\"midi\":72},\"transposition\":0,\"clef\":\"Treble\",\"midi_program\":80} ]";
    let outcome = InstrumentRegistry::load_from_json(bank);
    match outcome {
        Err(InstrumentRegistryError::Parse(message)) => {
            assert_eq!(message, "família desconhecida: Novelty");
        },
        _ => panic!("an unknown family must fail the load"),
    }
}

#[test]
fn registry_rejects_an_inverted_range() {
    let bank = "[ {\"id\":\"a1\",\"name\":\"Upside Down\",\"family\":\"Orchestral\",\"range_low\":{\"midi\":90},\"range_high\":{\"midi\":40},\"transposition\":0,\"clef\":\"Treble\",\"midi_program\":1} ]";
    let outcome = InstrumentRegistry::load_from_json(bank);
    match outcome {
        Err(InstrumentRegistryError::Validation(message)) => {
            assert_eq!(message, "range inválido para Upside Down");
        },
        _ => panic!("an inverted range must fail validation"),
    }
}

#[test]
fn a_later_entry_shadows_an_earlier_name() {
    let bank = "[ {\"id\":\"a1\",\"name\":\"Viola\",\"family\":\"Orchestral\",\"range_low\":{\"midi\":48},\"range_high\":{\"midi\":91},\"transposition\":0,\"clef\":\"Alto\",\"midi_program\":41},\n  {\"id\":\"a2\",\"name\":\"Viola\",\"family\":\"Baroque\",\"range_low\":{\"midi\":48},\"range_high\":{\"midi\":88},\"transposition\":0,\"clef\":\"Alto\",\"midi_program\":41} ]";
    let registry = InstrumentRegistry::load_from_json(bank).expect("both entries parse");
    let found = registry.find_by_name("Viola").expect("the name is known");
    assert_eq!(found.id, "a2");
    assert_eq!(found.family, InstrumentFamily::Baroque);
    assert_eq!(registry.len(), 2);
}

#[test]
fn load_instruments_from_external_json() {
    let json = "[\n            {\n              \"id\":\"0000000000000000000000000000002a\",\n              \"name\":\"Shakuhachi\",\n              \"family\":\"Ethnic\",\n              \"range_low\": 50,\n              \"range_high\": 86,\n              \"transposition\": 0,\n              \"clef\":\"Treble\",\n              \"midi_program\": 77\n            }\n        ]";
    let mut repo = InstrumentRepository::default();
    let loaded = repo.load_json_str(json).expect("load json");
    assert_eq!(loaded, 1);
    assert_eq!(repo.all().len(), 1);
}

#[test]
fn repository_applies_field_defaults() {
    let json = "[ {\"name\":\"Mystery\",\"family\":\"Ethnic\",\"midi_program\": 9} ]";
    let mut repo = InstrumentRepository::default();
    let loaded = repo.load_json_str(json).expect("load json");
    assert_eq!(loaded, 1);
    let all = repo.all();
    assert_eq!(all.len(), 1);
    assert_eq!(all[0].range_low.midi_note, 36);
    assert_eq!(all[0].range_high.midi_note, 96);
    assert_eq!(all[0].transposition, 0);
}

#[test]
fn repository_requires_a_name() {
    let json = "[ {\"family\":\"Ethnic\",\"midi_program\": 9} ]";
    let mut repo = InstrumentRepository::default();
    assert!(repo.load_json_str(json).is_err());
}

#[test]
fn builtin_repository_offers_six_instruments() {
    let repo = InstrumentRepository::with_builtin();
    let all = repo.all();
    assert_eq!(all.len(), 6);
    assert!(all.iter().any(|i| i.name == "Violin"));
    assert!(all.iter().any(|i| i.name == "Frame Drum"));
}

#[test]
fn a_reinserted_identifier_shadows_the_stored_instrument() {
    let mut repo = InstrumentRepository::default();
    let id = Id(7);
    let first = Instrument {
        id,
        name: "First".to_owned(),
        family: ModelFamily::Orchestral,
        range_low: Pitch::new(40),
        range_high: Pitch::new(80),
        transposition: 0,
        clef: Clef::Treble,
        midi_program: 1,
    };
    let mut second = first.clone();
    second.name = "Second".to_owned();
    repo.insert(first);
    repo.insert(second);
    let found = repo.get(&id).expect("the identifier is stored");
    assert_eq!(found.name, "Second");
    assert_eq!(repo.len(), 1);
}
