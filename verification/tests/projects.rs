use notarium::common::id::Id;
use notarium::export::{CpuExporter, ExportError, ScoreExporter};
use notarium::engraving::EngravingRules;
use notarium::project::{
    validate_metadata, KeySignature, NotariumProject, ProjectError, ProjectMetadata,
    TimeSignature,
};
use notarium::render::glyph_cache::GlyphCache;
use notarium::render::{GlProfile, Renderer};
use notarium::ui::app::sanitize_filename;
use notarium::ui::components::format_system_time;
use notarium::ui::home_screen::HomeScreenState;
use notarium::ui::start_screen::StartScreenState;
use notarium::theme::notarium::{Color, NotariumTheme, ThemeMode};
use notarium::theme::notarium_theme::NotariumTheme as PaletteTheme;
use notarium::plugins::vst3::{ProcessBlockConfig, StubVst3Host, Vst3HostError};

fn metadata(title: &str, composer: &str, bpm: u16) -> ProjectMetadata {
    ProjectMetadata {
        title: title.to_owned(),
        subtitle: String::new(),
        composer: composer.to_owned(),
        arranger: String::new(),
        copyright: String::new(),
        key_signature: KeySignature::C,
        time_signature: TimeSignature::new(4, 4).expect("time signature should be valid"),
        bpm,
    }
}

#[test]
fn validates_metadata_happy_path() {
    let metadata = ProjectMetadata {
        title: "Sinfonia".to_owned(),
        subtitle: String::new(),
        composer: "Composer".to_owned(),
        arranger: String::new(),
        copyright: String::new(),
        key_signature: KeySignature::C,
        time_signature: TimeSignature::new(4, 4).expect("time signature should be valid"),
        bpm: 120,
    };
    assert!(validate_metadata(&metadata).is_ok());
}

#[test]
fn validation_rejects_blank_titles_and_wild_tempi() {
    let blank = metadata("   ", "Composer", 120);
    assert!(matches!(validate_metadata(&blank), Err(ProjectError::MissingField("title"))));
    let anonymous = metadata("Sinfonia", "\t", 120);
    assert!(matches!(
        validate_metadata(&anonymous),
        Err(ProjectError::MissingField("composer"))
    ));
    let frantic = metadata("Sinfonia", "Composer", 301);
    assert!(matches!(validate_metadata(&frantic), Err(ProjectError::InvalidBpm(301))));
}

#[test]
fn time_signatures_require_playable_meters() {
    assert!(TimeSignature::new(6, 8).is_ok());
    assert!(matches!(
        TimeSignature::new(0, 4),
        Err(ProjectError::InvalidTimeSignature { numerator: 0, denominator: 4 })
    ));
    assert!(matches!(
        TimeSignature::new(4, 5),
        Err(ProjectError::InvalidTimeSignature { numerator: 4, denominator: 5 })
    ));
}

#[test]
fn create_project_from_start_screen() {
    let state = StartScreenState {
        title: "Suite".to_string(),
        bpm: 96,
        ..Default::default()
    };
    let project = state.create_project();
    assert_eq!(project.metadata.title, "Suite");
    assert_eq!(project.bpm, 96);
}

#[test]
fn from_start_screen_validates_and_copies_the_form() {
    let mut state = StartScreenState::default();
    state.composer = "Composer".to_owned();
    state.selected_instruments.push(Id(0x2a));
    let project = NotariumProject::from_start_screen(&state, "p1".to_owned())
        .expect("a filled form makes a project");
    assert_eq!(project.id, "p1");
    assert_eq!(project.instrument_ids.len(), 1);
    assert!(project.instrument_ids[0].ends_with("2a"));

    let blank = StartScreenState { composer: String::new(), ..StartScreenState::default() };
    assert!(NotariumProject::from_start_screen(&blank, "p2".to_owned()).is_err());
}

#[test]
fn identifiers_round_trip_through_hex() {
    let id = Id::from_hex("0000000000000000000000000000002a").expect("plain hex parses");
    assert_eq!(id, Id(42));
    assert_eq!(Id(42).hex_string(), "0000000000000000000000000000002a");
    assert!(Id::from_hex("").is_none());
    assert!(Id::from_hex("xyz").is_none());
    assert!(Id::from_hex("fffffffffffffffffffffffffffffffff").is_none());
    assert_eq!(Id::from_hex("+2A"), Some(Id(42)));
}

#[test]
fn empty_projects_cannot_be_exported() {
    let exporter = CpuExporter::default();
    let empty = NotariumProject {
        id: "p1".to_owned(),
        metadata: metadata("Sinfonia", "Composer", 120),
        instrument_ids: Vec::new(),
        audio_device: None,
        low_performance_mode: true,
    };
    let rules = EngravingRules::default();
    assert_eq!(exporter.export_pdf(&empty, &rules, "out.pdf"), Err(ExportError::EmptyProject));

    let filled = NotariumProject {
        id: "p2".to_owned(),
        metadata: metadata("Sinfonia", "Composer", 120),
        instrument_ids: vec!["i1".to_owned()],
        audio_device: None,
        low_performance_mode: true,
    };
    assert!(exporter.export_pdf(&filled, &rules, "out.pdf").is_ok());
}

#[test]
fn engraving_defaults_enable_every_feature() {
    let rules = EngravingRules::default();
    assert_eq!(rules.min_system_spacing_px, 72);
    assert!(rules.adaptive_margins);
    assert_eq!(rules.enabled_features.len(), 10);
}

#[test]
fn sanitized_filenames_keep_only_safe_characters() {
    assert_eq!(sanitize_filename("Nova Partitura!"), "NovaPartitura");
    assert_eq!(sanitize_filename("suite_2-b"), "suite_2-b");
    assert_eq!(sanitize_filename("???"), "partitura");
}

#[test]
fn system_times_render_as_seconds() {
    assert_eq!(format_system_time(Some(5)), "5s");
    assert_eq!(format_system_time(None), "desconhecido");
}

#[test]
fn home_screen_reports_an_empty_folder() {
    let empty = HomeScreenState::from_scan(Vec::new());
    assert_eq!(empty.empty_message, "Nenhuma partitura encontrada.");
    assert!(empty.score_files.is_empty());
}

#[test]
fn glyph_cache_assigns_stable_slots() {
    let mut cache = GlyphCache::default();
    cache.register("♯");
    cache.register("♯");
    assert_eq!(cache.entry_count(), 1);
    cache.warmup_music_symbols();
    assert_eq!(cache.entry_count(), 9);
    let first = cache.atlas_checksum();
    assert_eq!(cache.atlas_checksum(), first);
    let renderer = Renderer::new(GlProfile::OpenGl20);
    assert_eq!(renderer.gl_profile.label(), "OpenGL 2.0");
}

#[test]
fn dark_theme_matches_spec() {
    let t = NotariumTheme::new(ThemeMode::DarkRed);
    assert_eq!(t.background, Color::rgb(0x1a, 0x00, 0x00));
    assert_eq!(t.panel, Color::rgb(0x5a, 0x00, 0x00));
    assert_eq!(t.highlight, Color::rgb(0xcc, 0x00, 0x00));
    assert_eq!(t.text_primary, Color::rgb(0xf2, 0xea, 0xea));
}

#[test]
fn noturno_palette_matches_spec() {
    let theme = PaletteTheme::noturno();
    assert_eq!(theme.background.r, 0x1a);
    assert_eq!(theme.panel.r, 0x5a);
    assert_eq!(theme.accent.r, 0xcc);
    assert_eq!(theme.text_primary.g, 0xea);
}

#[test]
fn stub_host_discovers_noteperformer_case_insensitively() {
    let host = StubVst3Host::default();
    let paths = vec![
        "C:/Plugins/NOTEPERFORMER64.vst3".to_owned(),
        "C:/Plugins/Reverb.vst3".to_owned(),
        "/usr/lib/vst3/noteperformer.vst3".to_owned(),
    ];
    let discovered = host.scan_known_paths(&paths).expect("the scan never fails");
    assert_eq!(discovered.len(), 2);
    assert_eq!(discovered[0].name, "NotePerformer");
    assert_eq!(discovered[0].path, "C:/Plugins/NOTEPERFORMER64.vst3");

    let mut host = StubVst3Host::default();
    host.set_processing(ProcessBlockConfig { sample_rate: 48_000, max_buffer_frames: 512 });
    assert!(host.load_plugin(discovered[0].clone()).is_ok());
    assert_eq!(
        host.load_plugin(discovered[1].clone()),
        Err(Vst3HostError::AlreadyLoaded)
    );
}
