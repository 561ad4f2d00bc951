use notarium::audio::engine::{AudioBackend, AudioEngine, AudioEngineConfig, AudioEngineError};
use notarium::audio::synth::{envelope_gain_milli, harmonic_norm_milli, harmonic_profile, plan_note};
use notarium::audio::{
    PlaybackCommand, PlaybackConfig, PlaybackEngine, SinkAction, WorkerState,
};
use notarium::music::{
    Accidental, Instrument, NoteDuration, NoteEvent, Pitch, PitchClass, Score,
};
use notarium::playback::{Articulation, Dynamic, ExpressionEngine};
use notarium::project::{
    KeySignature, NotariumProject, ProjectMetadata, TimeSignature,
};

fn note(class: PitchClass, duration: NoteDuration) -> NoteEvent {
    NoteEvent::new(
        Pitch { class, octave: 4, accidental: Accidental::Unmarked },
        duration,
        Instrument::Piano,
    )
}

fn two_note_score() -> Score {
    Score { notes: vec![note(PitchClass::C, NoteDuration::Half), note(PitchClass::G, NoteDuration::Quarter)] }
}

#[test]
fn expression_maps_cc11_in_valid_range() {
    let expr = ExpressionEngine::default();
    let cc = expr.cc11_for_dynamic(Dynamic::Mf);
    assert!((1..=127).contains(&cc));
}

#[test]
fn cc11_values_rise_strictly_from_ppp_to_fff() {
    let expr = ExpressionEngine::default();
    let order = [
        Dynamic::Ppp,
        Dynamic::Pp,
        Dynamic::P,
        Dynamic::Mp,
        Dynamic::Mf,
        Dynamic::F,
        Dynamic::Ff,
        Dynamic::Fff,
    ];
    let expected = [23u8, 32, 44, 61, 79, 99, 114, 127];
    let mut previous: i32 = -1;
    for (dynamic, want) in order.iter().zip(expected.iter()) {
        let cc = expr.cc11_for_dynamic(*dynamic);
        assert_eq!(cc, *want);
        assert!((cc as i32) > previous);
        assert!(cc <= 127);
        previous = cc as i32;
    }
}

#[test]
fn velocity_curve_never_steps_downward() {
    let expr = ExpressionEngine::default();
    let mut previous = 0u16;
    for i in 0..128 {
        let entry = expr.velocity_curve_entry(i);
        assert!(entry >= previous);
        assert!(entry <= 1000);
        previous = entry;
    }
    assert_eq!(expr.velocity_curve_entry(0), 0);
    assert_eq!(expr.velocity_curve_entry(127), 1000);
}

#[test]
fn velocity_for_layer_stays_in_key_velocity_range() {
    let expr = ExpressionEngine::default();
    assert_eq!(expr.velocity_for_layer(0, Dynamic::Ppp), 1);
    assert_eq!(expr.velocity_for_layer(1000, Dynamic::Fff), 127);
    for position in [0u16, 250, 500, 750, 1000] {
        let velocity = expr.velocity_for_layer(position, Dynamic::Mf);
        assert!((1..=127).contains(&velocity));
    }
}

#[test]
fn articulation_styles_match_the_table() {
    let expr = ExpressionEngine::default();
    let staccato = expr.style_for(Articulation::Staccato);
    assert_eq!(staccato.gate_ratio_milli, 450);
    assert_eq!(staccato.velocity_multiplier_milli, 1100);
    assert_eq!(staccato.timing_offset_ms, 4);
    let legato = expr.style_for(Articulation::Legato);
    assert_eq!(legato.timing_offset_ms, -8);
}

#[test]
fn envelope_fades_in_and_out_and_stays_in_range() {
    let total = 44_100usize;
    assert_eq!(envelope_gain_milli(0, total), 0);
    assert_eq!(envelope_gain_milli(total, total), 0);
    assert_eq!(envelope_gain_milli(total / 2, total), 900);
    for i in (0..=total).step_by(441) {
        let gain = envelope_gain_milli(i, total);
        assert!(gain <= 1000);
    }
    assert_eq!(envelope_gain_milli(0, 1), 0);
    assert_eq!(envelope_gain_milli(1, 1), 0);
}

#[test]
fn buffer_length_is_rounded_duration_times_sample_rate() {
    let quarter = note(PitchClass::A, NoteDuration::Quarter);
    let plan = plan_note(&quarter, 120_000);
    assert_eq!(plan.sample_count, 22_050);
    assert_eq!(plan.frequency_millihz, 440_000);

    let sixty_fourth = note(PitchClass::A, NoteDuration::SixtyFourth);
    let plan = plan_note(&sixty_fourth, 300_000);
    let seconds = (1.0 / 16.0) * 60.0 / 300.0;
    let expected = (seconds * 44_100.0_f64).round() as usize;
    assert_eq!(plan.sample_count, expected.max(1));
}

#[test]
fn harmonic_profiles_are_normalized_by_their_weight_sum() {
    for instrument in [
        Instrument::Violin,
        Instrument::Viola,
        Instrument::Cello,
        Instrument::Flute,
        Instrument::Clarinet,
        Instrument::Trumpet,
        Instrument::Horn,
        Instrument::Timpani,
        Instrument::Piano,
    ] {
        let terms = harmonic_profile(instrument);
        let sum: u32 = terms.iter().map(|t| t.weight_milli).sum();
        assert_eq!(sum, harmonic_norm_milli(instrument));
    }
}

#[test]
fn play_then_stop_leaves_the_worker_idle_with_no_sink() {
    let mut worker = WorkerState::new();
    let action = worker.step(PlaybackCommand::Play {
        score: two_note_score(),
        bpm_milli: 110_000,
        config: PlaybackConfig::default(),
    });
    let plans = match action {
        SinkAction::Rebuild { plans } => plans,
        other => panic!("expected a rebuild, got {:?}", sink_action_name(&other)),
    };
    assert_eq!(plans.len(), 2);
    worker.sink_installed();
    assert!(!worker.is_idle());
    let action = worker.step(PlaybackCommand::Stop);
    assert!(matches!(action, SinkAction::StopAndClear));
    assert!(worker.is_idle());
}

#[test]
fn rewind_with_no_prior_play_stays_idle() {
    let mut worker = WorkerState::new();
    let action = worker.step(PlaybackCommand::Rewind);
    assert!(matches!(action, SinkAction::DoNothing));
    assert!(worker.is_idle());
    assert!(worker.last_score.is_none());
}

#[test]
fn pause_and_resume_without_a_play_are_no_ops() {
    let mut worker = WorkerState::new();
    let action = worker.step(PlaybackCommand::Pause);
    assert!(matches!(action, SinkAction::DoNothing));
    let action = worker.step(PlaybackCommand::Resume);
    assert!(matches!(action, SinkAction::DoNothing));
    assert!(worker.is_idle());
    assert!(worker.last_score.is_none());
    assert_eq!(worker.last_bpm_milli, 110_000);
}

#[test]
fn playing_through_the_external_engine_stays_silent() {
    let mut worker = WorkerState::new();
    let config = PlaybackConfig {
        engine: PlaybackEngine::Vst,
        vst_host: "Builtin Host".to_owned(),
        vst_plugin: "NotePerformer".to_owned(),
        noteperformer_profile: true,
    };
    let action = worker.step(PlaybackCommand::Play {
        score: two_note_score(),
        bpm_milli: 110_000,
        config,
    });
    assert!(matches!(action, SinkAction::Clear));
    assert!(worker.is_idle());
}

#[test]
fn rewind_replays_the_cached_score() {
    let mut worker = WorkerState::new();
    let _ = worker.step(PlaybackCommand::Play {
        score: two_note_score(),
        bpm_milli: 110_000,
        config: PlaybackConfig::default(),
    });
    worker.sink_installed();
    let action = worker.step(PlaybackCommand::Rewind);
    let plans = match action {
        SinkAction::Rebuild { plans } => plans,
        _ => panic!("expected a rebuild on rewind"),
    };
    assert_eq!(plans.len(), 2);
}

#[test]
fn audio_engine_rejects_an_empty_project() {
    let mut engine = AudioEngine::new(AudioEngineConfig::default(), AudioBackend::CpuOnly);
    let empty = NotariumProject {
        id: "p1".to_owned(),
        metadata: test_metadata(),
        instrument_ids: Vec::new(),
        audio_device: None,
        low_performance_mode: false,
    };
    assert_eq!(engine.load_project(&empty), Err(AudioEngineError::EmptyProject));

    let loaded = NotariumProject {
        id: "p2".to_owned(),
        metadata: test_metadata(),
        instrument_ids: vec!["i1".to_owned()],
        audio_device: None,
        low_performance_mode: false,
    };
    assert!(engine.load_project(&loaded).is_ok());
    assert!(!engine.low_performance_mode);
    assert_eq!(engine.idle_cpu_budget_permille(), 40);
}

fn test_metadata() -> ProjectMetadata {
    ProjectMetadata {
        title: "Sinfonia".to_owned(),
        subtitle: String::new(),
        composer: "Composer".to_owned(),
        arranger: String::new(),
        copyright: String::new(),
        key_signature: KeySignature::C,
        time_signature: TimeSignature::common_time(),
        bpm: 120,
    }
}

fn sink_action_name(action: &SinkAction) -> &'static str {
    match action {
        SinkAction::DoNothing => "DoNothing",
        SinkAction::PauseSink => "PauseSink",
        SinkAction::ResumeSink => "ResumeSink",
        SinkAction::StopAndClear => "StopAndClear",
        SinkAction::Clear => "Clear",
        SinkAction::Rebuild { .. } => "Rebuild",
    }
}
