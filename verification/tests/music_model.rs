use notarium::input::apply_pitch_step;
use notarium::music::{
    midi_frequency_millihz, Accidental, Instrument, NoteDuration, NoteEvent, Pitch, PitchClass,
    Score, TimeSignature,
};
use notarium::notation::{instrument_short_name, midi_to_pitch, needs_stem};

fn pitch(class: PitchClass, octave: i8) -> Pitch {
    Pitch { class, octave, accidental: Accidental::Unmarked }
}

#[test]
fn music_a4_frequency_is_440() {
    let a4 = pitch(PitchClass::A, 4);
    let hz = a4.frequency_millihz() as f64 / 1000.0;
    assert!((hz - 440.0).abs() < 0.001);
}

#[test]
fn mod_a4_frequency_is_440() {
    let a4 = Pitch { class: PitchClass::A, octave: 4, accidental: Accidental::Unmarked };
    assert_eq!(a4.frequency_millihz(), 440_000);
}

#[test]
fn frequency_is_monotonic_in_midi_number() {
    let mut previous = midi_frequency_millihz(0);
    for midi in 1..=127 {
        let current = midi_frequency_millihz(midi);
        assert!(previous < current);
        previous = current;
    }
}

#[test]
fn accidentals_shift_by_one_semitone() {
    let base = pitch(PitchClass::A, 4);
    let sharp = Pitch { class: PitchClass::A, octave: 4, accidental: Accidental::Sharp };
    let flat = Pitch { class: PitchClass::A, octave: 4, accidental: Accidental::Flat };
    assert_eq!(base.midi_number(), 69);
    assert_eq!(sharp.midi_number(), 70);
    assert_eq!(flat.midi_number(), 68);
}

#[test]
fn music_score_beats_sum_correctly() {
    let score = Score {
        notes: vec![
            NoteEvent::new(pitch(PitchClass::C, 4), NoteDuration::Half, Instrument::Piano),
            NoteEvent::new(pitch(PitchClass::G, 4), NoteDuration::Quarter, Instrument::Piano),
        ],
    };
    let beats = score.total_beat_units() as f32 / 64.0;
    assert!((beats - 3.0).abs() < f32::EPSILON);
    let measures = score.total_measures_milli(TimeSignature::ThreeFour) as f32 / 1000.0;
    assert!((measures - 1.0).abs() < f32::EPSILON);
}

#[test]
fn mod_score_beats_sum_correctly() {
    let score = Score {
        notes: vec![
            NoteEvent::new(pitch(PitchClass::C, 4), NoteDuration::Half, Instrument::Piano),
            NoteEvent::new(pitch(PitchClass::G, 4), NoteDuration::Quarter, Instrument::Piano),
        ],
    };
    assert_eq!(score.total_beat_units(), 192);
    assert_eq!(score.total_measures_milli(TimeSignature::ThreeFour), 1000);
}

#[test]
fn two_note_score_fills_three_quarters_of_common_time() {
    let score = Score {
        notes: vec![
            NoteEvent::new(pitch(PitchClass::C, 4), NoteDuration::Half, Instrument::Piano),
            NoteEvent::new(pitch(PitchClass::G, 4), NoteDuration::Quarter, Instrument::Piano),
        ],
    };
    assert_eq!(score.total_beat_units(), 192);
    assert_eq!(score.total_measures_milli(TimeSignature::FourFour), 750);
}

#[test]
fn dotted_notes_last_one_and_a_half_times_as_long() {
    for duration in [
        NoteDuration::Whole,
        NoteDuration::Half,
        NoteDuration::Quarter,
        NoteDuration::Eighth,
        NoteDuration::Sixteenth,
        NoteDuration::ThirtySecond,
        NoteDuration::SixtyFourth,
    ] {
        let plain = NoteEvent::new(pitch(PitchClass::C, 4), duration, Instrument::Piano);
        let mut dotted = NoteEvent::new(pitch(PitchClass::C, 4), duration, Instrument::Piano);
        dotted.dotted = true;
        assert_eq!(2 * dotted.effective_beat_units(), 3 * plain.effective_beat_units());
    }
}

#[test]
fn duration_table_reads_back_from_beat_units() {
    assert_eq!(NoteDuration::Quarter.beat_units(), 64);
    assert_eq!(NoteDuration::from_beat_units(64), NoteDuration::Quarter);
    assert_eq!(NoteDuration::from_beat_units(256), NoteDuration::Whole);
    assert_eq!(NoteDuration::from_beat_units(5), NoteDuration::SixtyFourth);
}

#[test]
fn pitch_stepping_carries_octaves() {
    let mut p = pitch(PitchClass::C, 4);
    apply_pitch_step(&mut p, 1);
    assert_eq!(p.class, PitchClass::D);
    assert_eq!(p.octave, 4);

    let mut p = pitch(PitchClass::B, 4);
    apply_pitch_step(&mut p, 1);
    assert_eq!(p.class, PitchClass::C);
    assert_eq!(p.octave, 5);

    let mut p = pitch(PitchClass::C, 4);
    apply_pitch_step(&mut p, -1);
    assert_eq!(p.class, PitchClass::B);
    assert_eq!(p.octave, 3);
}

#[test]
fn notation_lookups_match_the_page_drawer() {
    assert!(!needs_stem(NoteDuration::Whole));
    assert!(needs_stem(NoteDuration::Half));
    let middle_c = midi_to_pitch(60);
    assert_eq!(middle_c.class, PitchClass::C);
    assert_eq!(middle_c.octave, 4);
    assert_eq!(instrument_short_name(Instrument::Violin), "Vln.");
}

#[test]
fn pitch_labels_spell_octave_and_accidental() {
    let c_sharp_5 = Pitch { class: PitchClass::C, octave: 5, accidental: Accidental::Sharp };
    assert_eq!(c_sharp_5.label(), "C♯5");
    let low = Pitch { class: PitchClass::A, octave: -1, accidental: Accidental::Unmarked };
    assert_eq!(low.label(), "A-1");
}
