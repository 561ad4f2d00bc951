//! Buffer-ahead-of-time synthesis planning.
//!
//! The audio samples themselves are floating-point and are produced
//! by the unverified shell around this library; everything that can
//! be decided exactly is decided here: how many samples each note
//! gets, the fundamental frequency, the instrument's harmonic
//! mixture, and the attack/sustain/release gain at every sample.
//!
//! The canonical numeric profile: 44.1 kHz sample rate, 20 ms attack
//! ceiling, 80 ms release tail, 0.9 sustain plateau and 0.35 headroom.

use vstd::prelude::*;

use crate::music::frequency::spec_midi_frequency_millihz;
use crate::music::{Instrument, NoteEvent};

verus! {

/// Samples per second of the rendered audio.
pub const SAMPLE_RATE: u32 = 44_100;

/// Attack window ceiling in samples: 20 ms at 44.1 kHz.
pub const ATTACK_CEILING_SAMPLES: u64 = 882;

/// Release tail in samples: 80 ms at 44.1 kHz.
pub const RELEASE_TAIL_SAMPLES: u64 = 3_528;

/// Sustain plateau of the envelope, in thousandths of full gain.
pub const SUSTAIN_MILLI: u16 = 900;

/// Headroom scalar applied to every sample, in thousandths.
pub const HEADROOM_MILLI: u16 = 350;

/// Length of the attack ramp for a note of `total` samples: a quarter
/// of the note, rounded up so that any audible note fades in, but at
/// most 20 ms.
pub open spec fn spec_attack_samples(total: int) -> int {
    let quarter = (total + 3) / 4;
    if quarter < ATTACK_CEILING_SAMPLES as int {
        quarter
    } else {
        ATTACK_CEILING_SAMPLES as int
    }
}

/// First sample of the release ramp: 80 ms before the end, but never
/// before seven tenths of the note.
pub open spec fn spec_release_start(total: int) -> int {
    let tail_start = if total >= RELEASE_TAIL_SAMPLES as int {
        total - RELEASE_TAIL_SAMPLES as int
    } else {
        0
    };
    let floor = total * 7 / 10;
    if tail_start >= floor {
        tail_start
    } else {
        floor
    }
}

/// Envelope gain at sample `i` of a note of `total` samples, in
/// thousandths of full gain: a linear ramp from silence across the
/// attack, the sustain plateau, and a linear ramp back to silence
/// from the release start to the end of the note.
pub open spec fn spec_envelope_gain_milli(i: int, total: int) -> int
    recommends
        1 <= total,
        0 <= i <= total,
{
    let attack = spec_attack_samples(total);
    let release_start = spec_release_start(total);
    if i < attack {
        1000 * i / attack
    } else if i > release_start {
        1000 * (total - i) / (total - release_start)
    } else {
        SUSTAIN_MILLI as int
    }
}

/// The attack ramp covers at least one sample and the release ramp
/// starts strictly inside the note, so neither ramp divides by zero.
pub proof fn lemma_envelope_windows(total: int)
    requires
        1 <= total,
    ensures
        1 <= spec_attack_samples(total),
        spec_release_start(total) < total,
        0 <= spec_release_start(total),
{
}

/// The envelope starts at exact silence.
pub proof fn lemma_envelope_starts_at_zero(total: int)
    requires
        1 <= total,
    ensures
        spec_envelope_gain_milli(0, total) == 0,
{
    lemma_envelope_windows(total);
}

/// The envelope ends at exact silence.
pub proof fn lemma_envelope_ends_at_zero(total: int)
    requires
        1 <= total,
    ensures
        spec_envelope_gain_milli(total, total) == 0,
{
    lemma_envelope_windows(total);
    let attack = spec_attack_samples(total);
    assert(attack <= (total + 3) / 4);
    assert((total + 3) / 4 <= total) by (nonlinear_arith)
        requires
            1 <= total,
    ;
}

/// The envelope never leaves the unit range.
pub proof fn lemma_envelope_bounded(i: int, total: int)
    requires
        1 <= total,
        0 <= i <= total,
    ensures
        0 <= spec_envelope_gain_milli(i, total) <= 1000,
{
    lemma_envelope_windows(total);
    let attack = spec_attack_samples(total);
    let release_start = spec_release_start(total);
    if i < attack {
        assert(0 <= 1000 * i / attack <= 1000) by (nonlinear_arith)
            requires
                0 <= i < attack,
                1 <= attack,
        ;
    } else if i > release_start {
        assert(0 <= 1000 * (total - i) / (total - release_start) <= 1000) by (nonlinear_arith)
            requires
                release_start < i <= total,
                release_start < total,
        ;
    }
}

/// Envelope gain at sample `i` of a note of `total_samples` samples.
pub fn envelope_gain_milli(i: usize, total_samples: usize) -> (gain: u16)
    requires
        1 <= total_samples <= 100_000_000,
        i <= total_samples,
    ensures
        gain == spec_envelope_gain_milli(i as int, total_samples as int),
        gain <= 1000,
{
    proof {
        lemma_envelope_windows(total_samples as int);
        lemma_envelope_bounded(i as int, total_samples as int);
    }
    let total = total_samples as u64;
    let sample = i as u64;
    let quarter = (total + 3) / 4;
    let attack = if quarter < ATTACK_CEILING_SAMPLES {
        quarter
    } else {
        ATTACK_CEILING_SAMPLES
    };
    let tail_start = if total >= RELEASE_TAIL_SAMPLES {
        total - RELEASE_TAIL_SAMPLES
    } else {
        0
    };
    let floor = total * 7 / 10;
    let release_start = if tail_start >= floor {
        tail_start
    } else {
        floor
    };
    if sample < attack {
        (1000 * sample / attack) as u16
    } else if sample > release_start {
        (1000 * (total - sample) / (total - release_start)) as u16
    } else {
        SUSTAIN_MILLI
    }
}

/// One term of an instrument's harmonic mixture: a sine at
/// `ratio_centi`/100 times the fundamental phase, mixed in with
/// weight `weight_milli`/1000.
#[derive(Clone, Copy, Debug, PartialEq, Eq, Structural)]
pub struct HarmonicTerm {
    pub ratio_centi: u32,
    pub weight_milli: u32,
}

/// The harmonic mixture that gives each instrument its timbre:
/// strings favor close odd harmonics, winds a near-pure tone, brass
/// stronger even harmonics, and the timpani a detuned low pair.
pub open spec fn spec_harmonic_profile(instrument: Instrument) -> Seq<HarmonicTerm> {
    match instrument {
        Instrument::Violin | Instrument::Viola => seq![
            HarmonicTerm { ratio_centi: 100, weight_milli: 1000 },
            HarmonicTerm { ratio_centi: 200, weight_milli: 350 },
            HarmonicTerm { ratio_centi: 300, weight_milli: 200 },
        ],
        Instrument::Cello | Instrument::Horn => seq![
            HarmonicTerm { ratio_centi: 100, weight_milli: 1000 },
            HarmonicTerm { ratio_centi: 50, weight_milli: 450 },
            HarmonicTerm { ratio_centi: 200, weight_milli: 200 },
        ],
        Instrument::Flute => seq![
            HarmonicTerm { ratio_centi: 100, weight_milli: 1000 },
            HarmonicTerm { ratio_centi: 200, weight_milli: 100 },
        ],
        Instrument::Clarinet => seq![
            HarmonicTerm { ratio_centi: 100, weight_milli: 1000 },
            HarmonicTerm { ratio_centi: 300, weight_milli: 550 },
            HarmonicTerm { ratio_centi: 500, weight_milli: 300 },
        ],
        Instrument::Trumpet => seq![
            HarmonicTerm { ratio_centi: 100, weight_milli: 1000 },
            HarmonicTerm { ratio_centi: 200, weight_milli: 400 },
            HarmonicTerm { ratio_centi: 400, weight_milli: 250 },
        ],
        Instrument::Timpani => seq![
            HarmonicTerm { ratio_centi: 100, weight_milli: 800 },
            HarmonicTerm { ratio_centi: 160, weight_milli: 270 },
        ],
        Instrument::Piano => seq![
            HarmonicTerm { ratio_centi: 100, weight_milli: 1000 },
            HarmonicTerm { ratio_centi: 200, weight_milli: 500 },
            HarmonicTerm { ratio_centi: 400, weight_milli: 300 },
        ],
    }
}

/// Sum of the mixing weights of a profile.
pub open spec fn spec_weight_sum(terms: Seq<HarmonicTerm>) -> int
    decreases terms.len(),
{
    if terms.len() == 0 {
        0
    } else {
        spec_weight_sum(terms.drop_last()) + terms.last().weight_milli
    }
}

/// The harmonic mixture of an instrument.
pub fn harmonic_profile(instrument: Instrument) -> (terms: Vec<HarmonicTerm>)
    ensures
        terms@ == spec_harmonic_profile(instrument),
        2 <= terms@.len() <= 3,
{
    let mut terms: Vec<HarmonicTerm> = Vec::new();
    match instrument {
        Instrument::Violin | Instrument::Viola => {
            terms.push(HarmonicTerm { ratio_centi: 100, weight_milli: 1000 });
            terms.push(HarmonicTerm { ratio_centi: 200, weight_milli: 350 });
            terms.push(HarmonicTerm { ratio_centi: 300, weight_milli: 200 });
        },
        Instrument::Cello | Instrument::Horn => {
            terms.push(HarmonicTerm { ratio_centi: 100, weight_milli: 1000 });
            terms.push(HarmonicTerm { ratio_centi: 50, weight_milli: 450 });
            terms.push(HarmonicTerm { ratio_centi: 200, weight_milli: 200 });
        },
        Instrument::Flute => {
            terms.push(HarmonicTerm { ratio_centi: 100, weight_milli: 1000 });
            terms.push(HarmonicTerm { ratio_centi: 200, weight_milli: 100 });
        },
        Instrument::Clarinet => {
            terms.push(HarmonicTerm { ratio_centi: 100, weight_milli: 1000 });
            terms.push(HarmonicTerm { ratio_centi: 300, weight_milli: 550 });
            terms.push(HarmonicTerm { ratio_centi: 500, weight_milli: 300 });
        },
        Instrument::Trumpet => {
            terms.push(HarmonicTerm { ratio_centi: 100, weight_milli: 1000 });
            terms.push(HarmonicTerm { ratio_centi: 200, weight_milli: 400 });
            terms.push(HarmonicTerm { ratio_centi: 400, weight_milli: 250 });
        },
        Instrument::Timpani => {
            terms.push(HarmonicTerm { ratio_centi: 100, weight_milli: 800 });
            terms.push(HarmonicTerm { ratio_centi: 160, weight_milli: 270 });
        },
        Instrument::Piano => {
            terms.push(HarmonicTerm { ratio_centi: 100, weight_milli: 1000 });
            terms.push(HarmonicTerm { ratio_centi: 200, weight_milli: 500 });
            terms.push(HarmonicTerm { ratio_centi: 400, weight_milli: 300 });
        },
    }
    proof {
        assert(terms@ =~= spec_harmonic_profile(instrument));
    }
    terms
}

proof fn lemma_weight_sum2(a: HarmonicTerm, b: HarmonicTerm)
    ensures
        spec_weight_sum(seq![a, b]) == a.weight_milli + b.weight_milli,
{
    assert(seq![a].drop_last() =~= Seq::<HarmonicTerm>::empty());
    assert(spec_weight_sum(Seq::<HarmonicTerm>::empty()) == 0);
    assert(spec_weight_sum(seq![a]) == a.weight_milli);
    assert(seq![a, b].drop_last() =~= seq![a]);
    assert(seq![a, b].last() == b);
}

proof fn lemma_weight_sum3(a: HarmonicTerm, b: HarmonicTerm, c: HarmonicTerm)
    ensures
        spec_weight_sum(seq![a, b, c]) == a.weight_milli + b.weight_milli + c.weight_milli,
{
    lemma_weight_sum2(a, b);
    assert(seq![a, b, c].drop_last() =~= seq![a, b]);
    assert(seq![a, b, c].last() == c);
}

/// The weight sum of every instrument's profile, spelled out.
proof fn lemma_profile_weight_sum(instrument: Instrument)
    ensures
        spec_weight_sum(spec_harmonic_profile(instrument)) == match instrument {
            Instrument::Violin | Instrument::Viola => 1550int,
            Instrument::Cello | Instrument::Horn => 1650int,
            Instrument::Flute => 1100int,
            Instrument::Clarinet => 1850int,
            Instrument::Trumpet => 1650int,
            Instrument::Timpani => 1070int,
            Instrument::Piano => 1800int,
        },
{
    match instrument {
        Instrument::Violin | Instrument::Viola => lemma_weight_sum3(
            HarmonicTerm { ratio_centi: 100, weight_milli: 1000 },
            HarmonicTerm { ratio_centi: 200, weight_milli: 350 },
            HarmonicTerm { ratio_centi: 300, weight_milli: 200 },
        ),
        Instrument::Cello | Instrument::Horn => lemma_weight_sum3(
            HarmonicTerm { ratio_centi: 100, weight_milli: 1000 },
            HarmonicTerm { ratio_centi: 50, weight_milli: 450 },
            HarmonicTerm { ratio_centi: 200, weight_milli: 200 },
        ),
        Instrument::Flute => lemma_weight_sum2(
            HarmonicTerm { ratio_centi: 100, weight_milli: 1000 },
            HarmonicTerm { ratio_centi: 200, weight_milli: 100 },
        ),
        Instrument::Clarinet => lemma_weight_sum3(
            HarmonicTerm { ratio_centi: 100, weight_milli: 1000 },
            HarmonicTerm { ratio_centi: 300, weight_milli: 550 },
            HarmonicTerm { ratio_centi: 500, weight_milli: 300 },
        ),
        Instrument::Trumpet => lemma_weight_sum3(
            HarmonicTerm { ratio_centi: 100, weight_milli: 1000 },
            HarmonicTerm { ratio_centi: 200, weight_milli: 400 },
            HarmonicTerm { ratio_centi: 400, weight_milli: 250 },
        ),
        Instrument::Timpani => lemma_weight_sum2(
            HarmonicTerm { ratio_centi: 100, weight_milli: 800 },
            HarmonicTerm { ratio_centi: 160, weight_milli: 270 },
        ),
        Instrument::Piano => lemma_weight_sum3(
            HarmonicTerm { ratio_centi: 100, weight_milli: 1000 },
            HarmonicTerm { ratio_centi: 200, weight_milli: 500 },
            HarmonicTerm { ratio_centi: 400, weight_milli: 300 },
        ),
    }
}

/// Sum of the mixing weights of an instrument's profile, by which the
/// mixture is normalized so that peak amplitude stays bounded.
pub fn harmonic_norm_milli(instrument: Instrument) -> (norm: u32)
    ensures
        norm == spec_weight_sum(spec_harmonic_profile(instrument)),
        norm >= 1000,
{
    proof {
        lemma_profile_weight_sum(instrument);
    }
    match instrument {
        Instrument::Violin | Instrument::Viola => 1550,
        Instrument::Cello | Instrument::Horn => 1650,
        Instrument::Flute => 1100,
        Instrument::Clarinet => 1850,
        Instrument::Trumpet => 1650,
        Instrument::Timpani => 1070,
        Instrument::Piano => 1800,
    }
}

/// Samples per beat-unit numerator: 60 seconds times 1000 milli-bpm
/// times the sample rate, divided by the 64 units in a beat.
pub const SAMPLES_NUMERATOR_PER_UNIT: u64 = 41_343_750;

/// Number of samples a note of `units` beat units gets at
/// `bpm_milli` thousandths of beats per minute: the real length
/// `units/64 * 60 / bpm` seconds at 44.1 kHz, rounded to the nearest
/// sample, and at least one sample.  Tempi below 20 beats per minute
/// are clamped to 20.
pub open spec fn spec_note_samples(units: u64, bpm_milli: u32) -> int {
    let b = if bpm_milli < 20_000 {
        20_000 as int
    } else {
        bpm_milli as int
    };
    let rounded = (2 * units * SAMPLES_NUMERATOR_PER_UNIT + b) / (2 * b);
    if rounded < 1 {
        1
    } else {
        rounded
    }
}

/// The verified playback plan for one note: everything the audio
/// shell needs to render its samples.
#[derive(Clone, Copy, Debug, PartialEq, Eq, Structural)]
pub struct NotePlan {
    /// Fundamental frequency in millihertz.
    pub frequency_millihz: u64,
    /// Exact length of the note's sample buffer.
    pub sample_count: usize,
    /// Which harmonic profile to mix.
    pub instrument: Instrument,
}

/// The plan a note maps to at a given tempo.
pub open spec fn spec_note_plan(note: NoteEvent, bpm_milli: u32) -> NotePlan {
    NotePlan {
        frequency_millihz: spec_midi_frequency_millihz(note.pitch.spec_midi_number()),
        sample_count: spec_note_samples(note.spec_effective_beat_units(), bpm_milli) as usize,
        instrument: note.instrument,
    }
}

/// Plans one note: resolves its frequency and sizes its buffer.
pub fn plan_note(note: &NoteEvent, bpm_milli: u32) -> (plan: NotePlan)
    ensures
        plan == spec_note_plan(*note, bpm_milli),
        1 <= plan.sample_count <= 794_000,
{
    let units = note.effective_beat_units();
    let b: u64 = if bpm_milli < 20_000 {
        20_000
    } else {
        bpm_milli as u64
    };
    let rounded: u64 = (2 * units * SAMPLES_NUMERATOR_PER_UNIT + b) / (2 * b);
    let sample_count: usize = if rounded < 1 {
        1
    } else {
        proof {
            assert(rounded <= 794_000) by (nonlinear_arith)
                requires
                    rounded == (2 * units * SAMPLES_NUMERATOR_PER_UNIT + b) / (2 * b),
                    units <= 384,
                    b >= 20_000,
            ;
        }
        rounded as usize
    };
    let frequency_millihz = note.pitch.frequency_millihz();
    NotePlan { frequency_millihz, sample_count, instrument: note.instrument }
}

} // verus!
