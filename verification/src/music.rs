//! The symbolic music model: durations, pitches, note events, scores
//! and the small enumerations that describe them.

use vstd::prelude::*;

mod duration;
pub mod frequency;
mod measure;
mod note;
mod staff;

pub use duration::NoteDuration;
pub use frequency::{midi_frequency_millihz, spec_midi_frequency_millihz};
pub use measure::{Measure, TimeSignature};
pub use note::{Accidental, NoteEvent, NoteId, Pitch, PitchClass, StemDirection};
pub use staff::{Clef, KeySignature, Staff, StaffSystem};

verus! {

pub type DurationValue = NoteDuration;

#[derive(Clone, Copy, Debug, PartialEq, Eq, Structural)]
pub enum DynamicMark {
    Ppp,
    Pp,
    P,
    Mp,
    Mf,
    F,
    Ff,
    Fff,
    Cresc,
    Dim,
    Sfz,
}

impl DynamicMark {
    pub open spec fn spec_label(self) -> Seq<char> {
        match self {
            DynamicMark::Ppp => "ppp"@,
            DynamicMark::Pp => "pp"@,
            DynamicMark::P => "p"@,
            DynamicMark::Mp => "mp"@,
            DynamicMark::Mf => "mf"@,
            DynamicMark::F => "f"@,
            DynamicMark::Ff => "ff"@,
            DynamicMark::Fff => "fff"@,
            DynamicMark::Cresc => "cresc."@,
            DynamicMark::Dim => "dim."@,
            DynamicMark::Sfz => "sfz"@,
        }
    }

    pub fn label(self) -> (name: &'static str)
        ensures
            name@ == self.spec_label(),
    {
        match self {
            DynamicMark::Ppp => "ppp",
            DynamicMark::Pp => "pp",
            DynamicMark::P => "p",
            DynamicMark::Mp => "mp",
            DynamicMark::Mf => "mf",
            DynamicMark::F => "f",
            DynamicMark::Ff => "ff",
            DynamicMark::Fff => "fff",
            DynamicMark::Cresc => "cresc.",
            DynamicMark::Dim => "dim.",
            DynamicMark::Sfz => "sfz",
        }
    }
}

#[derive(Clone, Copy, Debug, PartialEq, Eq, Structural)]
pub enum Articulation {
    Plain,
    Staccato,
    Tenuto,
    Accent,
    Marcato,
    Fermata,
}

impl Articulation {
    pub open spec fn spec_label(self) -> Seq<char> {
        match self {
            Articulation::Plain => "—"@,
            Articulation::Staccato => "Staccato"@,
            Articulation::Tenuto => "Tenuto"@,
            Articulation::Accent => "Acento"@,
            Articulation::Marcato => "Marcato"@,
            Articulation::Fermata => "Fermata"@,
        }
    }

    pub fn label(self) -> (name: &'static str)
        ensures
            name@ == self.spec_label(),
    {
        match self {
            Articulation::Plain => "—",
            Articulation::Staccato => "Staccato",
            Articulation::Tenuto => "Tenuto",
            Articulation::Accent => "Acento",
            Articulation::Marcato => "Marcato",
            Articulation::Fermata => "Fermata",
        }
    }
}

#[derive(Clone, Copy, Debug, PartialEq, Eq, Structural)]
pub enum Ornament {
    Plain,
    Trill,
    Mordent,
    Turn,
    Grace,
    Tremolo,
}

impl Ornament {
    pub open spec fn spec_label(self) -> Seq<char> {
        match self {
            Ornament::Plain => "—"@,
            Ornament::Trill => "Trinado"@,
            Ornament::Mordent => "Mordente"@,
            Ornament::Turn => "Grupeto"@,
            Ornament::Grace => "Acciaccatura"@,
            Ornament::Tremolo => "Tremolo"@,
        }
    }

    pub fn label(self) -> (name: &'static str)
        ensures
            name@ == self.spec_label(),
    {
        match self {
            Ornament::Plain => "—",
            Ornament::Trill => "Trinado",
            Ornament::Mordent => "Mordente",
            Ornament::Turn => "Grupeto",
            Ornament::Grace => "Acciaccatura",
            Ornament::Tremolo => "Tremolo",
        }
    }
}

#[derive(Clone, Copy, Debug, PartialEq, Eq, Structural)]
pub enum Instrument {
    Violin,
    Viola,
    Cello,
    Flute,
    Clarinet,
    Trumpet,
    Horn,
    Timpani,
    Piano,
}

impl Instrument {
    pub open spec fn spec_label(self) -> Seq<char> {
        match self {
            Instrument::Violin => "Violino"@,
            Instrument::Viola => "Viola"@,
            Instrument::Cello => "Violoncelo"@,
            Instrument::Flute => "Flauta"@,
            Instrument::Clarinet => "Clarinete"@,
            Instrument::Trumpet => "Trompete"@,
            Instrument::Horn => "Trompa"@,
            Instrument::Timpani => "Tímpanos"@,
            Instrument::Piano => "Piano"@,
        }
    }

    pub fn label(self) -> (name: &'static str)
        ensures
            name@ == self.spec_label(),
    {
        match self {
            Instrument::Violin => "Violino",
            Instrument::Viola => "Viola",
            Instrument::Cello => "Violoncelo",
            Instrument::Flute => "Flauta",
            Instrument::Clarinet => "Clarinete",
            Instrument::Trumpet => "Trompete",
            Instrument::Horn => "Trompa",
            Instrument::Timpani => "Tímpanos",
            Instrument::Piano => "Piano",
        }
    }
}

#[derive(Clone, Copy, Debug, PartialEq, Eq, Structural)]
pub enum PaperSize {
    A4,
    A3,
    Letter,
}

impl PaperSize {
    pub open spec fn spec_label(self) -> Seq<char> {
        match self {
            PaperSize::A4 => "A4"@,
            PaperSize::A3 => "A3"@,
            PaperSize::Letter => "Letter"@,
        }
    }

    pub fn label(self) -> (name: &'static str)
        ensures
            name@ == self.spec_label(),
    {
        match self {
            PaperSize::A4 => "A4",
            PaperSize::A3 => "A3",
            PaperSize::Letter => "Letter",
        }
    }
}

#[derive(Clone, Debug)]
pub struct ScoreSettings {
    pub title: String,
    pub composer: String,
    pub key_signature: KeySignature,
    pub time_signature: TimeSignature,
    pub paper_size: PaperSize,
}

impl Default for ScoreSettings {
    fn default() -> (settings: Self)
        ensures
            settings.title@ == "Nova Partitura"@,
            settings.composer@ == "Compositor"@,
            settings.key_signature == KeySignature::C,
            settings.time_signature == TimeSignature::FourFour,
            settings.paper_size == PaperSize::A4,
    {
        ScoreSettings {
            title: "Nova Partitura".to_owned(),
            composer: "Compositor".to_owned(),
            key_signature: KeySignature::C,
            time_signature: TimeSignature::FourFour,
            paper_size: PaperSize::A4,
        }
    }
}

/// Sum of the sounding lengths of a sequence of notes, in beat units.
pub open spec fn spec_total_beat_units(notes: Seq<NoteEvent>) -> int
    decreases notes.len(),
{
    if notes.len() == 0 {
        0
    } else {
        spec_total_beat_units(notes.drop_last()) + notes.last().spec_effective_beat_units()
    }
}

pub proof fn lemma_total_beat_units_bound(notes: Seq<NoteEvent>)
    ensures
        0 <= spec_total_beat_units(notes) <= 384 * notes.len(),
    decreases notes.len(),
{
    if notes.len() > 0 {
        lemma_total_beat_units_bound(notes.drop_last());
    }
}

#[derive(Clone, Debug)]
pub struct Score {
    pub notes: Vec<NoteEvent>,
}

impl Default for Score {
    fn default() -> (score: Self)
        ensures
            score.notes@.len() == 0,
    {
        Score { notes: Vec::new() }
    }
}

impl Score {
    /// Total length of the score in beat units: the sum of every
    /// note's sounding length (dots included).
    pub fn total_beat_units(&self) -> (total: u64)
        requires
            self.notes@.len() <= 0x1000_0000,
        ensures
            total == spec_total_beat_units(self.notes@),
    {
        let mut total: u64 = 0;
        let note_count = self.notes.len();
        proof {
            assert(self.notes@.subrange(0, 0) =~= Seq::<NoteEvent>::empty());
        }
        for i in 0..note_count
            invariant
                note_count == self.notes@.len() <= 0x1000_0000,
                total == spec_total_beat_units(self.notes@.subrange(0, i as int)),
                total <= 384 * i,
        {
            proof {
                assert(self.notes@.subrange(0, i + 1).drop_last() =~= self.notes@.subrange(
                    0,
                    i as int,
                ));
                assert(self.notes@.subrange(0, i + 1).last() == self.notes@[i as int]);
            }
            total = total + self.notes[i].effective_beat_units();
        }
        proof {
            assert(self.notes@.subrange(0, note_count as int) =~= self.notes@);
        }
        total
    }

    /// How many measures the score fills, in thousandths of a measure,
    /// rounded down: a three-beat score in common time yields 750.
    pub fn total_measures_milli(&self, time_signature: TimeSignature) -> (measures: u64)
        requires
            self.notes@.len() <= 0x1000_0000,
        ensures
            measures == 1000 * spec_total_beat_units(self.notes@)
                / time_signature.spec_beats_per_measure_units() as int,
    {
        proof {
            lemma_total_beat_units_bound(self.notes@);
        }
        let total = self.total_beat_units();
        let per_measure = time_signature.beats_per_measure_units();
        (1000 * total) / per_measure
    }
}

} // verus!
