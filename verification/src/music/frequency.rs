//! The pitch-to-frequency resolver.
//!
//! Equal temperament doubles the frequency every twelve semitones and
//! anchors A of octave 4 (MIDI 69) at 440 Hz.  The resolver keeps
//! frequencies in millihertz, each entry being the irrational ideal
//! rounded to the nearest millihertz; MIDI numbers outside the usual
//! 0..=127 range are held at the edge values.

use vstd::prelude::*;

use crate::music::Pitch;

verus! {

/// Frequency in millihertz assigned to a MIDI number: the
/// equal-tempered value 440000 * 2^((midi - 69) / 12) rounded to the
/// nearest millihertz, clamped to the standard MIDI range.
pub open spec fn spec_midi_frequency_millihz(midi: int) -> u64 {
    if midi <= 0 {
        8176
    } else if midi == 1 {
        8662
    } else if midi == 2 {
        9177
    } else if midi == 3 {
        9723
    } else if midi == 4 {
        10301
    } else if midi == 5 {
        10913
    } else if midi == 6 {
        11562
    } else if midi == 7 {
        12250
    } else if midi == 8 {
        12978
    } else if midi == 9 {
        13750
    } else if midi == 10 {
        14568
    } else if midi == 11 {
        15434
    } else if midi == 12 {
        16352
    } else if midi == 13 {
        17324
    } else if midi == 14 {
        18354
    } else if midi == 15 {
        19445
    } else if midi == 16 {
        20602
    } else if midi == 17 {
        21827
    } else if midi == 18 {
        23125
    } else if midi == 19 {
        24500
    } else if midi == 20 {
        25957
    } else if midi == 21 {
        27500
    } else if midi == 22 {
        29135
    } else if midi == 23 {
        30868
    } else if midi == 24 {
        32703
    } else if midi == 25 {
        34648
    } else if midi == 26 {
        36708
    } else if midi == 27 {
        38891
    } else if midi == 28 {
        41203
    } else if midi == 29 {
        43654
    } else if midi == 30 {
        46249
    } else if midi == 31 {
        48999
    } else if midi == 32 {
        51913
    } else if midi == 33 {
        55000
    } else if midi == 34 {
        58270
    } else if midi == 35 {
        61735
    } else if midi == 36 {
        65406
    } else if midi == 37 {
        69296
    } else if midi == 38 {
        73416
    } else if midi == 39 {
        77782
    } else if midi == 40 {
        82407
    } else if midi == 41 {
        87307
    } else if midi == 42 {
        92499
    } else if midi == 43 {
        97999
    } else if midi == 44 {
        103826
    } else if midi == 45 {
        110000
    } else if midi == 46 {
        116541
    } else if midi == 47 {
        123471
    } else if midi == 48 {
        130813
    } else if midi == 49 {
        138591
    } else if midi == 50 {
        146832
    } else if midi == 51 {
        155563
    } else if midi == 52 {
        164814
    } else if midi == 53 {
        174614
    } else if midi == 54 {
        184997
    } else if midi == 55 {
        195998
    } else if midi == 56 {
        207652
    } else if midi == 57 {
        220000
    } else if midi == 58 {
        233082
    } else if midi == 59 {
        246942
    } else if midi == 60 {
        261626
    } else if midi == 61 {
        277183
    } else if midi == 62 {
        293665
    } else if midi == 63 {
        311127
    } else if midi == 64 {
        329628
    } else if midi == 65 {
        349228
    } else if midi == 66 {
        369994
    } else if midi == 67 {
        391995
    } else if midi == 68 {
        415305
    } else if midi == 69 {
        440000
    } else if midi == 70 {
        466164
    } else if midi == 71 {
        493883
    } else if midi == 72 {
        523251
    } else if midi == 73 {
        554365
    } else if midi == 74 {
        587330
    } else if midi == 75 {
        622254
    } else if midi == 76 {
        659255
    } else if midi == 77 {
        698456
    } else if midi == 78 {
        739989
    } else if midi == 79 {
        783991
    } else if midi == 80 {
        830609
    } else if midi == 81 {
        880000
    } else if midi == 82 {
        932328
    } else if midi == 83 {
        987767
    } else if midi == 84 {
        1046502
    } else if midi == 85 {
        1108731
    } else if midi == 86 {
        1174659
    } else if midi == 87 {
        1244508
    } else if midi == 88 {
        1318510
    } else if midi == 89 {
        1396913
    } else if midi == 90 {
        1479978
    } else if midi == 91 {
        1567982
    } else if midi == 92 {
        1661219
    } else if midi == 93 {
        1760000
    } else if midi == 94 {
        1864655
    } else if midi == 95 {
        1975533
    } else if midi == 96 {
        2093005
    } else if midi == 97 {
        2217461
    } else if midi == 98 {
        2349318
    } else if midi == 99 {
        2489016
    } else if midi == 100 {
        2637020
    } else if midi == 101 {
        2793826
    } else if midi == 102 {
        2959955
    } else if midi == 103 {
        3135963
    } else if midi == 104 {
        3322438
    } else if midi == 105 {
        3520000
    } else if midi == 106 {
        3729310
    } else if midi == 107 {
        3951066
    } else if midi == 108 {
        4186009
    } else if midi == 109 {
        4434922
    } else if midi == 110 {
        4698636
    } else if midi == 111 {
        4978032
    } else if midi == 112 {
        5274041
    } else if midi == 113 {
        5587652
    } else if midi == 114 {
        5919911
    } else if midi == 115 {
        6271927
    } else if midi == 116 {
        6644875
    } else if midi == 117 {
        7040000
    } else if midi == 118 {
        7458620
    } else if midi == 119 {
        7902133
    } else if midi == 120 {
        8372018
    } else if midi == 121 {
        8869844
    } else if midi == 122 {
        9397273
    } else if midi == 123 {
        9956063
    } else if midi == 124 {
        10548082
    } else if midi == 125 {
        11175303
    } else if midi == 126 {
        11839822
    } else {
        12543854
    }
}

/// Resolves a MIDI number to its equal-tempered frequency.
pub fn midi_frequency_millihz(midi: i32) -> (freq: u64)
    ensures
        freq == spec_midi_frequency_millihz(midi as int),
{
    if midi <= 0 {
        8176
    } else if midi == 1 {
        8662
    } else if midi == 2 {
        9177
    } else if midi == 3 {
        9723
    } else if midi == 4 {
        10301
    } else if midi == 5 {
        10913
    } else if midi == 6 {
        11562
    } else if midi == 7 {
        12250
    } else if midi == 8 {
        12978
    } else if midi == 9 {
        13750
    } else if midi == 10 {
        14568
    } else if midi == 11 {
        15434
    } else if midi == 12 {
        16352
    } else if midi == 13 {
        17324
    } else if midi == 14 {
        18354
    } else if midi == 15 {
        19445
    } else if midi == 16 {
        20602
    } else if midi == 17 {
        21827
    } else if midi == 18 {
        23125
    } else if midi == 19 {
        24500
    } else if midi == 20 {
        25957
    } else if midi == 21 {
        27500
    } else if midi == 22 {
        29135
    } else if midi == 23 {
        30868
    } else if midi == 24 {
        32703
    } else if midi == 25 {
        34648
    } else if midi == 26 {
        36708
    } else if midi == 27 {
        38891
    } else if midi == 28 {
        41203
    } else if midi == 29 {
        43654
    } else if midi == 30 {
        46249
    } else if midi == 31 {
        48999
    } else if midi == 32 {
        51913
    } else if midi == 33 {
        55000
    } else if midi == 34 {
        58270
    } else if midi == 35 {
        61735
    } else if midi == 36 {
        65406
    } else if midi == 37 {
        69296
    } else if midi == 38 {
        73416
    } else if midi == 39 {
        77782
    } else if midi == 40 {
        82407
    } else if midi == 41 {
        87307
    } else if midi == 42 {
        92499
    } else if midi == 43 {
        97999
    } else if midi == 44 {
        103826
    } else if midi == 45 {
        110000
    } else if midi == 46 {
        116541
    } else if midi == 47 {
        123471
    } else if midi == 48 {
        130813
    } else if midi == 49 {
        138591
    } else if midi == 50 {
        146832
    } else if midi == 51 {
        155563
    } else if midi == 52 {
        164814
    } else if midi == 53 {
        174614
    } else if midi == 54 {
        184997
    } else if midi == 55 {
        195998
    } else if midi == 56 {
        207652
    } else if midi == 57 {
        220000
    } else if midi == 58 {
        233082
    } else if midi == 59 {
        246942
    } else if midi == 60 {
        261626
    } else if midi == 61 {
        277183
    } else if midi == 62 {
        293665
    } else if midi == 63 {
        311127
    } else if midi == 64 {
        329628
    } else if midi == 65 {
        349228
    } else if midi == 66 {
        369994
    } else if midi == 67 {
        391995
    } else if midi == 68 {
        415305
    } else if midi == 69 {
        440000
    } else if midi == 70 {
        466164
    } else if midi == 71 {
        493883
    } else if midi == 72 {
        523251
    } else if midi == 73 {
        554365
    } else if midi == 74 {
        587330
    } else if midi == 75 {
        622254
    } else if midi == 76 {
        659255
    } else if midi == 77 {
        698456
    } else if midi == 78 {
        739989
    } else if midi == 79 {
        783991
    } else if midi == 80 {
        830609
    } else if midi == 81 {
        880000
    } else if midi == 82 {
        932328
    } else if midi == 83 {
        987767
    } else if midi == 84 {
        1046502
    } else if midi == 85 {
        1108731
    } else if midi == 86 {
        1174659
    } else if midi == 87 {
        1244508
    } else if midi == 88 {
        1318510
    } else if midi == 89 {
        1396913
    } else if midi == 90 {
        1479978
    } else if midi == 91 {
        1567982
    } else if midi == 92 {
        1661219
    } else if midi == 93 {
        1760000
    } else if midi == 94 {
        1864655
    } else if midi == 95 {
        1975533
    } else if midi == 96 {
        2093005
    } else if midi == 97 {
        2217461
    } else if midi == 98 {
        2349318
    } else if midi == 99 {
        2489016
    } else if midi == 100 {
        2637020
    } else if midi == 101 {
        2793826
    } else if midi == 102 {
        2959955
    } else if midi == 103 {
        3135963
    } else if midi == 104 {
        3322438
    } else if midi == 105 {
        3520000
    } else if midi == 106 {
        3729310
    } else if midi == 107 {
        3951066
    } else if midi == 108 {
        4186009
    } else if midi == 109 {
        4434922
    } else if midi == 110 {
        4698636
    } else if midi == 111 {
        4978032
    } else if midi == 112 {
        5274041
    } else if midi == 113 {
        5587652
    } else if midi == 114 {
        5919911
    } else if midi == 115 {
        6271927
    } else if midi == 116 {
        6644875
    } else if midi == 117 {
        7040000
    } else if midi == 118 {
        7458620
    } else if midi == 119 {
        7902133
    } else if midi == 120 {
        8372018
    } else if midi == 121 {
        8869844
    } else if midi == 122 {
        9397273
    } else if midi == 123 {
        9956063
    } else if midi == 124 {
        10548082
    } else if midi == 125 {
        11175303
    } else if midi == 126 {
        11839822
    } else {
        12543854
    }
}

impl Pitch {
    /// Fundamental frequency of the pitch in millihertz.
    pub fn frequency_millihz(self) -> (freq: u64)
        ensures
            freq == spec_midi_frequency_millihz(self.spec_midi_number()),
    {
        midi_frequency_millihz(self.midi_number())
    }
}

/// One semitone up within the MIDI range is strictly higher.
proof fn lemma_frequency_step(midi: int)
    requires
        0 <= midi < 127,
    ensures
        spec_midi_frequency_millihz(midi) < spec_midi_frequency_millihz(midi + 1),
{
}

/// The resolved frequency is strictly increasing in the MIDI number
/// across the standard MIDI range.
pub proof fn lemma_frequency_strictly_increasing(m1: int, m2: int)
    requires
        0 <= m1 < m2 <= 127,
    ensures
        spec_midi_frequency_millihz(m1) < spec_midi_frequency_millihz(m2),
    decreases m2 - m1,
{
    if m2 == m1 + 1 {
        lemma_frequency_step(m1);
    } else {
        lemma_frequency_strictly_increasing(m1, m2 - 1);
        lemma_frequency_step(m2 - 1);
    }
}

/// Over all MIDI numbers, resolved frequency never decreases.
pub proof fn lemma_frequency_monotonic(m1: int, m2: int)
    requires
        m1 <= m2,
    ensures
        spec_midi_frequency_millihz(m1) <= spec_midi_frequency_millihz(m2),
{
    let lo = if m1 < 0 { 0 } else if m1 > 127 { 127 } else { m1 };
    let hi = if m2 < 0 { 0 } else if m2 > 127 { 127 } else { m2 };
    if lo < hi {
        lemma_frequency_strictly_increasing(lo, hi);
    }
}

/// A in octave 4 with no accidental resolves to exactly 440 Hz.
pub proof fn lemma_a4_is_440_hz()
    ensures
        spec_midi_frequency_millihz(69) == 440000,
{
}

} // verus!
