//! The expression mapper: dynamics, articulations and the velocity
//! curve that translate symbolic intent into playback parameters.
//!
//! All fractions are kept in thousandths.  The velocity curve is the
//! canonical power-law profile of this engine: entry `i` is
//! 1000 * (i / 127) ^ 0.85 rounded to the nearest thousandth, which
//! rises from silence to full scale and never steps downward.

use vstd::prelude::*;

verus! {

#[derive(Clone, Copy, Debug, PartialEq, Eq, Hash, Structural)]
pub enum Dynamic {
    Ppp,
    Pp,
    P,
    Mp,
    Mf,
    F,
    Ff,
    Fff,
}

impl Dynamic {
    /// Position of the mark in the quiet-to-loud order.
    pub open spec fn spec_rank(self) -> int {
        match self {
            Dynamic::Ppp => 0,
            Dynamic::Pp => 1,
            Dynamic::P => 2,
            Dynamic::Mp => 3,
            Dynamic::Mf => 4,
            Dynamic::F => 5,
            Dynamic::Ff => 6,
            Dynamic::Fff => 7,
        }
    }

    /// Normalized loudness of the mark in thousandths.
    pub open spec fn spec_loudness_milli(self) -> u32 {
        match self {
            Dynamic::Ppp => 180,
            Dynamic::Pp => 250,
            Dynamic::P => 350,
            Dynamic::Mp => 480,
            Dynamic::Mf => 620,
            Dynamic::F => 780,
            Dynamic::Ff => 900,
            Dynamic::Fff => 1000,
        }
    }

    pub fn loudness_milli(self) -> (loudness: u32)
        ensures
            loudness == self.spec_loudness_milli(),
            180 <= loudness <= 1000,
    {
        match self {
            Dynamic::Ppp => 180,
            Dynamic::Pp => 250,
            Dynamic::P => 350,
            Dynamic::Mp => 480,
            Dynamic::Mf => 620,
            Dynamic::F => 780,
            Dynamic::Ff => 900,
            Dynamic::Fff => 1000,
        }
    }
}

#[derive(Clone, Copy, Debug, PartialEq, Eq, Hash, Structural)]
pub enum Articulation {
    Legato,
    Staccato,
    Marcato,
    Tenuto,
    Tremolo,
}

/// How an articulation shapes playback: the sounded fraction of the
/// nominal duration, a loudness multiplier, and an onset shift.
#[derive(Clone, Copy, Debug, PartialEq, Eq, Structural)]
pub struct PlaybackStyle {
    /// Sounded fraction of the nominal duration, in thousandths.
    pub gate_ratio_milli: u16,
    /// Velocity multiplier in thousandths.
    pub velocity_multiplier_milli: u16,
    /// Onset shift in milliseconds; negative plays early.
    pub timing_offset_ms: i16,
}

/// The playback style assigned to each articulation.
pub open spec fn spec_style_for(articulation: Articulation) -> PlaybackStyle {
    match articulation {
        Articulation::Legato => PlaybackStyle {
            gate_ratio_milli: 980,
            velocity_multiplier_milli: 950,
            timing_offset_ms: -8i16,
        },
        Articulation::Staccato => PlaybackStyle {
            gate_ratio_milli: 450,
            velocity_multiplier_milli: 1100,
            timing_offset_ms: 4,
        },
        Articulation::Marcato => PlaybackStyle {
            gate_ratio_milli: 650,
            velocity_multiplier_milli: 1200,
            timing_offset_ms: 0,
        },
        Articulation::Tenuto => PlaybackStyle {
            gate_ratio_milli: 920,
            velocity_multiplier_milli: 1000,
            timing_offset_ms: -2i16,
        },
        Articulation::Tremolo => PlaybackStyle {
            gate_ratio_milli: 500,
            velocity_multiplier_milli: 850,
            timing_offset_ms: 0,
        },
    }
}

/// Entry `i` of the canonical velocity curve, in thousandths.
pub open spec fn spec_velocity_curve(i: int) -> u16 {
    if i <= 0 {
        0
    } else if i == 1 {
        16
    } else if i == 2 {
        29
    } else if i == 3 {
        41
    } else if i == 4 {
        53
    } else if i == 5 {
        64
    } else if i == 6 {
        75
    } else if i == 7 {
        85
    } else if i == 8 {
        95
    } else if i == 9 {
        105
    } else if i == 10 {
        115
    } else if i == 11 {
        125
    } else if i == 12 {
        135
    } else if i == 13 {
        144
    } else if i == 14 {
        153
    } else if i == 15 {
        163
    } else if i == 16 {
        172
    } else if i == 17 {
        181
    } else if i == 18 {
        190
    } else if i == 19 {
        199
    } else if i == 20 {
        208
    } else if i == 21 {
        217
    } else if i == 22 {
        225
    } else if i == 23 {
        234
    } else if i == 24 {
        243
    } else if i == 25 {
        251
    } else if i == 26 {
        260
    } else if i == 27 {
        268
    } else if i == 28 {
        277
    } else if i == 29 {
        285
    } else if i == 30 {
        293
    } else if i == 31 {
        302
    } else if i == 32 {
        310
    } else if i == 33 {
        318
    } else if i == 34 {
        326
    } else if i == 35 {
        334
    } else if i == 36 {
        342
    } else if i == 37 {
        351
    } else if i == 38 {
        359
    } else if i == 39 {
        367
    } else if i == 40 {
        375
    } else if i == 41 {
        383
    } else if i == 42 {
        390
    } else if i == 43 {
        398
    } else if i == 44 {
        406
    } else if i == 45 {
        414
    } else if i == 46 {
        422
    } else if i == 47 {
        430
    } else if i == 48 {
        437
    } else if i == 49 {
        445
    } else if i == 50 {
        453
    } else if i == 51 {
        460
    } else if i == 52 {
        468
    } else if i == 53 {
        476
    } else if i == 54 {
        483
    } else if i == 55 {
        491
    } else if i == 56 {
        499
    } else if i == 57 {
        506
    } else if i == 58 {
        514
    } else if i == 59 {
        521
    } else if i == 60 {
        529
    } else if i == 61 {
        536
    } else if i == 62 {
        544
    } else if i == 63 {
        551
    } else if i == 64 {
        558
    } else if i == 65 {
        566
    } else if i == 66 {
        573
    } else if i == 67 {
        581
    } else if i == 68 {
        588
    } else if i == 69 {
        595
    } else if i == 70 {
        603
    } else if i == 71 {
        610
    } else if i == 72 {
        617
    } else if i == 73 {
        625
    } else if i == 74 {
        632
    } else if i == 75 {
        639
    } else if i == 76 {
        646
    } else if i == 77 {
        654
    } else if i == 78 {
        661
    } else if i == 79 {
        668
    } else if i == 80 {
        675
    } else if i == 81 {
        682
    } else if i == 82 {
        689
    } else if i == 83 {
        697
    } else if i == 84 {
        704
    } else if i == 85 {
        711
    } else if i == 86 {
        718
    } else if i == 87 {
        725
    } else if i == 88 {
        732
    } else if i == 89 {
        739
    } else if i == 90 {
        746
    } else if i == 91 {
        753
    } else if i == 92 {
        760
    } else if i == 93 {
        767
    } else if i == 94 {
        774
    } else if i == 95 {
        781
    } else if i == 96 {
        788
    } else if i == 97 {
        795
    } else if i == 98 {
        802
    } else if i == 99 {
        809
    } else if i == 100 {
        816
    } else if i == 101 {
        823
    } else if i == 102 {
        830
    } else if i == 103 {
        837
    } else if i == 104 {
        844
    } else if i == 105 {
        851
    } else if i == 106 {
        858
    } else if i == 107 {
        864
    } else if i == 108 {
        871
    } else if i == 109 {
        878
    } else if i == 110 {
        885
    } else if i == 111 {
        892
    } else if i == 112 {
        899
    } else if i == 113 {
        905
    } else if i == 114 {
        912
    } else if i == 115 {
        919
    } else if i == 116 {
        926
    } else if i == 117 {
        933
    } else if i == 118 {
        939
    } else if i == 119 {
        946
    } else if i == 120 {
        953
    } else if i == 121 {
        960
    } else if i == 122 {
        966
    } else if i == 123 {
        973
    } else if i == 124 {
        980
    } else if i == 125 {
        987
    } else if i == 126 {
        993
    } else {
        1000
    }
}

/// Each step of the velocity curve is non-decreasing.
proof fn lemma_velocity_curve_step(i: int)
    requires
        0 <= i < 127,
    ensures
        spec_velocity_curve(i) <= spec_velocity_curve(i + 1),
{
}

/// The velocity curve never steps downward across its 128 entries.
pub proof fn lemma_velocity_curve_monotonic(i: int, j: int)
    requires
        0 <= i <= j <= 127,
    ensures
        spec_velocity_curve(i) <= spec_velocity_curve(j),
    decreases j - i,
{
    if i < j {
        lemma_velocity_curve_monotonic(i, j - 1);
        lemma_velocity_curve_step(j - 1);
    }
}

/// Every entry of the velocity curve stays within full scale.
pub proof fn lemma_velocity_curve_bounded(i: int)
    ensures
        spec_velocity_curve(i) <= 1000,
{
}

fn velocity_curve_value(i: usize) -> (entry: u16)
    ensures
        entry == spec_velocity_curve(i as int),
{
    if i == 0 {
        0
    } else if i == 1 {
        16
    } else if i == 2 {
        29
    } else if i == 3 {
        41
    } else if i == 4 {
        53
    } else if i == 5 {
        64
    } else if i == 6 {
        75
    } else if i == 7 {
        85
    } else if i == 8 {
        95
    } else if i == 9 {
        105
    } else if i == 10 {
        115
    } else if i == 11 {
        125
    } else if i == 12 {
        135
    } else if i == 13 {
        144
    } else if i == 14 {
        153
    } else if i == 15 {
        163
    } else if i == 16 {
        172
    } else if i == 17 {
        181
    } else if i == 18 {
        190
    } else if i == 19 {
        199
    } else if i == 20 {
        208
    } else if i == 21 {
        217
    } else if i == 22 {
        225
    } else if i == 23 {
        234
    } else if i == 24 {
        243
    } else if i == 25 {
        251
    } else if i == 26 {
        260
    } else if i == 27 {
        268
    } else if i == 28 {
        277
    } else if i == 29 {
        285
    } else if i == 30 {
        293
    } else if i == 31 {
        302
    } else if i == 32 {
        310
    } else if i == 33 {
        318
    } else if i == 34 {
        326
    } else if i == 35 {
        334
    } else if i == 36 {
        342
    } else if i == 37 {
        351
    } else if i == 38 {
        359
    } else if i == 39 {
        367
    } else if i == 40 {
        375
    } else if i == 41 {
        383
    } else if i == 42 {
        390
    } else if i == 43 {
        398
    } else if i == 44 {
        406
    } else if i == 45 {
        414
    } else if i == 46 {
        422
    } else if i == 47 {
        430
    } else if i == 48 {
        437
    } else if i == 49 {
        445
    } else if i == 50 {
        453
    } else if i == 51 {
        460
    } else if i == 52 {
        468
    } else if i == 53 {
        476
    } else if i == 54 {
        483
    } else if i == 55 {
        491
    } else if i == 56 {
        499
    } else if i == 57 {
        506
    } else if i == 58 {
        514
    } else if i == 59 {
        521
    } else if i == 60 {
        529
    } else if i == 61 {
        536
    } else if i == 62 {
        544
    } else if i == 63 {
        551
    } else if i == 64 {
        558
    } else if i == 65 {
        566
    } else if i == 66 {
        573
    } else if i == 67 {
        581
    } else if i == 68 {
        588
    } else if i == 69 {
        595
    } else if i == 70 {
        603
    } else if i == 71 {
        610
    } else if i == 72 {
        617
    } else if i == 73 {
        625
    } else if i == 74 {
        632
    } else if i == 75 {
        639
    } else if i == 76 {
        646
    } else if i == 77 {
        654
    } else if i == 78 {
        661
    } else if i == 79 {
        668
    } else if i == 80 {
        675
    } else if i == 81 {
        682
    } else if i == 82 {
        689
    } else if i == 83 {
        697
    } else if i == 84 {
        704
    } else if i == 85 {
        711
    } else if i == 86 {
        718
    } else if i == 87 {
        725
    } else if i == 88 {
        732
    } else if i == 89 {
        739
    } else if i == 90 {
        746
    } else if i == 91 {
        753
    } else if i == 92 {
        760
    } else if i == 93 {
        767
    } else if i == 94 {
        774
    } else if i == 95 {
        781
    } else if i == 96 {
        788
    } else if i == 97 {
        795
    } else if i == 98 {
        802
    } else if i == 99 {
        809
    } else if i == 100 {
        816
    } else if i == 101 {
        823
    } else if i == 102 {
        830
    } else if i == 103 {
        837
    } else if i == 104 {
        844
    } else if i == 105 {
        851
    } else if i == 106 {
        858
    } else if i == 107 {
        864
    } else if i == 108 {
        871
    } else if i == 109 {
        878
    } else if i == 110 {
        885
    } else if i == 111 {
        892
    } else if i == 112 {
        899
    } else if i == 113 {
        905
    } else if i == 114 {
        912
    } else if i == 115 {
        919
    } else if i == 116 {
        926
    } else if i == 117 {
        933
    } else if i == 118 {
        939
    } else if i == 119 {
        946
    } else if i == 120 {
        953
    } else if i == 121 {
        960
    } else if i == 122 {
        966
    } else if i == 123 {
        973
    } else if i == 124 {
        980
    } else if i == 125 {
        987
    } else if i == 126 {
        993
    } else {
        1000
    }
}

/// The MIDI expression value for a dynamic mark: its loudness scaled
/// to the 0..=127 controller range, rounded to the nearest step.
pub open spec fn spec_cc11_for_dynamic(dynamic: Dynamic) -> u8 {
    ((dynamic.spec_loudness_milli() * 127 + 500) / 1000) as u8
}

/// A louder dynamic mark always gets a strictly larger expression
/// value, and the value stays within the controller range.
pub proof fn lemma_cc11_strictly_increasing(d1: Dynamic, d2: Dynamic)
    requires
        d1.spec_rank() < d2.spec_rank(),
    ensures
        spec_cc11_for_dynamic(d1) < spec_cc11_for_dynamic(d2),
        spec_cc11_for_dynamic(d2) <= 127,
{
}

/// The key velocity for a layer position under a dynamic mark: the
/// curve entry nearest the position, scaled by the dynamic's loudness
/// into the 1..=127 velocity range.
pub open spec fn spec_velocity_for_layer(position_milli: u16, dynamic: Dynamic) -> u8 {
    let clamped = if position_milli > 1000 {
        1000 as int
    } else {
        position_milli as int
    };
    let idx = (clamped * 127 + 500) / 1000;
    let scaled = (spec_velocity_curve(idx) * dynamic.spec_loudness_milli() * 127 + 500000)
        / 1000000;
    if scaled < 1 {
        1 as u8
    } else if scaled > 127 {
        127 as u8
    } else {
        scaled as u8
    }
}

/// The expression engine: the velocity curve plus the dynamic and
/// articulation tables, and the humanization settings.  Stateless
/// once constructed.
#[derive(Clone, Debug)]
pub struct ExpressionEngine {
    /// The 128-entry velocity curve, entry `i` being the canonical
    /// profile value `spec_velocity_curve(i)`.
    pub velocity_curve: Vec<u16>,
    /// Spread of the random onset humanization, in milliseconds.
    pub humanize_timing_ms: u16,
    /// Spread of the random velocity humanization, in thousandths.
    pub humanize_velocity_milli: u16,
    pub rubato_enabled: bool,
}

impl ExpressionEngine {
    /// The engine's tables are exactly the canonical profile.
    pub open spec fn wf(self) -> bool {
        &&& self.velocity_curve@.len() == 128
        &&& forall|i: int|
            0 <= i < 128 ==> self.velocity_curve@[i] == spec_velocity_curve(i)
    }

    /// Entry `i` of the engine's velocity curve.
    pub fn velocity_curve_entry(&self, i: usize) -> (entry: u16)
        requires
            self.wf(),
            i < 128,
        ensures
            entry == spec_velocity_curve(i as int),
    {
        self.velocity_curve[i]
    }

    /// The MIDI expression value for a dynamic mark, always within
    /// the 0..=127 controller range.
    pub fn cc11_for_dynamic(&self, dynamic: Dynamic) -> (cc: u8)
        ensures
            cc == spec_cc11_for_dynamic(dynamic),
            cc <= 127,
    {
        let loudness = dynamic.loudness_milli();
        ((loudness * 127 + 500) / 1000) as u8
    }

    /// The key velocity for a layer position under a dynamic mark,
    /// always within the 1..=127 velocity range.
    pub fn velocity_for_layer(&self, position_milli: u16, dynamic: Dynamic) -> (velocity: u8)
        requires
            self.wf(),
        ensures
            velocity == spec_velocity_for_layer(position_milli, dynamic),
            1 <= velocity <= 127,
    {
        let clamped: u32 = if position_milli > 1000 {
            1000
        } else {
            position_milli as u32
        };
        let idx: usize = ((clamped * 127 + 500) / 1000) as usize;
        proof {
            lemma_velocity_curve_bounded(idx as int);
        }
        let base = self.velocity_curve[idx] as u32;
        let loudness = dynamic.loudness_milli();
        let scaled = (base * loudness * 127 + 500000) / 1000000;
        if scaled < 1 {
            1
        } else if scaled > 127 {
            127
        } else {
            scaled as u8
        }
    }

    /// The playback style for an articulation.
    pub fn style_for(&self, articulation: Articulation) -> (style: PlaybackStyle)
        ensures
            style == spec_style_for(articulation),
    {
        match articulation {
            Articulation::Legato => PlaybackStyle {
                gate_ratio_milli: 980,
                velocity_multiplier_milli: 950,
                timing_offset_ms: -8,
            },
            Articulation::Staccato => PlaybackStyle {
                gate_ratio_milli: 450,
                velocity_multiplier_milli: 1100,
                timing_offset_ms: 4,
            },
            Articulation::Marcato => PlaybackStyle {
                gate_ratio_milli: 650,
                velocity_multiplier_milli: 1200,
                timing_offset_ms: 0,
            },
            Articulation::Tenuto => PlaybackStyle {
                gate_ratio_milli: 920,
                velocity_multiplier_milli: 1000,
                timing_offset_ms: -2,
            },
            Articulation::Tremolo => PlaybackStyle {
                gate_ratio_milli: 500,
                velocity_multiplier_milli: 850,
                timing_offset_ms: 0,
            },
        }
    }
}

impl Default for ExpressionEngine {
    /// Builds the engine with the canonical velocity curve and the
    /// standard humanization settings.
    fn default() -> (engine: ExpressionEngine)
        ensures
            engine.wf(),
            engine.humanize_timing_ms == 8,
            engine.humanize_velocity_milli == 50,
            !engine.rubato_enabled,
    {
        let mut velocity_curve: Vec<u16> = Vec::new();
        for i in 0..128usize
            invariant
                velocity_curve@.len() == i,
                forall|j: int| 0 <= j < i ==> velocity_curve@[j] == spec_velocity_curve(j),
        {
            velocity_curve.push(velocity_curve_value(i));
        }
        ExpressionEngine {
            velocity_curve,
            humanize_timing_ms: 8,
            humanize_velocity_milli: 50,
            rubato_enabled: false,
        }
    }
}

} // verus!
