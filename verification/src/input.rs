//! Keyboard editing actions and the pitch-stepping rule.

use vstd::prelude::*;

use crate::music::{Accidental, NoteDuration, Pitch, PitchClass};

verus! {

/// One editing action read from the keyboard.
pub enum KeyboardAction {
    Delete,
    Duration(NoteDuration),
    PitchStep(i8),
    InsertPitch(PitchClass),
    SetAccidental(Accidental),
}

/// Position of a letter class in the C-to-B cycle.
pub open spec fn spec_class_position(class: PitchClass) -> int {
    match class {
        PitchClass::C => 0,
        PitchClass::D => 1,
        PitchClass::E => 2,
        PitchClass::F => 3,
        PitchClass::G => 4,
        PitchClass::A => 5,
        PitchClass::B => 6,
    }
}

/// The letter class at a position of the C-to-B cycle.
pub open spec fn spec_class_at(position: int) -> PitchClass {
    if position == 0 {
        PitchClass::C
    } else if position == 1 {
        PitchClass::D
    } else if position == 2 {
        PitchClass::E
    } else if position == 3 {
        PitchClass::F
    } else if position == 4 {
        PitchClass::G
    } else if position == 5 {
        PitchClass::A
    } else {
        PitchClass::B
    }
}

fn class_position(class: PitchClass) -> (position: i32)
    ensures
        position == spec_class_position(class),
        0 <= position <= 6,
{
    match class {
        PitchClass::C => 0,
        PitchClass::D => 1,
        PitchClass::E => 2,
        PitchClass::F => 3,
        PitchClass::G => 4,
        PitchClass::A => 5,
        PitchClass::B => 6,
    }
}

fn class_at(position: i32) -> (class: PitchClass)
    requires
        0 <= position <= 6,
    ensures
        class == spec_class_at(position as int),
{
    if position == 0 {
        PitchClass::C
    } else if position == 1 {
        PitchClass::D
    } else if position == 2 {
        PitchClass::E
    } else if position == 3 {
        PitchClass::F
    } else if position == 4 {
        PitchClass::G
    } else if position == 5 {
        PitchClass::A
    } else {
        PitchClass::B
    }
}

/// Steps a pitch up or down the letter cycle, carrying octaves: the
/// new seven-per-octave position is the old one shifted by `step`,
/// and the accidental is untouched.
#[verifier::loop_isolation(false)]
pub fn apply_pitch_step(pitch: &mut Pitch, step: i8)
    requires
        -100 <= old(pitch).octave <= 100,
    ensures
        7 * final(pitch).octave + spec_class_position(final(pitch).class) == 7 * old(pitch).octave
            + spec_class_position(old(pitch).class) + step,
        0 <= spec_class_position(final(pitch).class) <= 6,
        final(pitch).accidental == old(pitch).accidental,
{
    let mut index: i32 = class_position(pitch.class);
    let mut octave: i32 = pitch.octave as i32;
    index = index + step as i32;
    while index < 0
        invariant
            7 * octave + index == 7 * old(pitch).octave + spec_class_position(old(pitch).class)
                + step,
            -128 <= index <= 140,
            octave >= -120,
        decreases 7 - index,
    {
        octave = octave - 1;
        index = index + 7;
    }
    while index >= 7
        invariant
            7 * octave + index == 7 * old(pitch).octave + spec_class_position(old(pitch).class)
                + step,
            0 <= index <= 140,
            octave <= 120,
        decreases index,
    {
        octave = octave + 1;
        index = index - 7;
    }
    pitch.class = class_at(index);
    pitch.octave = octave as i8;
}

} // verus!
