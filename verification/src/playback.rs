//! Expressive playback intent: dynamics, articulations and the
//! engine that maps them to acoustic parameters.

mod expression;

pub use expression::{
    lemma_cc11_strictly_increasing, lemma_velocity_curve_monotonic, spec_cc11_for_dynamic,
    spec_style_for, spec_velocity_curve, spec_velocity_for_layer, Articulation, Dynamic,
    ExpressionEngine, PlaybackStyle,
};
