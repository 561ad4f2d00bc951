//! Engraving rules: which notation features are enabled and how the
//! systems are spaced.

use vstd::prelude::*;

verus! {

#[derive(Clone, Copy, Debug, PartialEq, Eq, Structural)]
pub enum NotationFeature {
    Slur,
    Ornament,
    Trill,
    Tremolo,
    Harmonic,
    Glissando,
    Contemporary,
    Microtonal,
    IrregularMeter,
    Polyrhythm,
}

#[derive(Clone, Debug)]
pub struct EngravingRules {
    /// Minimum vertical spacing between systems, in pixels.
    pub min_system_spacing_px: u32,
    pub adaptive_margins: bool,
    pub automatic_system_breaks: bool,
    pub enabled_features: Vec<NotationFeature>,
}

/// The features enabled out of the box: all of them.
pub open spec fn spec_default_features() -> Seq<NotationFeature> {
    seq![
        NotationFeature::Slur,
        NotationFeature::Ornament,
        NotationFeature::Trill,
        NotationFeature::Tremolo,
        NotationFeature::Harmonic,
        NotationFeature::Glissando,
        NotationFeature::Contemporary,
        NotationFeature::Microtonal,
        NotationFeature::IrregularMeter,
        NotationFeature::Polyrhythm,
    ]
}

impl Default for EngravingRules {
    fn default() -> (rules: Self)
        ensures
            rules.min_system_spacing_px == 72,
            rules.adaptive_margins,
            rules.automatic_system_breaks,
            rules.enabled_features@ == spec_default_features(),
    {
        let mut enabled_features: Vec<NotationFeature> = Vec::new();
        enabled_features.push(NotationFeature::Slur);
        enabled_features.push(NotationFeature::Ornament);
        enabled_features.push(NotationFeature::Trill);
        enabled_features.push(NotationFeature::Tremolo);
        enabled_features.push(NotationFeature::Harmonic);
        enabled_features.push(NotationFeature::Glissando);
        enabled_features.push(NotationFeature::Contemporary);
        enabled_features.push(NotationFeature::Microtonal);
        enabled_features.push(NotationFeature::IrregularMeter);
        enabled_features.push(NotationFeature::Polyrhythm);
        proof {
            assert(enabled_features@ =~= spec_default_features());
        }
        EngravingRules {
            min_system_spacing_px: 72,
            adaptive_margins: true,
            automatic_system_breaks: true,
            enabled_features,
        }
    }
}

} // verus!
