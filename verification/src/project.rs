//! Project metadata: validation and construction of a project from
//! the start screen's form.

use vstd::prelude::*;

use crate::common::id::Id;
use crate::text::{dec_rep, u64_to_dec_string};
use crate::ui::start_screen::StartScreenState;

verus! {

pub type Uuid = String;

#[derive(Clone, Debug, PartialEq, Eq)]
pub enum ProjectError {
    MissingField(&'static str),
    InvalidBpm(u16),
    InvalidTimeSignature { numerator: u8, denominator: u8 },
}

impl ProjectError {
    pub open spec fn spec_message(self) -> Seq<char> {
        match self {
            ProjectError::MissingField(field) => "campo obrigatório ausente: "@ + field@,
            ProjectError::InvalidBpm(bpm) => "BPM fora do intervalo válido: "@ + dec_rep(
                bpm as nat,
            ),
            ProjectError::InvalidTimeSignature { numerator, denominator } => {
                "fórmula de compasso inválida: "@ + dec_rep(numerator as nat) + "/"@ + dec_rep(
                    denominator as nat,
                )
            },
        }
    }

    /// The error rendered for the user.
    pub fn message(&self) -> (text: String)
        ensures
            text@ == self.spec_message(),
    {
        match self {
            ProjectError::MissingField(field) => {
                let mut text = "campo obrigatório ausente: ".to_owned();
                text.append(field);
                text
            },
            ProjectError::InvalidBpm(bpm) => {
                let mut text = "BPM fora do intervalo válido: ".to_owned();
                let digits = u64_to_dec_string(*bpm as u64);
                text.append(digits.as_str());
                text
            },
            ProjectError::InvalidTimeSignature { numerator, denominator } => {
                let mut text = "fórmula de compasso inválida: ".to_owned();
                let top = u64_to_dec_string(*numerator as u64);
                text.append(top.as_str());
                text.append("/");
                let bottom = u64_to_dec_string(*denominator as u64);
                text.append(bottom.as_str());
                text
            },
        }
    }
}

#[derive(Clone, Copy, Debug, PartialEq, Eq, Structural)]
pub enum KeySignature {
    C,
    G,
    D,
    A,
    E,
    B,
    FSharp,
    CSharp,
    F,
    Bb,
    Eb,
    Ab,
    Db,
    Gb,
    Cb,
}

#[derive(Clone, Copy, Debug, PartialEq, Eq, Structural)]
pub struct TimeSignature {
    pub numerator: u8,
    pub denominator: u8,
}

/// A playable meter: some beats over a power-of-two note value.
pub open spec fn spec_valid_time_signature(numerator: u8, denominator: u8) -> bool {
    numerator != 0 && (denominator == 1 || denominator == 2 || denominator == 4 || denominator == 8
        || denominator == 16 || denominator == 32 || denominator == 64)
}

impl TimeSignature {
    /// Accepts exactly the playable meters and rejects the rest.
    pub fn new(numerator: u8, denominator: u8) -> (outcome: Result<TimeSignature, ProjectError>)
        ensures
            outcome is Ok <==> spec_valid_time_signature(numerator, denominator),
            outcome matches Ok(signature) ==> signature.numerator == numerator
                && signature.denominator == denominator,
            outcome matches Err(e) ==> e == (ProjectError::InvalidTimeSignature {
                numerator,
                denominator,
            }),
    {
        let valid_denom = denominator == 1 || denominator == 2 || denominator == 4 || denominator
            == 8 || denominator == 16 || denominator == 32 || denominator == 64;
        if numerator == 0 || !valid_denom {
            return Err(ProjectError::InvalidTimeSignature { numerator, denominator });
        }
        Ok(TimeSignature { numerator, denominator })
    }

    /// Common time: four quarter-note beats.
    pub fn common_time() -> (signature: TimeSignature)
        ensures
            signature.numerator == 4,
            signature.denominator == 4,
    {
        TimeSignature { numerator: 4, denominator: 4 }
    }
}

#[derive(Debug)]
pub struct ProjectMetadata {
    pub title: String,
    pub subtitle: String,
    pub composer: String,
    pub arranger: String,
    pub copyright: String,
    pub key_signature: KeySignature,
    pub time_signature: TimeSignature,
    pub bpm: u16,
}

impl Clone for ProjectMetadata {
    fn clone(&self) -> (res: Self)
        ensures
            res == *self,
    {
        ProjectMetadata {
            title: self.title.clone(),
            subtitle: self.subtitle.clone(),
            composer: self.composer.clone(),
            arranger: self.arranger.clone(),
            copyright: self.copyright.clone(),
            key_signature: self.key_signature,
            time_signature: self.time_signature,
            bpm: self.bpm,
        }
    }
}

/// Whitespace as the validator sees it.
pub open spec fn spec_is_space(c: char) -> bool {
    c == ' ' || c == '\t' || c == '\n' || c == '\r'
}

/// A field is blank when it holds nothing but whitespace.
pub open spec fn spec_is_blank(s: Seq<char>) -> bool {
    forall|i: int| 0 <= i < s.len() ==> spec_is_space(#[trigger] s[i])
}

/// Whether the text holds nothing but whitespace.
pub fn str_is_blank(text: &str) -> (blank: bool)
    ensures
        blank == spec_is_blank(text@),
{
    let n = text.unicode_len();
    let mut i: usize = 0;
    while i < n
        invariant
            0 <= i <= n == text@.len(),
            forall|k: int| 0 <= k < i ==> spec_is_space(#[trigger] text@[k]),
        decreases n - i,
    {
        let c = text.get_char(i);
        if !(c == ' ' || c == '\t' || c == '\n' || c == '\r') {
            return false;
        }
        i = i + 1;
    }
    true
}

/// What a valid project's metadata must satisfy.
pub open spec fn spec_metadata_valid(metadata: ProjectMetadata) -> bool {
    &&& !spec_is_blank(metadata.title@)
    &&& !spec_is_blank(metadata.composer@)
    &&& 20 <= metadata.bpm <= 300
}

/// Validates project metadata: the title and composer must carry
/// visible text, and the tempo must lie in 20..=300 beats per minute.
/// The first violation, in that order, is the error returned.
pub fn validate_metadata(metadata: &ProjectMetadata) -> (outcome: Result<(), ProjectError>)
    ensures
        outcome is Ok <==> spec_metadata_valid(*metadata),
        outcome matches Err(e) ==> {
            if spec_is_blank(metadata.title@) {
                e matches ProjectError::MissingField(f) && f@ == "title"@
            } else if spec_is_blank(metadata.composer@) {
                e matches ProjectError::MissingField(f) && f@ == "composer"@
            } else {
                e == ProjectError::InvalidBpm(metadata.bpm)
            }
        },
{
    if str_is_blank(metadata.title.as_str()) {
        return Err(ProjectError::MissingField("title"));
    }
    if str_is_blank(metadata.composer.as_str()) {
        return Err(ProjectError::MissingField("composer"));
    }
    if metadata.bpm < 20 || metadata.bpm > 300 {
        return Err(ProjectError::InvalidBpm(metadata.bpm));
    }
    Ok(())
}

#[derive(Debug)]
pub struct NotariumProject {
    pub id: Uuid,
    pub metadata: ProjectMetadata,
    pub instrument_ids: Vec<Uuid>,
    pub audio_device: Option<String>,
    pub low_performance_mode: bool,
}

impl NotariumProject {
    /// Field-for-field agreement, comparing text by content.
    pub open spec fn spec_matches(self, other: NotariumProject) -> bool {
        &&& self.id@ == other.id@
        &&& self.metadata == other.metadata
        &&& self.instrument_ids@.len() == other.instrument_ids@.len()
        &&& forall|i: int|
            0 <= i < self.instrument_ids@.len() ==> (#[trigger] self.instrument_ids@[i])@
                == other.instrument_ids@[i]@
        &&& match (self.audio_device, other.audio_device) {
            (Some(mine), Some(theirs)) => mine@ == theirs@,
            (None, None) => true,
            _ => false,
        }
        &&& self.low_performance_mode == other.low_performance_mode
    }

    /// Builds a project from the start screen's form under a caller
    /// supplied identifier, after validating the metadata.
    pub fn from_start_screen(state: &StartScreenState, id: Uuid) -> (outcome: Result<
        NotariumProject,
        ProjectError,
    >)
        ensures
            outcome is Ok <==> spec_metadata_valid(state.spec_metadata()),
            outcome matches Ok(project) ==> {
                &&& project.id@ == id@
                &&& project.metadata == state.spec_metadata()
                &&& project.instrument_ids@.len() == state.selected_instruments@.len()
                &&& forall|i: int|
                    0 <= i < state.selected_instruments@.len() ==> (
                    #[trigger] project.instrument_ids@[i])@ == crate::text::hex_rep_fixed(
                        state.selected_instruments@[i].0 as nat,
                        32,
                    )
                &&& project.audio_device is None
                &&& project.low_performance_mode == state.audio_config.low_performance_mode
            },
    {
        let metadata = state.metadata_fields();
        let validation = validate_metadata(&metadata);
        if let Err(error) = validation {
            return Err(error);
        }

        let mut instrument_ids: Vec<Uuid> = Vec::new();
        let selected = state.selected_instruments.len();
        for i in 0..selected
            invariant
                selected == state.selected_instruments@.len(),
                instrument_ids@.len() == i,
                forall|k: int|
                    0 <= k < i ==> (#[trigger] instrument_ids@[k])@ == crate::text::hex_rep_fixed(
                        state.selected_instruments@[k].0 as nat,
                        32,
                    ),
        {
            instrument_ids.push(state.selected_instruments[i].hex_string());
        }

        Ok(
            NotariumProject {
                id,
                metadata,
                instrument_ids,
                audio_device: None,
                low_performance_mode: state.audio_config.low_performance_mode,
            },
        )
    }
}

impl Clone for NotariumProject {
    fn clone(&self) -> (res: Self)
        ensures
            res.spec_matches(*self),
    {
        let mut instrument_ids: Vec<Uuid> = Vec::new();
        let count = self.instrument_ids.len();
        for i in 0..count
            invariant
                count == self.instrument_ids@.len(),
                instrument_ids@.len() == i,
                forall|k: int|
                    0 <= k < i ==> (#[trigger] instrument_ids@[k])@ == self.instrument_ids@[k]@,
        {
            instrument_ids.push(self.instrument_ids[i].clone());
        }
        let audio_device = match &self.audio_device {
            Some(device) => Some(device.clone()),
            None => None,
        };
        NotariumProject {
            id: self.id.clone(),
            metadata: self.metadata.clone(),
            instrument_ids,
            audio_device,
            low_performance_mode: self.low_performance_mode,
        }
    }
}

/// A score project as the start screen creates it: the validated
/// metadata plus the musical settings and chosen instruments.
#[derive(Debug)]
pub struct ScoreProject {
    pub metadata: ProjectMetadata,
    pub key_signature: KeySignature,
    pub time_signature: TimeSignature,
    pub bpm: u16,
    pub instrument_ids: Vec<Id>,
}

impl ScoreProject {
    /// A project around the given metadata, with the musical settings
    /// copied out of it and no instruments yet.
    pub fn new(metadata: ProjectMetadata) -> (project: ScoreProject)
        ensures
            project.metadata == metadata,
            project.key_signature == metadata.key_signature,
            project.time_signature == metadata.time_signature,
            project.bpm == metadata.bpm,
            project.instrument_ids@.len() == 0,
    {
        let key_signature = metadata.key_signature;
        let time_signature = metadata.time_signature;
        let bpm = metadata.bpm;
        ScoreProject {
            metadata,
            key_signature,
            time_signature,
            bpm,
            instrument_ids: Vec::new(),
        }
    }
}

} // verus!
