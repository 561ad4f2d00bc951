//! The start screen's form state and the project it creates.

use vstd::prelude::*;

use crate::common::id::Id;
use crate::project::{KeySignature, ProjectMetadata, ScoreProject, TimeSignature};

verus! {

#[derive(Clone, Copy, Debug, PartialEq, Eq, Structural)]
pub enum ProjectTemplate {
    Orchestra,
    StringQuartet,
    Band,
    Choir,
    Empty,
}

#[derive(Clone, Copy, Debug, PartialEq, Eq, Structural)]
pub struct AudioConfigSelection {
    pub sample_rate: u32,
    pub buffer_size: u16,
    pub low_performance_mode: bool,
}

#[derive(Debug)]
pub struct StartScreenState {
    pub title: String,
    pub subtitle: String,
    pub composer: String,
    pub arranger: String,
    pub copyright: String,
    pub key_signature: KeySignature,
    pub time_signature: TimeSignature,
    pub bpm: u16,
    pub selected_instruments: Vec<Id>,
    pub template: ProjectTemplate,
    pub audio_config: AudioConfigSelection,
}

impl Default for StartScreenState {
    /// The form as it opens: a placeholder title, common time at 120
    /// beats per minute, no instruments, and the cautious audio
    /// configuration.
    fn default() -> (state: Self)
        ensures
            state.title@ == "Novo Projeto"@,
            state.subtitle@.len() == 0,
            state.composer@.len() == 0,
            state.arranger@.len() == 0,
            state.copyright@.len() == 0,
            state.key_signature == KeySignature::C,
            state.time_signature == (TimeSignature { numerator: 4, denominator: 4 }),
            state.bpm == 120,
            state.selected_instruments@.len() == 0,
            state.template == ProjectTemplate::Empty,
            state.audio_config == (AudioConfigSelection {
                sample_rate: 44_100,
                buffer_size: 256,
                low_performance_mode: true,
            }),
    {
        StartScreenState {
            title: "Novo Projeto".to_owned(),
            subtitle: String::new(),
            composer: String::new(),
            arranger: String::new(),
            copyright: String::new(),
            key_signature: KeySignature::C,
            time_signature: TimeSignature::common_time(),
            bpm: 120,
            selected_instruments: Vec::new(),
            template: ProjectTemplate::Empty,
            audio_config: AudioConfigSelection {
                sample_rate: 44_100,
                buffer_size: 256,
                low_performance_mode: true,
            },
        }
    }
}

impl StartScreenState {
    /// The project metadata the form's fields describe.
    pub open spec fn spec_metadata(self) -> ProjectMetadata {
        ProjectMetadata {
            title: self.title,
            subtitle: self.subtitle,
            composer: self.composer,
            arranger: self.arranger,
            copyright: self.copyright,
            key_signature: self.key_signature,
            time_signature: self.time_signature,
            bpm: self.bpm,
        }
    }

    /// Gathers the form's fields into project metadata.
    pub fn metadata_fields(&self) -> (metadata: ProjectMetadata)
        ensures
            metadata == self.spec_metadata(),
    {
        ProjectMetadata {
            title: self.title.clone(),
            subtitle: self.subtitle.clone(),
            composer: self.composer.clone(),
            arranger: self.arranger.clone(),
            copyright: self.copyright.clone(),
            key_signature: self.key_signature,
            time_signature: self.time_signature,
            bpm: self.bpm,
        }
    }

    /// Turns the form into a score project: the metadata plus the
    /// musical settings and the instruments chosen on the form.
    pub fn create_project(self) -> (project: ScoreProject)
        ensures
            project.metadata == self.spec_metadata(),
            project.key_signature == self.key_signature,
            project.time_signature == self.time_signature,
            project.bpm == self.bpm,
            project.instrument_ids@ == self.selected_instruments@,
    {
        let metadata = self.metadata_fields();
        let mut project = ScoreProject::new(metadata);
        project.key_signature = self.key_signature;
        project.time_signature = self.time_signature;
        project.bpm = self.bpm;
        project.instrument_ids = self.selected_instruments;
        project
    }
}

} // verus!
