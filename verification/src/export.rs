//! Score export formats and the CPU-bound exporter.

use vstd::prelude::*;

use crate::engraving::EngravingRules;
use crate::project::NotariumProject;

verus! {

#[derive(Clone, Copy, Debug, PartialEq, Eq, Structural)]
pub enum MidiType {
    Type0,
    Type1,
}

#[derive(Clone, Copy, Debug, PartialEq, Eq, Structural)]
pub enum AudioFormat {
    Wav,
    Mp3,
    Flac,
    Ogg,
}

#[derive(Clone, Copy, Debug, PartialEq, Eq, Structural)]
pub enum ExportError {
    EmptyProject,
}

impl ExportError {
    pub open spec fn spec_message(self) -> Seq<char> {
        "projeto sem instrumentos para exportação"@
    }

    pub fn message(&self) -> (text: &'static str)
        ensures
            text@ == self.spec_message(),
    {
        "projeto sem instrumentos para exportação"
    }
}

/// A score exporter; the output location is given as a path string.
pub trait ScoreExporter {
    fn export_pdf(&self, project: &NotariumProject, engraving: &EngravingRules, output: &str)
        -> Result<(), ExportError>;

    fn export_audio_offline(&self, project: &NotariumProject, format: AudioFormat, output: &str)
        -> Result<(), ExportError>;

    fn export_midi(&self, project: &NotariumProject, midi_type: MidiType, output: &str) -> Result<
        (),
        ExportError,
    >;
}

#[derive(Debug, Default)]
pub struct CpuExporter;

impl CpuExporter {
    /// What every CPU export checks before it proceeds: a project
    /// without instruments is rejected.
    pub fn check_project(project: &NotariumProject) -> (outcome: Result<(), ExportError>)
        ensures
            outcome is Err <==> project.instrument_ids@.len() == 0,
            outcome matches Err(e) ==> e == ExportError::EmptyProject,
    {
        if project.instrument_ids.is_empty() {
            return Err(ExportError::EmptyProject);
        }
        Ok(())
    }
}

impl ScoreExporter for CpuExporter {
    fn export_pdf(&self, project: &NotariumProject, engraving: &EngravingRules, output: &str)
        -> Result<(), ExportError> {
        CpuExporter::check_project(project)
    }

    fn export_audio_offline(&self, project: &NotariumProject, format: AudioFormat, output: &str)
        -> Result<(), ExportError> {
        CpuExporter::check_project(project)
    }

    fn export_midi(&self, project: &NotariumProject, midi_type: MidiType, output: &str) -> Result<
        (),
        ExportError,
    > {
        CpuExporter::check_project(project)
    }
}

} // verus!
