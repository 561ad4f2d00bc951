//! The offline audio engine configuration and project loading.

use vstd::prelude::*;

use crate::project::NotariumProject;

verus! {

#[derive(Clone, Copy, Debug, PartialEq, Eq, Structural)]
pub enum AudioBackend {
    CpuOnly,
}

#[derive(Clone, Copy, Debug, PartialEq, Eq, Structural)]
pub struct AudioEngineConfig {
    pub sample_rate: u32,
    /// Frames per processing block; always positive.
    pub buffer_size: usize,
    pub max_polyphony: usize,
}

impl AudioEngineConfig {
    pub open spec fn wf(self) -> bool {
        self.buffer_size > 0
    }
}

impl Default for AudioEngineConfig {
    fn default() -> (config: Self)
        ensures
            config.sample_rate == 48_000,
            config.buffer_size == 256,
            config.max_polyphony == 256,
            config.wf(),
    {
        AudioEngineConfig { sample_rate: 48_000, buffer_size: 256, max_polyphony: 256 }
    }
}

#[derive(Clone, Copy, Debug, PartialEq, Eq, Structural)]
pub enum AudioEngineError {
    EmptyProject,
}

impl AudioEngineError {
    pub open spec fn spec_message(self) -> Seq<char> {
        "projeto sem instrumentos"@
    }

    pub fn message(&self) -> (text: &'static str)
        ensures
            text@ == self.spec_message(),
    {
        "projeto sem instrumentos"
    }
}

pub struct AudioEngine {
    pub config: AudioEngineConfig,
    pub backend: AudioBackend,
    pub low_performance_mode: bool,
    /// The project retained by the last successful load, if any.
    pub loaded_project: Option<NotariumProject>,
}

impl AudioEngine {
    /// Which project the engine holds, if any.
    pub open spec fn spec_loaded_project(self) -> Option<NotariumProject> {
        self.loaded_project
    }

    pub fn new(config: AudioEngineConfig, backend: AudioBackend) -> (engine: AudioEngine)
        ensures
            engine.config == config,
            engine.backend == backend,
            engine.low_performance_mode,
            engine.spec_loaded_project() is None,
    {
        AudioEngine { config, backend, low_performance_mode: true, loaded_project: None }
    }

    /// Loads a project for offline rendering.  A project with no
    /// instruments is rejected and changes nothing; any other project
    /// is retained and its performance mode adopted.
    pub fn load_project(&mut self, project: &NotariumProject) -> (outcome: Result<
        (),
        AudioEngineError,
    >)
        ensures
            outcome is Err <==> project.instrument_ids@.len() == 0,
            outcome matches Err(e) ==> e == AudioEngineError::EmptyProject && *final(self) == *old(
                self,
            ),
            outcome is Ok ==> {
                &&& final(self).low_performance_mode == project.low_performance_mode
                &&& final(self).spec_loaded_project() matches Some(loaded)
                    && loaded.spec_matches(*project)
                &&& final(self).config == old(self).config
                &&& final(self).backend == old(self).backend
            },
    {
        if project.instrument_ids.is_empty() {
            return Err(AudioEngineError::EmptyProject);
        }
        self.low_performance_mode = project.low_performance_mode;
        self.loaded_project = Some(project.clone());
        Ok(())
    }

    /// Share of the processor the engine may use while idle, in
    /// tenths of a percent.
    pub fn idle_cpu_budget_permille(&self) -> (budget: u32)
        ensures
            budget == if self.low_performance_mode {
                15int
            } else {
                40int
            },
    {
        if self.low_performance_mode {
            15
        } else {
            40
        }
    }
}

} // verus!
