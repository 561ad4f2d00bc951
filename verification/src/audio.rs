//! The playback worker: a command-driven state machine that owns the
//! cached score, tempo and configuration, and decides what happens to
//! the audio sink on every transport command.
//!
//! The worker is Idle while no sink exists and Active while one does.
//! The unverified shell runs the channel loop and the audio device:
//! it receives commands, calls [`WorkerState::step`] to make every
//! decision, carries out the returned [`SinkAction`] on its sink, and
//! reports a successfully created sink back through
//! [`WorkerState::sink_installed`].  Commands are processed strictly
//! one at a time, in arrival order; a command never interrupts the
//! planning of an earlier one.

use vstd::prelude::*;

pub mod engine;
pub mod synth;

use crate::music::Score;
use synth::{plan_note, spec_note_plan, NotePlan};

verus! {

#[derive(Clone, Copy, Debug, PartialEq, Eq, Structural)]
pub enum PlaybackEngine {
    Notarium,
    Vst,
}

/// Per-play configuration: which engine renders, and how an external
/// VST host would be addressed when it does.
#[derive(Clone, Debug)]
pub struct PlaybackConfig {
    pub engine: PlaybackEngine,
    pub vst_host: String,
    pub vst_plugin: String,
    pub noteperformer_profile: bool,
}

impl Default for PlaybackConfig {
    fn default() -> (config: Self)
        ensures
            config.engine == PlaybackEngine::Notarium,
            config.vst_host@ == "Builtin Host"@,
            config.vst_plugin@ == ""@,
            !config.noteperformer_profile,
    {
        PlaybackConfig {
            engine: PlaybackEngine::Notarium,
            vst_host: "Builtin Host".to_owned(),
            vst_plugin: "".to_owned(),
            noteperformer_profile: false,
        }
    }
}

/// A transport command, as the controller enqueues it.
pub enum PlaybackCommand {
    Play { score: Score, bpm_milli: u32, config: PlaybackConfig },
    Pause,
    Resume,
    Stop,
    Rewind,
}

/// What the audio shell must do with its sink after a step.
pub enum SinkAction {
    /// Leave the sink exactly as it is.
    DoNothing,
    /// Pause the existing sink.
    PauseSink,
    /// Resume the existing sink.
    ResumeSink,
    /// Stop and discard the existing sink; the worker is Idle again.
    StopAndClear,
    /// Discard any existing sink and play nothing new: the external
    /// engine was selected, so the built-in renderer stays silent.
    Clear,
    /// Discard any existing sink, create a fresh one, and append one
    /// buffer per plan, in order.
    Rebuild { plans: Vec<NotePlan> },
}

/// The plans a score maps to at a given tempo: one per note, in
/// score order.
pub open spec fn spec_score_plans(notes: Seq<crate::music::NoteEvent>, bpm_milli: u32) -> Seq<
    NotePlan,
> {
    notes.map(|i: int, note: crate::music::NoteEvent| spec_note_plan(note, bpm_milli))
}

/// Plans every note of a score, in order.
pub fn plan_score(score: &Score, bpm_milli: u32) -> (plans: Vec<NotePlan>)
    ensures
        plans@ == spec_score_plans(score.notes@, bpm_milli),
{
    let mut plans: Vec<NotePlan> = Vec::new();
    let note_count = score.notes.len();
    for i in 0..note_count
        invariant
            note_count == score.notes@.len(),
            plans@.len() == i,
            forall|j: int| 0 <= j < i ==> plans@[j] == spec_note_plan(score.notes@[j], bpm_milli),
    {
        plans.push(plan_note(&score.notes[i], bpm_milli));
    }
    proof {
        assert(plans@ =~= spec_score_plans(score.notes@, bpm_milli));
    }
    plans
}

/// The worker's session state: the cached score, tempo and
/// configuration from the last Play, and whether a sink exists.
pub struct WorkerState {
    pub last_score: Option<Score>,
    pub last_bpm_milli: u32,
    pub last_config: PlaybackConfig,
    pub has_sink: bool,
}

impl WorkerState {
    /// Idle: no sink exists.
    pub open spec fn spec_is_idle(self) -> bool {
        !self.has_sink
    }

    pub fn is_idle(&self) -> (idle: bool)
        ensures
            idle == self.spec_is_idle(),
    {
        !self.has_sink
    }

    /// The worker as it starts: Idle, nothing cached, the default
    /// tempo of 110 beats per minute and the default configuration.
    pub fn new() -> (state: WorkerState)
        ensures
            state.last_score is None,
            state.last_bpm_milli == 110_000,
            state.last_config.engine == PlaybackEngine::Notarium,
            state.spec_is_idle(),
    {
        WorkerState {
            last_score: None,
            last_bpm_milli: 110_000,
            last_config: PlaybackConfig::default(),
            has_sink: false,
        }
    }

    /// The audio shell reports that the sink for the last Rebuild was
    /// created; the worker is Active from here until the sink goes.
    pub fn sink_installed(&mut self)
        ensures
            final(self).has_sink,
            final(self).last_score == old(self).last_score,
            final(self).last_bpm_milli == old(self).last_bpm_milli,
            final(self).last_config == old(self).last_config,
    {
        self.has_sink = true;
    }

    /// Executes one transport command and decides the sink's fate.
    ///
    /// Play caches its payload and asks for a fresh sink (or silence,
    /// when the external engine is selected).  Pause, Resume and Stop
    /// touch the sink only if one exists and are no-ops otherwise.
    /// Rewind replays the cached score; with nothing cached it only
    /// discards whatever still sounds, and an Idle worker stays Idle.
    /// After Play or Rewind the worker is Idle until the shell
    /// reports the new sink through [`Self::sink_installed`].
    pub fn step(&mut self, command: PlaybackCommand) -> (action: SinkAction)
        ensures
            match command {
                PlaybackCommand::Play { score, bpm_milli, config } => {
                    &&& final(self).last_score == Some(score)
                    &&& final(self).last_bpm_milli == bpm_milli
                    &&& final(self).last_config == config
                    &&& final(self).spec_is_idle()
                    &&& if config.engine == PlaybackEngine::Notarium {
                        action matches SinkAction::Rebuild { plans } && plans@
                            == spec_score_plans(score.notes@, bpm_milli)
                    } else {
                        action is Clear
                    }
                },
                PlaybackCommand::Pause => {
                    &&& *final(self) == *old(self)
                    &&& action == if old(self).has_sink {
                        SinkAction::PauseSink
                    } else {
                        SinkAction::DoNothing
                    }
                },
                PlaybackCommand::Resume => {
                    &&& *final(self) == *old(self)
                    &&& action == if old(self).has_sink {
                        SinkAction::ResumeSink
                    } else {
                        SinkAction::DoNothing
                    }
                },
                PlaybackCommand::Stop => {
                    &&& final(self).last_score == old(self).last_score
                    &&& final(self).last_bpm_milli == old(self).last_bpm_milli
                    &&& final(self).last_config == old(self).last_config
                    &&& final(self).spec_is_idle()
                    &&& action == if old(self).has_sink {
                        SinkAction::StopAndClear
                    } else {
                        SinkAction::DoNothing
                    }
                },
                PlaybackCommand::Rewind => {
                    &&& final(self).last_score == old(self).last_score
                    &&& final(self).last_bpm_milli == old(self).last_bpm_milli
                    &&& final(self).last_config == old(self).last_config
                    &&& final(self).spec_is_idle()
                    &&& match old(self).last_score {
                        Some(cached) => {
                            if old(self).last_config.engine == PlaybackEngine::Notarium {
                                action matches SinkAction::Rebuild { plans } && plans@
                                    == spec_score_plans(cached.notes@, old(self).last_bpm_milli)
                            } else if old(self).has_sink {
                                action is StopAndClear
                            } else {
                                action is DoNothing
                            }
                        },
                        None => {
                            action == if old(self).has_sink {
                                SinkAction::StopAndClear
                            } else {
                                SinkAction::DoNothing
                            }
                        },
                    }
                },
            },
    {
        match command {
            PlaybackCommand::Play { score, bpm_milli, config } => {
                self.last_score = Some(score);
                self.last_bpm_milli = bpm_milli;
                let is_builtin = config.engine == PlaybackEngine::Notarium;
                self.last_config = config;
                self.has_sink = false;
                if is_builtin {
                    if let Some(cached) = &self.last_score {
                        let plans = plan_score(cached, bpm_milli);
                        SinkAction::Rebuild { plans }
                    } else {
                        SinkAction::Clear
                    }
                } else {
                    SinkAction::Clear
                }
            },
            PlaybackCommand::Pause => {
                if self.has_sink {
                    SinkAction::PauseSink
                } else {
                    SinkAction::DoNothing
                }
            },
            PlaybackCommand::Resume => {
                if self.has_sink {
                    SinkAction::ResumeSink
                } else {
                    SinkAction::DoNothing
                }
            },
            PlaybackCommand::Stop => {
                let had_sink = self.has_sink;
                self.has_sink = false;
                if had_sink {
                    SinkAction::StopAndClear
                } else {
                    SinkAction::DoNothing
                }
            },
            PlaybackCommand::Rewind => {
                let had_sink = self.has_sink;
                self.has_sink = false;
                let builtin = self.last_config.engine == PlaybackEngine::Notarium;
                if let Some(cached) = &self.last_score {
                    if builtin {
                        let plans = plan_score(cached, self.last_bpm_milli);
                        SinkAction::Rebuild { plans }
                    } else if had_sink {
                        SinkAction::StopAndClear
                    } else {
                        SinkAction::DoNothing
                    }
                } else if had_sink {
                    SinkAction::StopAndClear
                } else {
                    SinkAction::DoNothing
                }
            },
        }
    }
}

} // verus!
