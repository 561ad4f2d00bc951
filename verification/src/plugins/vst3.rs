//! The VST3 host interface and the stub host used without a real
//! plugin runtime.

use vstd::prelude::*;

use crate::text::spec_find;

verus! {

#[derive(Clone, Debug, PartialEq, Eq)]
pub struct Vst3PluginDescriptor {
    pub name: String,
    pub vendor: String,
    pub version: String,
    pub path: String,
}

impl Vst3PluginDescriptor {
    /// Field-for-field agreement, comparing text by content.
    pub open spec fn spec_matches(self, other: Vst3PluginDescriptor) -> bool {
        &&& self.name@ == other.name@
        &&& self.vendor@ == other.vendor@
        &&& self.version@ == other.version@
        &&& self.path@ == other.path@
    }
}

#[derive(Clone, Copy, Debug, PartialEq, Eq, Structural)]
pub struct ProcessBlockConfig {
    pub sample_rate: u32,
    pub max_buffer_frames: usize,
}

#[derive(Clone, Debug, PartialEq, Eq)]
pub enum Vst3HostError {
    NotFound(String),
    AlreadyLoaded,
}

impl Vst3HostError {
    pub open spec fn spec_message(self) -> Seq<char> {
        match self {
            Vst3HostError::NotFound(name) => "VST3 não encontrado: "@ + name@,
            Vst3HostError::AlreadyLoaded => "plugin já carregado"@,
        }
    }

    pub fn message(&self) -> (text: String)
        ensures
            text@ == self.spec_message(),
    {
        match self {
            Vst3HostError::NotFound(name) => {
                let mut text = "VST3 não encontrado: ".to_owned();
                text.append(name.as_str());
                text
            },
            Vst3HostError::AlreadyLoaded => "plugin já carregado".to_owned(),
        }
    }
}

/// A VST3 plugin host, implemented outside this library when a real
/// plugin runtime is present.
pub trait Vst3Host {
    fn scan_paths(&self, paths: &Vec<String>) -> Result<Vec<Vst3PluginDescriptor>, Vst3HostError>;

    fn load(&mut self, plugin: Vst3PluginDescriptor) -> Result<(), Vst3HostError>;

    fn configure_processing(&mut self, config: ProcessBlockConfig);
}

/// The ASCII-folded characters of a path.
pub open spec fn spec_ascii_lower(s: Seq<char>) -> Seq<char> {
    s.map_values(
        |c: char|
            if 'A' <= c <= 'Z' {
                ((c as u8) + 32) as char
            } else {
                c
            },
    )
}

/// Whether a path names the NotePerformer plugin, folding ASCII case.
pub open spec fn spec_names_noteperformer(path: Seq<char>) -> bool {
    spec_find(spec_ascii_lower(path), "noteperformer"@) is Some
}

/// Whether the path contains the marker, folding ASCII case.
#[verifier::loop_isolation(false)]
fn path_names_noteperformer(path: &str) -> (named: bool)
    ensures
        named == spec_names_noteperformer(path@),
{
    let folded = ascii_lower(path);
    proof {
        assert(folded@ == spec_ascii_lower(path@));
    }
    match crate::text::find_str(folded.as_str(), "noteperformer") {
        Some(_) => true,
        None => false,
    }
}

/// Relies on str::to_ascii_lowercase: each ASCII capital is shifted
/// to its small form and every other character is kept.
#[verifier::external_body]
fn ascii_lower(s: &str) -> (folded: String)
    ensures
        folded@ == spec_ascii_lower(s@),
{
    s.to_ascii_lowercase()
}

/// How many of the paths name the plugin, scanning the first `upto`.
pub open spec fn spec_np_count(paths: Seq<Seq<char>>, upto: int) -> int
    decreases upto,
{
    if upto <= 0 || upto > paths.len() {
        0
    } else {
        spec_np_count(paths, upto - 1) + if spec_names_noteperformer(paths[upto - 1]) {
            1int
        } else {
            0int
        }
    }
}

/// The stub host: it discovers only the NotePerformer plugin and
/// loads at most one plugin at a time.
#[derive(Debug, Default)]
pub struct StubVst3Host {
    pub loaded: Option<Vst3PluginDescriptor>,
    pub config: Option<ProcessBlockConfig>,
}

impl StubVst3Host {
    /// Scans the given paths: each path naming NotePerformer, in
    /// order, yields a descriptor for the plugin at that path.
    #[verifier::loop_isolation(false)]
    pub fn scan_known_paths(&self, paths: &Vec<String>) -> (outcome: Result<
        Vec<Vst3PluginDescriptor>,
        Vst3HostError,
    >)
        ensures
            outcome matches Ok(discovered) ==> {
                &&& discovered@.len() == spec_np_count(
                    paths@.map_values(|p: String| p@),
                    paths@.len() as int,
                )
                &&& forall|k: int|
                    0 <= k < discovered@.len() ==> {
                        &&& (#[trigger] discovered@[k]).name@ == "NotePerformer"@
                        &&& discovered@[k].vendor@ == "Wallander Instruments"@
                        &&& discovered@[k].version@ == "4.x"@
                    }
            },
            outcome is Ok,
    {
        let ghost path_views = paths@.map_values(|p: String| p@);
        proof {
            assert(forall|j: int|
                0 <= j < paths@.len() ==> (#[trigger] paths@[j])@ == path_views[j]);
        }
        let mut discovered: Vec<Vst3PluginDescriptor> = Vec::new();
        let path_count = paths.len();
        for i in 0..path_count
            invariant
                path_count == paths@.len() == path_views.len(),
                forall|j: int| 0 <= j < paths@.len() ==> (#[trigger] paths@[j])@ == path_views[j],
                discovered@.len() == spec_np_count(path_views, i as int),
                forall|k: int|
                    0 <= k < discovered@.len() ==> {
                        &&& (#[trigger] discovered@[k]).name@ == "NotePerformer"@
                        &&& discovered@[k].vendor@ == "Wallander Instruments"@
                        &&& discovered@[k].version@ == "4.x"@
                    },
        {
            if path_names_noteperformer(paths[i].as_str()) {
                discovered.push(
                    Vst3PluginDescriptor {
                        name: "NotePerformer".to_owned(),
                        vendor: "Wallander Instruments".to_owned(),
                        version: "4.x".to_owned(),
                        path: paths[i].clone(),
                    },
                );
            }
        }
        Ok(discovered)
    }

    /// Loads a plugin, refusing a second while one is loaded.
    pub fn load_plugin(&mut self, plugin: Vst3PluginDescriptor) -> (outcome: Result<
        (),
        Vst3HostError,
    >)
        ensures
            outcome is Err <==> old(self).loaded is Some,
            outcome matches Err(e) ==> e == Vst3HostError::AlreadyLoaded && *final(self) == *old(
                self,
            ),
            outcome is Ok ==> final(self).loaded == Some(plugin) && final(self).config == old(
                self,
            ).config,
    {
        if self.loaded.is_some() {
            return Err(Vst3HostError::AlreadyLoaded);
        }
        self.loaded = Some(plugin);
        Ok(())
    }

    /// Adopts a processing configuration.
    pub fn set_processing(&mut self, config: ProcessBlockConfig)
        ensures
            final(self).config == Some(config),
            final(self).loaded == old(self).loaded,
    {
        self.config = Some(config);
    }
}

impl Vst3Host for StubVst3Host {
    fn scan_paths(&self, paths: &Vec<String>) -> Result<Vec<Vst3PluginDescriptor>, Vst3HostError> {
        self.scan_known_paths(paths)
    }

    fn load(&mut self, plugin: Vst3PluginDescriptor) -> Result<(), Vst3HostError> {
        self.load_plugin(plugin)
    }

    fn configure_processing(&mut self, config: ProcessBlockConfig) {
        self.set_processing(config)
    }
}

} // verus!
