//! The home screen: the score files found in the documents folder.

use vstd::prelude::*;

verus! {

/// A score file found on disk, reduced to plain values: its name,
/// its path, and its modification time in seconds since the epoch.
#[derive(Clone, Debug)]
pub struct ScoreFile {
    pub name: String,
    pub path: String,
    pub last_modified_secs: u64,
}

#[derive(Clone, Debug)]
pub struct HomeScreenState {
    pub score_files: Vec<ScoreFile>,
    pub empty_message: String,
}

/// Where the editor keeps its score files.
pub fn notarium_documents_dir() -> (dir: &'static str)
    ensures
        dir@ == "/documents/notarium/"@,
{
    "/documents/notarium/"
}

impl HomeScreenState {
    /// The home screen for a finished folder scan: the files as
    /// given, and the empty-folder message exactly when none were
    /// found.  The scan itself, and its most-recent-first order, is
    /// the shell's part.
    pub fn from_scan(score_files: Vec<ScoreFile>) -> (state: HomeScreenState)
        ensures
            state.score_files@ == score_files@,
            score_files@.len() > 0 ==> state.empty_message@.len() == 0,
            score_files@.len() == 0 ==> state.empty_message@ == "Nenhuma partitura encontrada."@,
    {
        if score_files.len() > 0 {
            HomeScreenState { score_files, empty_message: String::new() }
        } else {
            HomeScreenState {
                score_files,
                empty_message: "Nenhuma partitura encontrada.".to_owned(),
            }
        }
    }
}

} // verus!
