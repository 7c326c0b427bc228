//! Configuration carried by the recording and profile-creation layers
//! around the symbolication core.

use vstd::prelude::*;

verus! {

/// How a recording run behaves: where the profile goes, how long it may
/// run, and how often it samples. Durations are in nanoseconds.
#[derive(Debug)]
pub struct RecordingProps {
    pub output_file: String,
    pub time_limit: Option<u64>,
    pub interval: u64,
    pub main_thread_only: bool,
}

/// How the output profile is assembled.
#[derive(Debug)]
pub struct ProfileCreationProps {
    pub profile_name: String,
    /// Merge non-overlapping threads of the same name.
    pub reuse_threads: bool,
    /// Fold repeated frames at the base of the stack.
    pub fold_recursive_prefix: bool,
}

} // verus!
