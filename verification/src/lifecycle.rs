//! Process-lifecycle decisions: where the debug log goes, whether a
//! redirect-listener bind failure is fatal, and the process exit status for
//! each way a run can end. The file system, the binds and the exit itself
//! happen outside this crate.

use vstd::prelude::*;

verus! {

/// Where the debug log file is placed.
#[derive(Clone, Copy, PartialEq, Eq, Structural, Debug)]
pub enum LogTarget {
    /// The build tree, in development builds.
    BuildTree,
    /// Next to the running executable.
    ExeAdjacent,
    /// The configured log directory.
    ConfiguredDir,
}

/// Pick the log directory: the build tree in a development build; next to
/// the executable on platforms without the configured directory layout or
/// when explicitly forced; otherwise the configured directory.
pub fn choose_log_target(debug_build: bool, windows: bool, force_debug_local: bool) -> (t:
    LogTarget)
    ensures
        t == if debug_build {
            LogTarget::BuildTree
        } else if windows || force_debug_local {
            LogTarget::ExeAdjacent
        } else {
            LogTarget::ConfiguredDir
        },
{
    if debug_build {
        LogTarget::BuildTree
    } else if windows || force_debug_local {
        LogTarget::ExeAdjacent
    } else {
        LogTarget::ConfiguredDir
    }
}

/// Fall back to the executable-adjacent location when the chosen log
/// directory could not be created.
pub fn log_target_after_create(chosen: LogTarget, create_dir_ok: bool) -> (t: LogTarget)
    ensures
        t == if create_dir_ok {
            chosen
        } else {
            LogTarget::ExeAdjacent
        },
{
    if create_dir_ok {
        chosen
    } else {
        LogTarget::ExeAdjacent
    }
}

/// The name of the debug log file, under whichever target directory.
pub fn log_file_name() -> (r: &'static str)
    ensures
        r@ == "debug.log"@,
{
    "debug.log"
}

/// A fatal startup condition: the process aborts before serving traffic.
#[derive(Clone, Copy, PartialEq, Eq, Structural, Debug)]
pub enum StartupFailure {
    /// No candidate directory yielded a usable certificate/key pair.
    NoCertificateBundle,
    /// The primary encrypted listener could not bind at all.
    PrimaryBindFailed,
    /// The persistent log sink could not be opened.
    LogSinkFailed,
}

/// How a run of the whole process ended.
pub enum RunOutcome {
    /// A termination signal arrived and the coordinator reached Terminated.
    DrainedAfterSignal,
    /// A fatal condition at startup.
    Startup(StartupFailure),
    /// The optional redirect listener could not bind; fatal only when
    /// redirect support was explicitly required by configuration.
    RedirectBindFailed { required: bool },
}

/// The process exit status: success exactly for an intentional, completed
/// shutdown, or for a redirect bind failure that configuration did not make
/// fatal; every fatal startup condition fails the process.
pub fn process_exit_success(outcome: &RunOutcome) -> (r: bool)
    ensures
        r == match *outcome {
            RunOutcome::DrainedAfterSignal => true,
            RunOutcome::Startup(_) => false,
            RunOutcome::RedirectBindFailed { required } => !required,
        },
{
    match outcome {
        RunOutcome::DrainedAfterSignal => true,
        RunOutcome::Startup(_) => false,
        RunOutcome::RedirectBindFailed { required } => !*required,
    }
}

} // verus!
