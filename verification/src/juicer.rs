//! The tool's run: make sure its directories exist, settle which profile to use (the one
//! passed on the command line, stored as current, or the stored current one), then run the
//! session. The file and network work is the caller's.
use vstd::prelude::*;

verus! {

/// Exit code: the tool's directories could not be created.
pub const EXIT_DIRS: u8 = 82;
/// Exit code of a run that succeeded.
pub const EXIT_SUCCESS: u8 = 0;

/// Where a run stands.
#[derive(Clone, Copy, Debug, PartialEq, Eq, Structural)]
pub enum RunStage {
    Begin,
    Preparing,
    Storing,
    Loading,
    Executing,
    Done(u8),
}

/// The outcome of the last outside work.
#[derive(Clone, Copy, Debug, PartialEq, Eq, Structural)]
pub enum RunEvent {
    Start,
    /// Whether the tool's directories exist now.
    DirsReady(bool),
    /// Storing the passed profile: `None` on success, else the exit code of the failure.
    Stored(Option<u8>),
    /// Loading the current profile: `None` on success, else the exit code of the failure.
    Loaded(Option<u8>),
    /// The session's exit code (`None`: success).
    Executed(Option<u8>),
}

/// The work that a run asks for next.
#[derive(Clone, Copy, Debug, PartialEq, Eq, Structural)]
pub enum RunCommand {
    /// Create the tool's directories.
    EnsureDirs,
    /// Store the profile passed on the command line and make it the current one.
    StoreProfile,
    /// Load the stored current profile.
    LoadProfile,
    /// Run the session with the profile.
    Execute,
    /// The run is over, with this exit code.
    Exit(u8),
}

/// What a run does on `event`, `passed` telling whether a profile was passed on the command
/// line: directories that cannot be created end it with 82; storing or loading the profile,
/// and the session, end it with their own code when they fail; else it ends with 0.
pub open spec fn run_next(stage: RunStage, passed: bool, event: RunEvent) -> (RunStage, RunCommand) {
    match stage {
        RunStage::Begin => (RunStage::Preparing, RunCommand::EnsureDirs),
        RunStage::Preparing => if event == RunEvent::DirsReady(true) {
            if passed {
                (RunStage::Storing, RunCommand::StoreProfile)
            } else {
                (RunStage::Loading, RunCommand::LoadProfile)
            }
        } else {
            (RunStage::Done(EXIT_DIRS), RunCommand::Exit(EXIT_DIRS))
        },
        RunStage::Storing | RunStage::Loading => match event {
            RunEvent::Stored(Some(code)) | RunEvent::Loaded(Some(code)) => (
                RunStage::Done(code),
                RunCommand::Exit(code),
            ),
            _ => (RunStage::Executing, RunCommand::Execute),
        },
        RunStage::Executing => match event {
            RunEvent::Executed(Some(code)) => (RunStage::Done(code), RunCommand::Exit(code)),
            _ => (RunStage::Done(EXIT_SUCCESS), RunCommand::Exit(EXIT_SUCCESS)),
        },
        RunStage::Done(code) => (RunStage::Done(code), RunCommand::Exit(code)),
    }
}

/// One step of a run: its next stage and the work it asks for now.
pub fn run(stage: RunStage, passed: bool, event: RunEvent) -> (r: (RunStage, RunCommand))
    ensures
        r == run_next(stage, passed, event),
{
    match stage {
        RunStage::Begin => (RunStage::Preparing, RunCommand::EnsureDirs),
        RunStage::Preparing => {
            if event == RunEvent::DirsReady(true) {
                if passed {
                    (RunStage::Storing, RunCommand::StoreProfile)
                } else {
                    (RunStage::Loading, RunCommand::LoadProfile)
                }
            } else {
                (RunStage::Done(EXIT_DIRS), RunCommand::Exit(EXIT_DIRS))
            }
        },
        RunStage::Storing | RunStage::Loading => match event {
            RunEvent::Stored(Some(code)) | RunEvent::Loaded(Some(code)) => (
                RunStage::Done(code),
                RunCommand::Exit(code),
            ),
            _ => (RunStage::Executing, RunCommand::Execute),
        },
        RunStage::Executing => match event {
            RunEvent::Executed(Some(code)) => (RunStage::Done(code), RunCommand::Exit(code)),
            _ => (RunStage::Done(EXIT_SUCCESS), RunCommand::Exit(EXIT_SUCCESS)),
        },
        RunStage::Done(code) => (RunStage::Done(code), RunCommand::Exit(code)),
    }
}

/// What the outside work of one run answers: whether the directories exist, the outcome of
/// settling the profile, and the session's exit code.
pub struct RunReplies {
    pub dirs: bool,
    pub profile: Option<u8>,
    pub session: Option<u8>,
}

/// The outcome that `replies` gives to `command`.
pub open spec fn run_reply(replies: RunReplies, command: RunCommand) -> RunEvent {
    match command {
        RunCommand::EnsureDirs => RunEvent::DirsReady(replies.dirs),
        RunCommand::StoreProfile => RunEvent::Stored(replies.profile),
        RunCommand::LoadProfile => RunEvent::Loaded(replies.profile),
        RunCommand::Execute => RunEvent::Executed(replies.session),
        RunCommand::Exit(_) => RunEvent::Start,
    }
}

/// The exit code that a run reaches from `stage` on `event` within `fuel` further steps.
pub open spec fn drive(
    stage: RunStage,
    passed: bool,
    event: RunEvent,
    replies: RunReplies,
    fuel: nat,
) -> Option<u8>
    decreases fuel,
{
    let (next_stage, command) = run_next(stage, passed, event);
    match command {
        RunCommand::Exit(code) => Some(code),
        _ => if fuel == 0 {
            None
        } else {
            drive(next_stage, passed, run_reply(replies, command), replies, (fuel - 1) as nat)
        },
    }
}

/// A run ends within four steps: with 82 when the directories cannot be created, else with
/// the code of settling the profile when that fails, else with the session's code when it
/// fails, else with 0.
pub proof fn lemma_run_exit(passed: bool, replies: RunReplies)
    ensures
        drive(RunStage::Begin, passed, RunEvent::Start, replies, 4) == Some(
            if !replies.dirs {
                EXIT_DIRS
            } else if replies.profile is Some {
                replies.profile->0
            } else if replies.session is Some {
                replies.session->0
            } else {
                EXIT_SUCCESS
            },
        ),
{
    reveal_with_fuel(drive, 5);
}

/// Once the directories exist, a run stores and uses the profile passed on the command line
/// when there is one, and loads the stored current profile only when none was passed; either
/// way, a profile that is settled leads to the session.
pub proof fn lemma_run_uses_passed_profile(passed: bool)
    ensures
        passed ==> run_next(RunStage::Preparing, passed, RunEvent::DirsReady(true)) == (
            RunStage::Storing,
            RunCommand::StoreProfile,
        ),
        !passed ==> run_next(RunStage::Preparing, passed, RunEvent::DirsReady(true)) == (
            RunStage::Loading,
            RunCommand::LoadProfile,
        ),
        run_next(RunStage::Storing, passed, RunEvent::Stored(None)).1 == RunCommand::Execute,
        run_next(RunStage::Loading, passed, RunEvent::Loaded(None)).1 == RunCommand::Execute,
        run_next(RunStage::Begin, passed, RunEvent::Start).1 == RunCommand::EnsureDirs,
{
}

/// The exit codes of a run: 82 when the directories cannot be created, 0 on success.
pub proof fn lemma_run_code_values()
    ensures
        EXIT_DIRS == 82,
        EXIT_SUCCESS == 0,
{
}

} // verus!
