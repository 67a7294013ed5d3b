//! Interactive downloads: asking the user where to put a log, and copying the robot's last
//! modified log there. The terminal and network work is the caller's.
use vstd::prelude::*;

use crate::input::without_last;
use crate::text::{join_path, joined_path, path_with_extension, pop_char, with_extension};

verus! {

/// Exit code: reading the user's answer failed.
pub const EXIT_INPUT: u8 = 32;
/// Exit code: the last modified log could not be found.
pub const EXIT_LATEST: u8 = 19;

/// What lies at a local path.
#[derive(Clone, Copy, Debug, PartialEq, Eq, Structural)]
pub enum PathKind {
    Missing,
    Directory,
    File,
}

/// Where the question for a local path stands.
#[derive(Clone, Copy, Debug, PartialEq, Eq, Structural)]
pub enum AskStage {
    Begin,
    Reading,
    Inspecting,
    Asking,
    Done,
}

/// The question for a local path: its stage and the path last typed.
#[derive(Debug)]
pub struct LocalPathState {
    pub stage: AskStage,
    pub path: String,
}

/// The outcome of the last terminal or file system work.
#[derive(Debug)]
pub enum LocalPathEvent {
    Start,
    /// The line read, line break included, or `None` when reading failed.
    Read(Option<String>),
    Inspected(PathKind),
    /// The answer to "override?", or `None` when the prompt failed.
    Override(Option<bool>),
}

/// The work that the question asks for next.
#[derive(Debug)]
pub enum LocalPathCommand {
    /// Prompt for a path and read a line.
    ReadLine,
    /// Find what lies at `path`.
    Inspect { path: String },
    /// Ask whether the existing file at `path` may be overwritten.
    AskOverride { path: String },
    /// The question is over: the path and whether it names a file, or an exit code.
    Finish { result: Result<(String, bool), Option<u8>> },
}

/// The mathematical view of a `LocalPathState`.
pub struct LocalPathStateView {
    pub stage: AskStage,
    pub path: Seq<char>,
}

/// The mathematical view of a `LocalPathEvent`.
pub enum LocalPathEventView {
    Start,
    Read(Option<Seq<char>>),
    Inspected(PathKind),
    Override(Option<bool>),
}

/// The mathematical view of a `LocalPathCommand`.
pub enum LocalPathCommandView {
    ReadLine,
    Inspect { path: Seq<char> },
    AskOverride { path: Seq<char> },
    Finish { result: Result<(Seq<char>, bool), Option<u8>> },
}

impl View for LocalPathState {
    type V = LocalPathStateView;

    open spec fn view(&self) -> LocalPathStateView {
        LocalPathStateView { stage: self.stage, path: self.path@ }
    }
}

impl View for LocalPathEvent {
    type V = LocalPathEventView;

    open spec fn view(&self) -> LocalPathEventView {
        match self {
            LocalPathEvent::Start => LocalPathEventView::Start,
            LocalPathEvent::Read(line) => LocalPathEventView::Read(
                match line {
                    Some(l) => Some(l@),
                    None => None,
                },
            ),
            LocalPathEvent::Inspected(k) => LocalPathEventView::Inspected(*k),
            LocalPathEvent::Override(a) => LocalPathEventView::Override(*a),
        }
    }
}

/// The view of a path question's result.
pub open spec fn path_result_view(r: Result<(String, bool), Option<u8>>) -> Result<
    (Seq<char>, bool),
    Option<u8>,
> {
    match r {
        Ok((p, f)) => Ok((p@, f)),
        Err(e) => Err(e),
    }
}

impl View for LocalPathCommand {
    type V = LocalPathCommandView;

    open spec fn view(&self) -> LocalPathCommandView {
        match self {
            LocalPathCommand::ReadLine => LocalPathCommandView::ReadLine,
            LocalPathCommand::Inspect { path } => LocalPathCommandView::Inspect { path: path@ },
            LocalPathCommand::AskOverride { path } => LocalPathCommandView::AskOverride {
                path: path@,
            },
            LocalPathCommand::Finish { result } => LocalPathCommandView::Finish {
                result: path_result_view(*result),
            },
        }
    }
}

/// The question ends with `result`.
pub open spec fn ask_done(s: LocalPathStateView, result: Result<(Seq<char>, bool), Option<u8>>) -> (
    LocalPathStateView,
    LocalPathCommandView,
) {
    (LocalPathStateView { stage: AskStage::Done, ..s }, LocalPathCommandView::Finish { result })
}

/// The question asks for a path again.
pub open spec fn ask_again(s: LocalPathStateView) -> (LocalPathStateView, LocalPathCommandView) {
    (LocalPathStateView { stage: AskStage::Reading, ..s }, LocalPathCommandView::ReadLine)
}

/// What the question for a local path does on `event`. A failed read or prompt ends it with
/// 32. A typed path (line break dropped) that is a directory is the answer, as no file; an
/// existing file is the answer, as a file, once the user agrees to overwrite it; a missing
/// path, or a refusal, asks again.
pub open spec fn local_path_next(s: LocalPathStateView, event: LocalPathEventView) -> (
    LocalPathStateView,
    LocalPathCommandView,
) {
    match s.stage {
        AskStage::Begin => ask_again(s),
        AskStage::Reading => match event {
            LocalPathEventView::Read(Some(line)) => {
                let path = without_last(line);
                (
                    LocalPathStateView { stage: AskStage::Inspecting, path },
                    LocalPathCommandView::Inspect { path },
                )
            },
            _ => ask_done(s, Err(Some(EXIT_INPUT))),
        },
        AskStage::Inspecting => match event {
            LocalPathEventView::Inspected(PathKind::Directory) => ask_done(s, Ok((s.path, false))),
            LocalPathEventView::Inspected(PathKind::File) => (
                LocalPathStateView { stage: AskStage::Asking, ..s },
                LocalPathCommandView::AskOverride { path: s.path },
            ),
            _ => ask_again(s),
        },
        AskStage::Asking => match event {
            LocalPathEventView::Override(Some(true)) => ask_done(s, Ok((s.path, true))),
            LocalPathEventView::Override(Some(false)) => ask_again(s),
            _ => ask_done(s, Err(Some(EXIT_INPUT))),
        },
        AskStage::Done => ask_done(s, Err(Some(EXIT_INPUT))),
    }
}

impl LocalPathState {
    /// The question before anything is asked.
    pub fn new() -> (s: LocalPathState)
        ensures
            s@.stage == AskStage::Begin,
            s@.path == Seq::<char>::empty(),
    {
        LocalPathState { stage: AskStage::Begin, path: String::new() }
    }
}

/// One step of the question for a local path to download to: its next state and the work it
/// asks for now.
pub fn get_local_path(s: LocalPathState, event: LocalPathEvent) -> (r: (
    LocalPathState,
    LocalPathCommand,
))
    ensures
        (r.0@, r.1@) == local_path_next(s@, event@),
{
    let LocalPathState { stage, path } = s;
    match stage {
        AskStage::Begin => (LocalPathState { stage: AskStage::Reading, path }, LocalPathCommand::ReadLine),
        AskStage::Reading => match event {
            LocalPathEvent::Read(Some(line)) => {
                let mut typed = line;
                pop_char(&mut typed);
                let shown = typed.clone();
                (
                    LocalPathState { stage: AskStage::Inspecting, path: typed },
                    LocalPathCommand::Inspect { path: shown },
                )
            },
            _ => (
                LocalPathState { stage: AskStage::Done, path },
                LocalPathCommand::Finish { result: Err(Some(EXIT_INPUT)) },
            ),
        },
        AskStage::Inspecting => match event {
            LocalPathEvent::Inspected(PathKind::Directory) => {
                let answer = path.clone();
                (
                    LocalPathState { stage: AskStage::Done, path },
                    LocalPathCommand::Finish { result: Ok((answer, false)) },
                )
            },
            LocalPathEvent::Inspected(PathKind::File) => {
                let asked = path.clone();
                (
                    LocalPathState { stage: AskStage::Asking, path },
                    LocalPathCommand::AskOverride { path: asked },
                )
            },
            _ => (LocalPathState { stage: AskStage::Reading, path }, LocalPathCommand::ReadLine),
        },
        AskStage::Asking => match event {
            LocalPathEvent::Override(Some(true)) => {
                let answer = path.clone();
                (
                    LocalPathState { stage: AskStage::Done, path },
                    LocalPathCommand::Finish { result: Ok((answer, true)) },
                )
            },
            LocalPathEvent::Override(Some(false)) => (
                LocalPathState { stage: AskStage::Reading, path },
                LocalPathCommand::ReadLine,
            ),
            _ => (
                LocalPathState { stage: AskStage::Done, path },
                LocalPathCommand::Finish { result: Err(Some(EXIT_INPUT)) },
            ),
        },
        AskStage::Done => (
            LocalPathState { stage: AskStage::Done, path },
            LocalPathCommand::Finish { result: Err(Some(EXIT_INPUT)) },
        ),
    }
}

/// A path is answered as a file only once the user agreed to overwrite it, and as no file only
/// when it is a directory; a question that fails ends with 32.
pub proof fn lemma_local_path_answers(s: LocalPathStateView, event: LocalPathEventView)
    requires
        s.stage != AskStage::Done,
    ensures
        local_path_next(s, event).1 matches LocalPathCommandView::Finish { result } ==> match result {
            Ok((path, true)) => s.stage == AskStage::Asking && event == LocalPathEventView::Override(
                Some(true),
            ) && path == s.path,
            Ok((path, false)) => s.stage == AskStage::Inspecting && event
                == LocalPathEventView::Inspected(PathKind::Directory) && path == s.path,
            Err(code) => code == Some(EXIT_INPUT),
        },
{
}

/// Whether `event` is the reading of a line that, without its line break, is `path`.
pub open spec fn reads_path(event: LocalPathEventView, path: Seq<char>) -> bool {
    match event {
        LocalPathEventView::Read(Some(line)) => path == without_last(line),
        _ => false,
    }
}

/// The question for a local path before anything is asked.
pub open spec fn local_path_start() -> LocalPathStateView {
    LocalPathStateView { stage: AskStage::Begin, path: Seq::empty() }
}

/// The state of the question, and the work it asks for last, after it is handed `events` in
/// turn from its start.
pub open spec fn local_path_replay(events: Seq<LocalPathEventView>) -> (
    LocalPathStateView,
    LocalPathCommandView,
)
    decreases events.len(),
{
    if events.len() == 0 {
        (local_path_start(), LocalPathCommandView::ReadLine)
    } else {
        local_path_next(local_path_replay(events.drop_last()).0, events.last())
    }
}

/// While a typed path is examined, it is the last line read without its line break; while
/// the user is asked to overwrite, that line was followed by the finding of a file.
proof fn lemma_local_path_replay_state(events: Seq<LocalPathEventView>)
    ensures
        ({
            let s = local_path_replay(events).0;
            let n = events.len() as int;
            &&& s.stage == AskStage::Inspecting ==> n >= 1 && reads_path(events[n - 1], s.path)
            &&& s.stage == AskStage::Asking ==> n >= 2 && reads_path(events[n - 2], s.path)
                && events[n - 1] == LocalPathEventView::Inspected(PathKind::File)
        }),
    decreases events.len(),
{
    if events.len() > 0 {
        let pre = events.drop_last();
        lemma_local_path_replay_state(pre);
        assert forall|i: int| 0 <= i < pre.len() implies pre[i] == events[i] by {}
    }
}

/// Over a whole question: a path is answered only as the last line read without its line
/// break; as no file only when that path was then found to be a directory, and as a file only
/// when it was found to be a file and the user then agreed to overwrite it. A question that
/// fails ends with 32.
pub proof fn lemma_local_path_question(events: Seq<LocalPathEventView>)
    ensures
        ({
            let n = events.len() as int;
            match local_path_replay(events).1 {
                LocalPathCommandView::Finish { result: Ok((path, true)) } => n >= 3 && reads_path(
                    events[n - 3],
                    path,
                ) && events[n - 2] == LocalPathEventView::Inspected(PathKind::File) && events[n
                    - 1] == LocalPathEventView::Override(Some(true)),
                LocalPathCommandView::Finish { result: Ok((path, false)) } => n >= 2 && reads_path(
                    events[n - 2],
                    path,
                ) && events[n - 1] == LocalPathEventView::Inspected(PathKind::Directory),
                LocalPathCommandView::Finish { result: Err(code) } => code == Some(EXIT_INPUT),
                _ => true,
            }
        }),
{
    if events.len() > 0 {
        let pre = events.drop_last();
        lemma_local_path_replay_state(pre);
        assert forall|i: int| 0 <= i < pre.len() implies pre[i] == events[i] by {}
    }
}

/// Where copying the last log stands.
#[derive(Clone, Copy, Debug, PartialEq, Eq, Structural)]
pub enum LastLogStage {
    Begin,
    AwaitPath,
    AwaitLatest,
    AwaitFetch,
    Done(Option<u8>),
}

/// Copying the robot's last modified log: the stage, the robot's log directory, the local path
/// chosen and whether it names a file.
#[derive(Debug)]
pub struct LastLogState {
    pub stage: LastLogStage,
    pub logs: String,
    pub local: String,
    pub to_file: bool,
}

/// The outcome of the last outside work.
#[derive(Debug)]
pub enum LastLogEvent {
    Start,
    /// The answer of the question for a local path.
    LocalPath(Result<(String, bool), Option<u8>>),
    /// The path of the last modified log, or `None` when it could not be found.
    Latest(Option<String>),
    Fetched(bool),
}

/// The work that copying the last log asks for next.
#[derive(Debug)]
pub enum LastLogCommand {
    /// Ask the user for a local path (see `get_local_path`).
    AskLocalPath,
    /// Find the last modified file in `dir` on the robot.
    FindLatest { dir: String },
    /// Copy `source` from the robot to the local `destination`.
    Fetch { source: String, destination: String, overwrite: bool },
    /// Done, with this exit code (`None`: nothing to report).
    Finish { code: Option<u8> },
}

/// The mathematical view of a `LastLogState`.
pub struct LastLogStateView {
    pub stage: LastLogStage,
    pub logs: Seq<char>,
    pub local: Seq<char>,
    pub to_file: bool,
}

/// The mathematical view of a `LastLogEvent`.
pub enum LastLogEventView {
    Start,
    LocalPath(Result<(Seq<char>, bool), Option<u8>>),
    Latest(Option<Seq<char>>),
    Fetched(bool),
}

/// The mathematical view of a `LastLogCommand`.
pub enum LastLogCommandView {
    AskLocalPath,
    FindLatest { dir: Seq<char> },
    Fetch { source: Seq<char>, destination: Seq<char>, overwrite: bool },
    Finish { code: Option<u8> },
}

impl View for LastLogState {
    type V = LastLogStateView;

    open spec fn view(&self) -> LastLogStateView {
        LastLogStateView {
            stage: self.stage,
            logs: self.logs@,
            local: self.local@,
            to_file: self.to_file,
        }
    }
}

impl View for LastLogEvent {
    type V = LastLogEventView;

    open spec fn view(&self) -> LastLogEventView {
        match self {
            LastLogEvent::Start => LastLogEventView::Start,
            LastLogEvent::LocalPath(r) => LastLogEventView::LocalPath(path_result_view(*r)),
            LastLogEvent::Latest(p) => LastLogEventView::Latest(
                match p {
                    Some(p) => Some(p@),
                    None => None,
                },
            ),
            LastLogEvent::Fetched(b) => LastLogEventView::Fetched(*b),
        }
    }
}

impl View for LastLogCommand {
    type V = LastLogCommandView;

    open spec fn view(&self) -> LastLogCommandView {
        match self {
            LastLogCommand::AskLocalPath => LastLogCommandView::AskLocalPath,
            LastLogCommand::FindLatest { dir } => LastLogCommandView::FindLatest { dir: dir@ },
            LastLogCommand::Fetch { source, destination, overwrite } => LastLogCommandView::Fetch {
                source: source@,
                destination: destination@,
                overwrite: *overwrite,
            },
            LastLogCommand::Finish { code } => LastLogCommandView::Finish { code: *code },
        }
    }
}

/// The extension given to a log copied into a directory.
pub open spec fn log_extension() -> Seq<char> {
    seq!['w', 'p', 'i', 'l', 'o', 'g']
}

/// Where the log at `source` is copied: the chosen path itself when it names a file, else
/// the chosen directory joined with `source`, with the extension `wpilog`.
pub open spec fn copy_destination(local: Seq<char>, to_file: bool, source: Seq<char>) -> Seq<char> {
    if to_file {
        local
    } else {
        path_with_extension(joined_path(local, source), log_extension())
    }
}

/// Copying the last log ends with `code`.
pub open spec fn last_log_done(s: LastLogStateView, code: Option<u8>) -> (
    LastLogStateView,
    LastLogCommandView,
) {
    (LastLogStateView { stage: LastLogStage::Done(code), ..s }, LastLogCommandView::Finish { code })
}

/// What copying the last log does on `event`. A question for a local path that fails ends it
/// with the question's code; a last log that cannot be found ends it with 19; once the copy
/// is attempted it ends with nothing to report, whether the copy succeeded or not.
pub open spec fn last_log_next(s: LastLogStateView, event: LastLogEventView) -> (
    LastLogStateView,
    LastLogCommandView,
) {
    match s.stage {
        LastLogStage::Begin => (
            LastLogStateView { stage: LastLogStage::AwaitPath, ..s },
            LastLogCommandView::AskLocalPath,
        ),
        LastLogStage::AwaitPath => match event {
            LastLogEventView::LocalPath(Ok((local, to_file))) => (
                LastLogStateView { stage: LastLogStage::AwaitLatest, local, to_file, ..s },
                LastLogCommandView::FindLatest { dir: s.logs },
            ),
            LastLogEventView::LocalPath(Err(code)) => last_log_done(s, code),
            _ => last_log_done(s, None),
        },
        LastLogStage::AwaitLatest => match event {
            LastLogEventView::Latest(Some(source)) => (
                LastLogStateView { stage: LastLogStage::AwaitFetch, ..s },
                LastLogCommandView::Fetch {
                    source,
                    destination: copy_destination(s.local, s.to_file, source),
                    overwrite: true,
                },
            ),
            _ => last_log_done(s, Some(EXIT_LATEST)),
        },
        LastLogStage::AwaitFetch => last_log_done(s, None),
        LastLogStage::Done(code) => last_log_done(s, code),
    }
}

impl LastLogState {
    /// Copying the last log from the robot directory `logs`, before anything is done.
    pub fn new(logs: String) -> (s: LastLogState)
        ensures
            s@.stage == LastLogStage::Begin,
            s@.logs == logs@,
            s@.local == Seq::<char>::empty(),
            !s@.to_file,
    {
        LastLogState { stage: LastLogStage::Begin, logs, local: String::new(), to_file: false }
    }
}

/// Where the log at `source` is copied.
fn destination_for(local: &str, to_file: bool, source: &str) -> (d: String)
    ensures
        d@ == copy_destination(local@, to_file, source@),
{
    if to_file {
        local.to_string()
    } else {
        let joined = join_path(local, source);
        let extension = "wpilog";
        proof {
            reveal_strlit("wpilog");
        }
        assert(extension@ == log_extension());
        with_extension(joined.as_str(), extension)
    }
}

/// One step of copying the robot's last modified log to a path that the user chooses: its
/// next state and the work it asks for now.
pub fn last_log(s: LastLogState, event: LastLogEvent) -> (r: (LastLogState, LastLogCommand))
    ensures
        (r.0@, r.1@) == last_log_next(s@, event@),
{
    let LastLogState { stage, logs, local, to_file } = s;
    match stage {
        LastLogStage::Begin => (
            LastLogState { stage: LastLogStage::AwaitPath, logs, local, to_file },
            LastLogCommand::AskLocalPath,
        ),
        LastLogStage::AwaitPath => match event {
            LastLogEvent::LocalPath(Ok((chosen, names_file))) => {
                let dir = logs.clone();
                (
                    LastLogState {
                        stage: LastLogStage::AwaitLatest,
                        logs,
                        local: chosen,
                        to_file: names_file,
                    },
                    LastLogCommand::FindLatest { dir },
                )
            },
            LastLogEvent::LocalPath(Err(code)) => (
                LastLogState { stage: LastLogStage::Done(code), logs, local, to_file },
                LastLogCommand::Finish { code },
            ),
            _ => (
                LastLogState { stage: LastLogStage::Done(None), logs, local, to_file },
                LastLogCommand::Finish { code: None },
            ),
        },
        LastLogStage::AwaitLatest => match event {
            LastLogEvent::Latest(Some(source)) => {
                let destination = destination_for(local.as_str(), to_file, source.as_str());
                (
                    LastLogState { stage: LastLogStage::AwaitFetch, logs, local, to_file },
                    LastLogCommand::Fetch { source, destination, overwrite: true },
                )
            },
            _ => {
                let code = Some(EXIT_LATEST);
                (
                    LastLogState { stage: LastLogStage::Done(code), logs, local, to_file },
                    LastLogCommand::Finish { code },
                )
            },
        },
        LastLogStage::AwaitFetch => (
            LastLogState { stage: LastLogStage::Done(None), logs, local, to_file },
            LastLogCommand::Finish { code: None },
        ),
        LastLogStage::Done(code) => (
            LastLogState { stage: LastLogStage::Done(code), logs, local, to_file },
            LastLogCommand::Finish { code },
        ),
    }
}

/// Once the copy is attempted, copying the last log ends with nothing to report, whether the
/// copy succeeded or not.
pub proof fn lemma_copy_outcome_ignored(s: LastLogStateView, ok: bool)
    requires
        s.stage == LastLogStage::AwaitFetch,
    ensures
        last_log_next(s, LastLogEventView::Fetched(ok)).1 == (LastLogCommandView::Finish {
            code: None,
        }),
{
}

/// What the outside work answers while copying the last log: the answer of the question for
/// a local path, the path of the last modified log (`None`: not found), and whether the copy
/// succeeds.
pub struct LastLogReplies {
    pub local: Result<(Seq<char>, bool), Option<u8>>,
    pub latest: Option<Seq<char>>,
    pub fetched: bool,
}

/// The outcome that `replies` gives to `command`.
pub open spec fn last_log_reply(replies: LastLogReplies, command: LastLogCommandView) -> LastLogEventView {
    match command {
        LastLogCommandView::AskLocalPath => LastLogEventView::LocalPath(replies.local),
        LastLogCommandView::FindLatest { .. } => LastLogEventView::Latest(replies.latest),
        LastLogCommandView::Fetch { .. } => LastLogEventView::Fetched(replies.fetched),
        LastLogCommandView::Finish { .. } => LastLogEventView::Start,
    }
}

/// The exit code that copying the last log reaches from `s` on `event` within `fuel` further
/// steps when the outside work answers as `replies` does.
pub open spec fn last_log_run(
    s: LastLogStateView,
    event: LastLogEventView,
    replies: LastLogReplies,
    fuel: nat,
) -> Option<Option<u8>>
    decreases fuel,
{
    let (s2, command) = last_log_next(s, event);
    match command {
        LastLogCommandView::Finish { code } => Some(code),
        _ => if fuel == 0 {
            None
        } else {
            last_log_run(s2, last_log_reply(replies, command), replies, (fuel - 1) as nat)
        },
    }
}

/// Copying the last log ends within four steps: with the question's code when the question
/// for a local path fails (32 when it fails, as `get_local_path` does), else with 19 when the
/// last log cannot be found, else with nothing to report, even when the copy failed.
pub proof fn lemma_last_log_exit(logs: Seq<char>, replies: LastLogReplies)
    ensures
        last_log_run(
            LastLogStateView {
                stage: LastLogStage::Begin,
                logs,
                local: Seq::empty(),
                to_file: false,
            },
            LastLogEventView::Start,
            replies,
            4,
        ) == Some(
            match replies.local {
                Err(code) => code,
                Ok(_) => if replies.latest is None {
                    Some(EXIT_LATEST)
                } else {
                    None
                },
            },
        ),
        replies.local is Ok || replies.local == Err::<(Seq<char>, bool), Option<u8>>(
            Some(EXIT_INPUT),
        ) ==> ({
            let code = last_log_run(
                LastLogStateView {
                    stage: LastLogStage::Begin,
                    logs,
                    local: Seq::empty(),
                    to_file: false,
                },
                LastLogEventView::Start,
                replies,
                4,
            )->0;
            code is None || code == Some(EXIT_LATEST) || code == Some(EXIT_INPUT)
        }),
{
    reveal_with_fuel(last_log_run, 5);
}

/// Copying the last log always asks to overwrite the destination, copies the log that was
/// found, and writes it to the chosen file when the user chose a file (having agreed to
/// overwrite it).
pub proof fn lemma_last_log_overwrites(s: LastLogStateView, event: LastLogEventView)
    ensures
        last_log_next(s, event).1 matches LastLogCommandView::Fetch { overwrite, .. } ==> overwrite,
        s.stage == LastLogStage::AwaitLatest ==> (event matches LastLogEventView::Latest(Some(source))
            ==> last_log_next(s, event).1 matches LastLogCommandView::Fetch {
            source: copied,
            destination,
            ..
        } && copied == source && (s.to_file ==> destination == s.local) && (!s.to_file
            ==> destination == path_with_extension(
            joined_path(s.local, source),
            seq!['w', 'p', 'i', 'l', 'o', 'g'],
        ))),
        s.stage == LastLogStage::AwaitPath ==> (event matches LastLogEventView::LocalPath(Ok(local))
            ==> last_log_next(s, event).1 == (LastLogCommandView::FindLatest { dir: s.logs })
            && last_log_next(s, event).0.local == local.0 && last_log_next(s, event).0.to_file
            == local.1),
{
}

/// Each step of the question for a local path: it starts by reading a line; a line read is
/// examined as typed without its line break; a directory is the answer (as no file); an
/// existing file leads to the overwrite question; a missing path, or a refusal to overwrite,
/// reads a new line; agreeing to overwrite answers the file (as a file); a failed read or
/// prompt ends with 32.
pub proof fn lemma_local_path_steps(s: LocalPathStateView, line: Seq<char>)
    ensures
        local_path_next(LocalPathStateView { stage: AskStage::Begin, ..s }, LocalPathEventView::Start).1
            == LocalPathCommandView::ReadLine,
        s.stage == AskStage::Reading ==> local_path_next(s, LocalPathEventView::Read(Some(line)))
            == ((
            LocalPathStateView {
                stage: AskStage::Inspecting,
                path: if line.len() > 0 {
                    line.subrange(0, line.len() - 1)
                } else {
                    line
                },
            },
            LocalPathCommandView::Inspect {
                path: if line.len() > 0 {
                    line.subrange(0, line.len() - 1)
                } else {
                    line
                },
            },
        )),
        s.stage == AskStage::Reading ==> local_path_next(s, LocalPathEventView::Read(None)).1 == (
        LocalPathCommandView::Finish { result: Err(Some(32u8)) }),
        s.stage == AskStage::Inspecting ==> local_path_next(
            s,
            LocalPathEventView::Inspected(PathKind::Directory),
        ).1 == (LocalPathCommandView::Finish { result: Ok((s.path, false)) }),
        s.stage == AskStage::Inspecting ==> local_path_next(
            s,
            LocalPathEventView::Inspected(PathKind::File),
        ).1 == (LocalPathCommandView::AskOverride { path: s.path }),
        s.stage == AskStage::Inspecting ==> local_path_next(
            s,
            LocalPathEventView::Inspected(PathKind::Missing),
        ).1 == LocalPathCommandView::ReadLine,
        s.stage == AskStage::Asking ==> local_path_next(s, LocalPathEventView::Override(Some(true))).1
            == (LocalPathCommandView::Finish { result: Ok((s.path, true)) }),
        s.stage == AskStage::Asking ==> local_path_next(s, LocalPathEventView::Override(Some(false))).1
            == LocalPathCommandView::ReadLine,
        s.stage == AskStage::Asking ==> local_path_next(s, LocalPathEventView::Override(None)).1 == (
        LocalPathCommandView::Finish { result: Err(Some(32u8)) }),
{
    if line.len() > 0 {
        assert(line.drop_last() == line.subrange(0, line.len() - 1));
    }
}

/// The exit codes of the interactive download: 32 when reading the user's answer fails, 19
/// when the last log cannot be found.
pub proof fn lemma_interaction_code_values()
    ensures
        EXIT_INPUT == 32,
        EXIT_LATEST == 19,
{
}

} // verus!
