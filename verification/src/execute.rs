//! A session on the robot: connect, start SFTP, then list the log directory or download a
//! log. The network work is the caller's; this module decides, after each outcome, what to
//! do next and with which exit code the session ends.
pub mod download;
pub mod interactions;
pub mod scan;

use vstd::prelude::*;

use crate::profile::Profile;

verus! {

/// Exit code: the SSH client could not be spawned.
pub const EXIT_SPAWN: u8 = 20;
/// Exit code: the file's metadata could not be read.
pub const EXIT_METADATA: u8 = 21;
/// Exit code: the download failed.
pub const EXIT_DOWNLOAD: u8 = 31;
/// Exit code: SFTP could not be started.
pub const EXIT_SFTP: u8 = 45;
/// Exit code: the log directory could not be sorted.
pub const EXIT_SORT: u8 = 81;
/// Exit code: the selected log does not exist.
pub const EXIT_MISSING: u8 = 82;
/// Exit code: the log directory could not be listed.
pub const EXIT_LIST: u8 = 91;

/// Which log a download takes.
#[derive(Clone, Copy, Debug, PartialEq, Eq, Structural)]
pub enum DownloadMode {
    /// The first created log.
    First,
    /// The log named by the user.
    Select,
    /// The last modified log.
    LastModified,
}

/// What to download and where to.
#[derive(Debug)]
pub struct DownloadInputs {
    pub mode: DownloadMode,
    /// The log's name, for `Select`.
    pub log_name: Option<String>,
    /// The local file to write.
    pub destination: String,
}

/// What a session does once connected.
#[derive(Debug)]
pub enum Action {
    Download(DownloadInputs),
    List,
}

/// The order in which the log directory is sorted to pick one file.
#[derive(Clone, Copy, Debug, PartialEq, Eq, Structural)]
pub enum SortOrder {
    FirstCreated,
    LastModified,
}

/// A file on the robot: its path and, when known, its size in bytes.
#[derive(Debug)]
pub struct RemoteFile {
    pub path: String,
    pub size: Option<u64>,
}

/// What is reported of a file's size before it is downloaded.
#[derive(Debug)]
pub enum SizeReport {
    /// Nothing.
    Silent,
    /// That the size is unknown.
    Unknown,
    /// The size, formatted.
    Known(String),
}

/// The outside work that the session asks for next.
#[derive(Debug)]
pub enum Command {
    /// Spawn the SSH client for the profile.
    SpawnClient,
    /// Start SFTP on the client.
    StartSftp,
    /// List the directory (and show its files).
    ListLogs { dir: String },
    /// Sort the directory in this order and take its first file.
    SortLogs { dir: String, order: SortOrder },
    /// Check that the path exists on the robot.
    CheckPath { path: String },
    /// Read the metadata of the path.
    ReadMetadata { path: String },
    /// Copy `source` from the robot to the local `destination`, having reported `report`.
    Fetch { source: String, destination: String, overwrite: bool, report: SizeReport },
    /// The session is over, with this exit code (`None`: success).
    Exit { code: Option<u8> },
}

/// The outcome of the last outside work.
#[derive(Debug)]
pub enum Event {
    /// Nothing has been done yet.
    Start,
    Spawned(bool),
    SftpStarted(bool),
    Listed(bool),
    /// The first file in the asked order, or `None` when sorting failed.
    Sorted(Option<RemoteFile>),
    PathChecked(bool),
    /// The metadata read, or `None` when reading failed.
    Metadata(Option<RemoteFile>),
    Fetched(bool),
}

/// Where a session stands.
#[derive(Clone, Copy, Debug, PartialEq, Eq, Structural)]
pub enum Stage {
    Begin,
    Spawning,
    StartingSftp,
    Listing,
    Sorting,
    Checking,
    Stating,
    Fetching,
    Done(Option<u8>),
}

/// A session: the action, the profile's log directory, whether downloads report the file's
/// size (reading the metadata of a selected log first), the stage, and the selected path.
#[derive(Debug)]
pub struct Session {
    pub action: Action,
    pub logs: String,
    pub detailed: bool,
    pub stage: Stage,
    pub target: String,
}

/// The mathematical view of an `Action`.
pub enum ActionView {
    Download { mode: DownloadMode, log_name: Option<Seq<char>>, destination: Seq<char> },
    List,
}

/// The mathematical view of a `RemoteFile`.
pub struct FileView {
    pub path: Seq<char>,
    pub size: Option<u64>,
}

/// The mathematical view of a `SizeReport`.
pub enum ReportView {
    Silent,
    Unknown,
    Known(Seq<char>),
}

/// The mathematical view of a `Command`.
pub enum CommandView {
    SpawnClient,
    StartSftp,
    ListLogs { dir: Seq<char> },
    SortLogs { dir: Seq<char>, order: SortOrder },
    CheckPath { path: Seq<char> },
    ReadMetadata { path: Seq<char> },
    Fetch { source: Seq<char>, destination: Seq<char>, overwrite: bool, report: ReportView },
    Exit { code: Option<u8> },
}

/// The mathematical view of an `Event`.
pub enum EventView {
    Start,
    Spawned(bool),
    SftpStarted(bool),
    Listed(bool),
    Sorted(Option<FileView>),
    PathChecked(bool),
    Metadata(Option<FileView>),
    Fetched(bool),
}

/// The mathematical view of a `Session`.
pub struct SessionView {
    pub action: ActionView,
    pub logs: Seq<char>,
    pub detailed: bool,
    pub stage: Stage,
    pub target: Seq<char>,
}

impl View for Action {
    type V = ActionView;

    open spec fn view(&self) -> ActionView {
        match self {
            Action::Download(d) => ActionView::Download {
                mode: d.mode,
                log_name: match d.log_name {
                    Some(n) => Some(n@),
                    None => None,
                },
                destination: d.destination@,
            },
            Action::List => ActionView::List,
        }
    }
}

impl View for RemoteFile {
    type V = FileView;

    open spec fn view(&self) -> FileView {
        FileView { path: self.path@, size: self.size }
    }
}

/// The view of an optional file.
pub open spec fn file_view(f: Option<RemoteFile>) -> Option<FileView> {
    match f {
        Some(f) => Some(f@),
        None => None,
    }
}

impl View for SizeReport {
    type V = ReportView;

    open spec fn view(&self) -> ReportView {
        match self {
            SizeReport::Silent => ReportView::Silent,
            SizeReport::Unknown => ReportView::Unknown,
            SizeReport::Known(t) => ReportView::Known(t@),
        }
    }
}

impl View for Command {
    type V = CommandView;

    open spec fn view(&self) -> CommandView {
        match self {
            Command::SpawnClient => CommandView::SpawnClient,
            Command::StartSftp => CommandView::StartSftp,
            Command::ListLogs { dir } => CommandView::ListLogs { dir: dir@ },
            Command::SortLogs { dir, order } => CommandView::SortLogs { dir: dir@, order: *order },
            Command::CheckPath { path } => CommandView::CheckPath { path: path@ },
            Command::ReadMetadata { path } => CommandView::ReadMetadata { path: path@ },
            Command::Fetch { source, destination, overwrite, report } => CommandView::Fetch {
                source: source@,
                destination: destination@,
                overwrite: *overwrite,
                report: report@,
            },
            Command::Exit { code } => CommandView::Exit { code: *code },
        }
    }
}

impl View for Event {
    type V = EventView;

    open spec fn view(&self) -> EventView {
        match self {
            Event::Start => EventView::Start,
            Event::Spawned(b) => EventView::Spawned(*b),
            Event::SftpStarted(b) => EventView::SftpStarted(*b),
            Event::Listed(b) => EventView::Listed(*b),
            Event::Sorted(f) => EventView::Sorted(file_view(*f)),
            Event::PathChecked(b) => EventView::PathChecked(*b),
            Event::Metadata(f) => EventView::Metadata(file_view(*f)),
            Event::Fetched(b) => EventView::Fetched(*b),
        }
    }
}

impl View for Session {
    type V = SessionView;

    open spec fn view(&self) -> SessionView {
        SessionView {
            action: self.action@,
            logs: self.logs@,
            detailed: self.detailed,
            stage: self.stage,
            target: self.target@,
        }
    }
}

/// Whether `event` is an outcome of the work that a session at `stage` asked for.
pub open spec fn accepts(stage: Stage, event: EventView) -> bool {
    match stage {
        Stage::Begin => event is Start,
        Stage::Spawning => event is Spawned,
        Stage::StartingSftp => event is SftpStarted,
        Stage::Listing => event is Listed,
        Stage::Sorting => event is Sorted,
        Stage::Checking => event is PathChecked,
        Stage::Stating => event is Metadata,
        Stage::Fetching => event is Fetched,
        Stage::Done(_) => true,
    }
}

/// A `Select` download names its log.
pub open spec fn names_its_log(action: ActionView) -> bool {
    action matches ActionView::Download { mode, log_name, .. } ==> (mode == DownloadMode::Select
        ==> log_name is Some)
}

/// The session `s` ends now with `code`.
pub open spec fn finish(s: SessionView, code: Option<u8>) -> (SessionView, CommandView) {
    (SessionView { stage: Stage::Done(code), ..s }, CommandView::Exit { code })
}

/// The session `s` moves to `stage` and asks for `command`.
pub open spec fn ask(s: SessionView, stage: Stage, command: CommandView) -> (
    SessionView,
    CommandView,
) {
    (SessionView { stage, ..s }, command)
}

/// `code` when `failed`, else success.
pub open spec fn code_if(failed: bool, code: u8) -> Option<u8> {
    if failed {
        Some(code)
    } else {
        None
    }
}

/// What a session at `s` does on `event`: its next state and the work it asks for.
pub open spec fn next(s: SessionView, event: EventView) -> (SessionView, CommandView) {
    match s.stage {
        Stage::Begin => ask(s, Stage::Spawning, CommandView::SpawnClient),
        Stage::Spawning => if event == EventView::Spawned(true) {
            ask(s, Stage::StartingSftp, CommandView::StartSftp)
        } else {
            finish(s, Some(EXIT_SPAWN))
        },
        Stage::StartingSftp => if event == EventView::SftpStarted(true) {
            match s.action {
                ActionView::List => ask(s, Stage::Listing, CommandView::ListLogs { dir: s.logs }),
                ActionView::Download { .. } => download::start_next(s),
            }
        } else {
            finish(s, Some(EXIT_SFTP))
        },
        Stage::Listing => finish(s, code_if(event == EventView::Listed(false), EXIT_LIST)),
        Stage::Done(code) => (s, CommandView::Exit { code }),
        _ => download::download_next(s, event),
    }
}

impl Session {
    /// A new session for `action` on `profile`'s robot. `detailed` asks for the download
    /// that reads a selected log's metadata and reports file sizes.
    pub fn new(action: Action, profile: &Profile, detailed: bool) -> (s: Session)
        ensures
            s@.action == action@,
            s@.logs == profile.logs@,
            s@.detailed == detailed,
            s@.stage == Stage::Begin,
            s@.target == Seq::<char>::empty(),
    {
        Session { action, logs: profile.logs(), detailed, stage: Stage::Begin, target: String::new() }
    }

    /// Whether `event` may be handed to `execute` now: it answers the work asked for,
    /// and a `Select` download that is about to start (SFTP having started) names its log.
    pub fn can_take(&self, event: &Event) -> (r: bool)
        ensures
            r == (accepts(self.stage, event@) && (self.stage == Stage::StartingSftp && event@
                == EventView::SftpStarted(true) ==> names_its_log(self@.action))),
    {
        let fits = match self.stage {
            Stage::Begin => matches!(event, Event::Start),
            Stage::Spawning => matches!(event, Event::Spawned(_)),
            Stage::StartingSftp => matches!(event, Event::SftpStarted(_)),
            Stage::Listing => matches!(event, Event::Listed(_)),
            Stage::Sorting => matches!(event, Event::Sorted(_)),
            Stage::Checking => matches!(event, Event::PathChecked(_)),
            Stage::Stating => matches!(event, Event::Metadata(_)),
            Stage::Fetching => matches!(event, Event::Fetched(_)),
            Stage::Done(_) => true,
        };
        let named = match &self.action {
            Action::Download(d) => !matches!(d.mode, DownloadMode::Select) || d.log_name.is_some(),
            Action::List => true,
        };
        let starting = matches!(self.stage, Stage::StartingSftp) && matches!(
            event,
            Event::SftpStarted(true)
        );
        fits && (!starting || named)
    }
}

/// One step of a session: given the outcome of the work last asked for, the session's next
/// state and the work it asks for now. Spawning the client fails with 20, starting SFTP with
/// 45, listing with 91; downloads are decided by `download::download`.
pub fn execute(session: Session, event: Event) -> (r: (Session, Command))
    requires
        accepts(session.stage, event@),
        session.stage == Stage::StartingSftp && event@ == EventView::SftpStarted(true)
            ==> names_its_log(session@.action),
    ensures
        (r.0@, r.1@) == next(session@, event@),
{
    let Session { action, logs, detailed, stage, target } = session;
    match stage {
        Stage::Begin => (
            Session { action, logs, detailed, stage: Stage::Spawning, target },
            Command::SpawnClient,
        ),
        Stage::Spawning => {
            if matches!(event, Event::Spawned(true)) {
                (
                    Session { action, logs, detailed, stage: Stage::StartingSftp, target },
                    Command::StartSftp,
                )
            } else {
                let code = Some(EXIT_SPAWN);
                (Session { action, logs, detailed, stage: Stage::Done(code), target }, Command::Exit { code })
            }
        },
        Stage::StartingSftp => {
            if matches!(event, Event::SftpStarted(true)) {
                match action {
                    Action::List => {
                        let dir = logs.clone();
                        (
                            Session { action: Action::List, logs, detailed, stage: Stage::Listing, target },
                            Command::ListLogs { dir },
                        )
                    },
                    Action::Download(d) => download::start(
                        Session { action: Action::Download(d), logs, detailed, stage, target },
                    ),
                }
            } else {
                let code = Some(EXIT_SFTP);
                (Session { action, logs, detailed, stage: Stage::Done(code), target }, Command::Exit { code })
            }
        },
        Stage::Listing => {
            let code = if matches!(event, Event::Listed(false)) {
                Some(EXIT_LIST)
            } else {
                None
            };
            (Session { action, logs, detailed, stage: Stage::Done(code), target }, Command::Exit { code })
        },
        Stage::Done(code) => (
            Session { action, logs, detailed, stage, target },
            Command::Exit { code },
        ),
        _ => download::download(Session { action, logs, detailed, stage, target }, event),
    }
}

/// What the outside work answers in one session, whatever is asked: whether the client
/// spawns, SFTP starts and the listing succeeds, the file that sorting picks (`None`: sorting
/// fails), whether the named log exists, its metadata (`None`: unreadable), and whether the
/// copy succeeds.
pub struct Replies {
    pub spawned: bool,
    pub sftp: bool,
    pub listed: bool,
    pub sorted: Option<FileView>,
    pub exists: bool,
    pub stat: Option<FileView>,
    pub fetched: bool,
}

/// The outcome that `replies` gives to `command`.
pub open spec fn reply(replies: Replies, command: CommandView) -> EventView {
    match command {
        CommandView::SpawnClient => EventView::Spawned(replies.spawned),
        CommandView::StartSftp => EventView::SftpStarted(replies.sftp),
        CommandView::ListLogs { .. } => EventView::Listed(replies.listed),
        CommandView::SortLogs { .. } => EventView::Sorted(replies.sorted),
        CommandView::CheckPath { .. } => EventView::PathChecked(replies.exists),
        CommandView::ReadMetadata { .. } => EventView::Metadata(replies.stat),
        CommandView::Fetch { .. } => EventView::Fetched(replies.fetched),
        CommandView::Exit { .. } => EventView::Start,
    }
}

/// The exit code that a session reaches from `s` on `event` when the outside work answers
/// as `replies` does, within `fuel` further steps (`None` when it needs more).
pub open spec fn run(s: SessionView, event: EventView, replies: Replies, fuel: nat) -> Option<
    Option<u8>,
>
    decreases fuel,
{
    let (s2, command) = next(s, event);
    match command {
        CommandView::Exit { code } => Some(code),
        _ => if fuel == 0 {
            None
        } else {
            run(s2, reply(replies, command), replies, (fuel - 1) as nat)
        },
    }
}

/// A new session for `action` on a robot whose logs lie in `logs`.
pub open spec fn begin(action: ActionView, logs: Seq<char>, detailed: bool) -> SessionView {
    SessionView { action, logs, detailed, stage: Stage::Begin, target: Seq::empty() }
}

/// The exit code of a whole session when the outside work answers as `replies` does: the
/// code of the first step that fails, or success.
pub open spec fn session_exit(action: ActionView, detailed: bool, replies: Replies) -> Option<u8> {
    if !replies.spawned {
        Some(EXIT_SPAWN)
    } else if !replies.sftp {
        Some(EXIT_SFTP)
    } else {
        match action {
            ActionView::List => code_if(!replies.listed, EXIT_LIST),
            ActionView::Download { mode, .. } => if mode == DownloadMode::Select {
                if !replies.exists {
                    Some(EXIT_MISSING)
                } else if detailed && replies.stat is None {
                    Some(EXIT_METADATA)
                } else {
                    code_if(!replies.fetched, EXIT_DOWNLOAD)
                }
            } else if replies.sorted is None {
                Some(EXIT_SORT)
            } else {
                code_if(!replies.fetched, EXIT_DOWNLOAD)
            },
        }
    }
}

/// A session ends within six steps, with the exit code of the first outside step that
/// fails (20 spawn, 45 SFTP, 91 list, 81 sort, 82 missing log, 21 metadata, 31 copy), or
/// with success when none fails.
pub proof fn lemma_session_exit(
    action: ActionView,
    logs: Seq<char>,
    detailed: bool,
    replies: Replies,
)
    requires
        names_its_log(action) || !replies.spawned || !replies.sftp,
    ensures
        run(begin(action, logs, detailed), EventView::Start, replies, 6) == Some(
            session_exit(action, detailed, replies),
        ),
{
    reveal_with_fuel(run, 7);
}

/// The robot file that a session copies, reached from `s` on `event` within `fuel` further
/// steps when the outside work answers as `replies` does (`None`: it copies nothing).
pub open spec fn copied(s: SessionView, event: EventView, replies: Replies, fuel: nat) -> Option<
    Seq<char>,
>
    decreases fuel,
{
    let (s2, command) = next(s, event);
    match command {
        CommandView::Fetch { source, .. } => Some(source),
        CommandView::Exit { .. } => None,
        _ => if fuel == 0 {
            None
        } else {
            copied(s2, reply(replies, command), replies, (fuel - 1) as nat)
        },
    }
}

/// The robot file that a whole session copies when the outside work answers as `replies`
/// does: the file that sorting picks, or the named log (`logs` joined with its name, with the
/// extension `.wpilog`) once it is found to exist, as its metadata gives it in the detailed
/// style; nothing when an earlier step fails or the action is a listing.
pub open spec fn session_copies(
    action: ActionView,
    logs: Seq<char>,
    detailed: bool,
    replies: Replies,
) -> Option<Seq<char>> {
    if !replies.spawned || !replies.sftp {
        None
    } else {
        match action {
            ActionView::List => None,
            ActionView::Download { mode, log_name, .. } => if mode == DownloadMode::Select {
                if !replies.exists {
                    None
                } else if detailed {
                    match replies.stat {
                        Some(f) => Some(f.path),
                        None => None,
                    }
                } else {
                    Some(download::select_path(logs, log_name->0))
                }
            } else {
                match replies.sorted {
                    Some(f) => Some(f.path),
                    None => None,
                }
            },
        }
    }
}

/// A download copies the file that sorting picks, or the named log under the profile's log
/// directory with the extension `.wpilog` (as its metadata names it, in the detailed style).
pub proof fn lemma_session_copies(
    action: ActionView,
    logs: Seq<char>,
    detailed: bool,
    replies: Replies,
)
    requires
        names_its_log(action) || !replies.spawned || !replies.sftp,
    ensures
        copied(begin(action, logs, detailed), EventView::Start, replies, 6) == session_copies(
            action,
            logs,
            detailed,
            replies,
        ),
{
    reveal_with_fuel(copied, 7);
}

/// A download, once SFTP has started, ends with success, 81 (sorting), 82 (missing log) or
/// 31 (copy), and with 21 (metadata) only in the detailed style; it succeeds only when a
/// file was copied and the copy succeeded.
pub proof fn lemma_download_exit_codes(
    action: ActionView,
    logs: Seq<char>,
    detailed: bool,
    replies: Replies,
)
    requires
        action is Download,
        replies.spawned,
        replies.sftp,
    ensures
        ({
            let code = session_exit(action, detailed, replies);
            ||| code is None
            ||| code == Some(EXIT_SORT)
            ||| code == Some(EXIT_MISSING)
            ||| code == Some(EXIT_DOWNLOAD)
            ||| detailed && code == Some(EXIT_METADATA)
        }),
        session_exit(action, detailed, replies) is None ==> replies.fetched && session_copies(
            action,
            logs,
            detailed,
            replies,
        ) is Some,
{
}

/// For the first created or the last modified log, both styles of download sort the same
/// way, copy the same file and end with the same code: they differ only in what they report.
pub proof fn lemma_styles_agree(action: ActionView, logs: Seq<char>, replies: Replies)
    requires
        action matches ActionView::Download { mode, .. } && mode != DownloadMode::Select,
    ensures
        session_exit(action, true, replies) == session_exit(action, false, replies),
        session_copies(action, logs, true, replies) == session_copies(action, logs, false, replies),
        download::start_next(SessionView { stage: Stage::StartingSftp, ..begin(action, logs, true) }).1
            == download::start_next(
            SessionView { stage: Stage::StartingSftp, ..begin(action, logs, false) },
        ).1,
{
}

/// A session never asks to overwrite a local file, and always copies to the destination
/// that its action names.
pub proof fn lemma_fetch_keeps_files(s: SessionView, event: EventView)
    ensures
        next(s, event).1 matches CommandView::Fetch { destination, overwrite, .. } ==> !overwrite
            && destination == download::destination_of(s.action),
{
}

/// A finished session stays finished with the same exit code, whatever it is handed.
pub proof fn lemma_done_is_final(s: SessionView, event: EventView, code: Option<u8>)
    requires
        s.stage == Stage::Done(code),
    ensures
        next(s, event).0.stage == Stage::Done(code),
        next(s, event).1 == (CommandView::Exit { code }),
{
}

/// Once SFTP has started, a session does what its action says: a listing lists the profile's
/// log directory; a download of the first created or the last modified log sorts that
/// directory in that order; a download of a named log checks the path of that log in that
/// directory. A session whose SFTP fails ends with 45 and does nothing more.
pub proof fn lemma_action_starts(s: SessionView)
    requires
        s.stage == Stage::StartingSftp,
    ensures
        s.action is List ==> next(s, EventView::SftpStarted(true)).1 == (CommandView::ListLogs {
            dir: s.logs,
        }) && next(s, EventView::SftpStarted(true)).0.stage == Stage::Listing,
        s.action matches ActionView::Download { mode, .. } ==> (mode == DownloadMode::LastModified
            ==> next(s, EventView::SftpStarted(true)).1 == (CommandView::SortLogs {
            dir: s.logs,
            order: SortOrder::LastModified,
        })),
        s.action matches ActionView::Download { mode, .. } ==> (mode == DownloadMode::First
            ==> next(s, EventView::SftpStarted(true)).1 == (CommandView::SortLogs {
            dir: s.logs,
            order: SortOrder::FirstCreated,
        })),
        s.action matches ActionView::Download { mode, log_name, .. } ==> (mode
            == DownloadMode::Select && log_name is Some ==> next(
            s,
            EventView::SftpStarted(true),
        ).1 == (CommandView::CheckPath {
            path: download::select_path(s.logs, log_name->0),
        })),
        next(s, EventView::SftpStarted(false)).1 == (CommandView::Exit { code: Some(EXIT_SFTP) }),
{
}

/// A new session first spawns the client; a spawned client gets SFTP started, and a client
/// that fails to spawn ends the session with 20.
pub proof fn lemma_session_opens(s: SessionView, event: EventView)
    ensures
        s.stage == Stage::Begin ==> next(s, event).1 == CommandView::SpawnClient,
        s.stage == Stage::Spawning ==> next(s, EventView::Spawned(true)).1 == CommandView::StartSftp
            && next(s, EventView::Spawned(false)).1 == (CommandView::Exit {
            code: Some(EXIT_SPAWN),
        }),
        s.stage == Stage::Listing ==> next(s, EventView::Listed(true)).1 == (CommandView::Exit {
            code: None,
        }) && next(s, EventView::Listed(false)).1 == (CommandView::Exit { code: Some(EXIT_LIST) }),
{
}

/// The exit codes of a session: 20 spawn, 21 metadata, 31 copy, 45 SFTP, 81 sort, 82
/// missing log, 91 list.
pub proof fn lemma_exit_code_values()
    ensures
        EXIT_SPAWN == 20,
        EXIT_METADATA == 21,
        EXIT_DOWNLOAD == 31,
        EXIT_SFTP == 45,
        EXIT_SORT == 81,
        EXIT_MISSING == 82,
        EXIT_LIST == 91,
{
}

} // verus!
