//! The download part of a session: pick the log (first created, last modified, or named),
//! check it, and copy it to the local destination.
use vstd::prelude::*;

use crate::execute::{
    ask, code_if, finish, names_its_log, Action, ActionView, Command, CommandView,
    DownloadMode, Event, EventView, FileView, ReportView, Session, SessionView,
    SizeReport, SortOrder, Stage, EXIT_DOWNLOAD, EXIT_METADATA, EXIT_MISSING, EXIT_SORT,
};
use crate::text::{join_path, joined_path, path_with_extension, with_extension};
use crate::util::bytes::format_spec;

verus! {

/// The extension given to a selected log's path (the dot included, as `with_extension`
/// receives it).
pub open spec fn select_extension() -> Seq<char> {
    seq!['.', 'w', 'p', 'i', 'l', 'o', 'g']
}

/// The path of the log named `name` in the directory `logs`: `logs` joined with `name`,
/// with the extension `.wpilog`.
pub open spec fn select_path(logs: Seq<char>, name: Seq<char>) -> Seq<char> {
    path_with_extension(joined_path(logs, name), select_extension())
}

/// The local destination of a download (empty for a listing).
pub open spec fn destination_of(action: ActionView) -> Seq<char> {
    match action {
        ActionView::Download { destination, .. } => destination,
        ActionView::List => Seq::empty(),
    }
}

/// What is reported of a size: the formatted size, or that it is unknown.
pub open spec fn size_report(size: Option<u64>) -> ReportView {
    match size {
        Some(n) => ReportView::Known(format_spec(n)),
        None => ReportView::Unknown,
    }
}

/// The session moves on to copying `file` to the destination, having reported `report`.
pub open spec fn fetch_next(s: SessionView, file: FileView, report: ReportView) -> (
    SessionView,
    CommandView,
) {
    ask(
        s,
        Stage::Fetching,
        CommandView::Fetch {
            source: file.path,
            destination: destination_of(s.action),
            overwrite: false,
            report,
        },
    )
}

/// How a download starts: sort the log directory for the first created or the last modified
/// log, or check the path of the named log.
pub open spec fn start_next(s: SessionView) -> (SessionView, CommandView) {
    match s.action {
        ActionView::Download { mode, log_name, .. } => match mode {
            DownloadMode::First => ask(
                s,
                Stage::Sorting,
                CommandView::SortLogs { dir: s.logs, order: SortOrder::FirstCreated },
            ),
            DownloadMode::LastModified => ask(
                s,
                Stage::Sorting,
                CommandView::SortLogs { dir: s.logs, order: SortOrder::LastModified },
            ),
            DownloadMode::Select => {
                let path = select_path(s.logs, log_name->0);
                (
                    SessionView { stage: Stage::Checking, target: path, ..s },
                    CommandView::CheckPath { path },
                )
            },
        },
        ActionView::List => finish(s, None),
    }
}

/// Whether the session's download takes the last modified log.
pub open spec fn takes_last_modified(s: SessionView) -> bool {
    s.action matches ActionView::Download { mode, .. } && mode == DownloadMode::LastModified
}

/// What a downloading session does on `event`. Sorting fails with 81; a named log that does
/// not exist fails with 82; its metadata, read in the detailed style, fails with 21; the
/// copy fails with 31. The detailed style reports the size of the last modified or the
/// named log before copying it.
pub open spec fn download_next(s: SessionView, event: EventView) -> (SessionView, CommandView) {
    match s.stage {
        Stage::Sorting => match event {
            EventView::Sorted(Some(f)) => fetch_next(
                s,
                f,
                if s.detailed && takes_last_modified(s) {
                    size_report(f.size)
                } else {
                    ReportView::Silent
                },
            ),
            _ => finish(s, Some(EXIT_SORT)),
        },
        Stage::Checking => if event == EventView::PathChecked(true) {
            if s.detailed {
                ask(s, Stage::Stating, CommandView::ReadMetadata { path: s.target })
            } else {
                fetch_next(s, FileView { path: s.target, size: None }, ReportView::Silent)
            }
        } else {
            finish(s, Some(EXIT_MISSING))
        },
        Stage::Stating => match event {
            EventView::Metadata(Some(f)) => fetch_next(s, f, size_report(f.size)),
            _ => finish(s, Some(EXIT_METADATA)),
        },
        _ => finish(s, code_if(event == EventView::Fetched(false), EXIT_DOWNLOAD)),
    }
}

/// The local destination of the session's download.
fn destination(action: &Action) -> (d: String)
    ensures
        d@ == destination_of(action@),
{
    match action {
        Action::Download(inputs) => inputs.destination.clone(),
        Action::List => String::new(),
    }
}

/// Reports what is known of a file's size before it is copied.
pub fn file(size: Option<u64>) -> (r: SizeReport)
    ensures
        r@ == size_report(size),
{
    match size {
        Some(n) => SizeReport::Known(crate::util::bytes::format(n)),
        None => SizeReport::Unknown,
    }
}

/// The session moves on to copying `source` to its destination.
fn fetch(s: Session, source: String, report: SizeReport) -> (r: (Session, Command))
    ensures
        (r.0@, r.1@) == fetch_next(s@, FileView { path: source@, size: None }, report@),
{
    let destination = destination(&s.action);
    let Session { action, logs, detailed, stage: _, target } = s;
    (
        Session { action, logs, detailed, stage: Stage::Fetching, target },
        Command::Fetch { source, destination, overwrite: false, report },
    )
}

/// The path of the log named `name` in the directory `logs`.
pub fn select(logs: &str, name: &str) -> (path: String)
    ensures
        path@ == select_path(logs@, name@),
{
    let joined = join_path(logs, name);
    let extension = ".wpilog";
    proof {
        reveal_strlit(".wpilog");
    }
    assert(extension@ == select_extension());
    with_extension(joined.as_str(), extension)
}

/// Starts the download of a connected session.
pub fn start(s: Session) -> (r: (Session, Command))
    requires
        s.stage == Stage::StartingSftp,
        s@.action is Download,
        names_its_log(s@.action),
    ensures
        (r.0@, r.1@) == start_next(s@),
{
    let mode = match &s.action {
        Action::Download(inputs) => inputs.mode,
        Action::List => DownloadMode::First,
    };
    match mode {
        DownloadMode::First => {
            let dir = s.logs.clone();
            let Session { action, logs, detailed, stage: _, target } = s;
            (
                Session { action, logs, detailed, stage: Stage::Sorting, target },
                Command::SortLogs { dir, order: SortOrder::FirstCreated },
            )
        },
        DownloadMode::LastModified => {
            let dir = s.logs.clone();
            let Session { action, logs, detailed, stage: _, target } = s;
            (
                Session { action, logs, detailed, stage: Stage::Sorting, target },
                Command::SortLogs { dir, order: SortOrder::LastModified },
            )
        },
        DownloadMode::Select => {
            let path = match &s.action {
                Action::Download(inputs) => match &inputs.log_name {
                    Some(name) => select(s.logs.as_str(), name.as_str()),
                    None => String::new(),
                },
                Action::List => String::new(),
            };
            let checked = path.clone();
            let Session { action, logs, detailed, stage: _, target: _ } = s;
            (
                Session { action, logs, detailed, stage: Stage::Checking, target: path },
                Command::CheckPath { path: checked },
            )
        },
    }
}

/// One step of a downloading session (sorting, checking, reading metadata or copying):
/// the session's next state and the work it asks for now.
pub fn download(s: Session, event: Event) -> (r: (Session, Command))
    requires
        s.stage == Stage::Sorting || s.stage == Stage::Checking || s.stage == Stage::Stating
            || s.stage == Stage::Fetching,
    ensures
        (r.0@, r.1@) == download_next(s@, event@),
{
    match s.stage {
        Stage::Sorting => match event {
            Event::Sorted(Some(f)) => {
                let last_modified = match &s.action {
                    Action::Download(inputs) => matches!(inputs.mode, DownloadMode::LastModified),
                    Action::List => false,
                };
                let report = if s.detailed && last_modified {
                    file(f.size)
                } else {
                    SizeReport::Silent
                };
                fetch(s, f.path, report)
            },
            _ => {
                let code = Some(EXIT_SORT);
                let Session { action, logs, detailed, stage: _, target } = s;
                (Session { action, logs, detailed, stage: Stage::Done(code), target }, Command::Exit { code })
            },
        },
        Stage::Checking => {
            if matches!(event, Event::PathChecked(true)) {
                if s.detailed {
                    let path = s.target.clone();
                    let Session { action, logs, detailed, stage: _, target } = s;
                    (
                        Session { action, logs, detailed, stage: Stage::Stating, target },
                        Command::ReadMetadata { path },
                    )
                } else {
                    let source = s.target.clone();
                    fetch(s, source, SizeReport::Silent)
                }
            } else {
                let code = Some(EXIT_MISSING);
                let Session { action, logs, detailed, stage: _, target } = s;
                (Session { action, logs, detailed, stage: Stage::Done(code), target }, Command::Exit { code })
            }
        },
        Stage::Stating => match event {
            Event::Metadata(Some(f)) => {
                let report = file(f.size);
                fetch(s, f.path, report)
            },
            _ => {
                let code = Some(EXIT_METADATA);
                let Session { action, logs, detailed, stage: _, target } = s;
                (Session { action, logs, detailed, stage: Stage::Done(code), target }, Command::Exit { code })
            },
        },
        _ => {
            let code = if matches!(event, Event::Fetched(false)) {
                Some(EXIT_DOWNLOAD)
            } else {
                None
            };
            let Session { action, logs, detailed, stage: _, target } = s;
            (Session { action, logs, detailed, stage: Stage::Done(code), target }, Command::Exit { code })
        },
    }
}

/// A download of the last modified log asks to sort the log directory from the last
/// modified; one of the first created log, from the first created; one of a named log checks
/// the named log's path in the log directory and remembers it.
pub proof fn lemma_start_picks_the_asked_log(s: SessionView)
    requires
        s.action is Download,
    ensures
        s.action->mode == DownloadMode::LastModified ==> start_next(s).1 == (CommandView::SortLogs {
            dir: s.logs,
            order: SortOrder::LastModified,
        }) && start_next(s).0.stage == Stage::Sorting,
        s.action->mode == DownloadMode::First ==> start_next(s).1 == (CommandView::SortLogs {
            dir: s.logs,
            order: SortOrder::FirstCreated,
        }) && start_next(s).0.stage == Stage::Sorting,
        s.action->mode == DownloadMode::Select && s.action->log_name is Some ==> start_next(s).1 == (
        CommandView::CheckPath {
            path: path_with_extension(
                joined_path(s.logs, s.action->log_name->0),
                seq!['.', 'w', 'p', 'i', 'l', 'o', 'g'],
            ),
        }) && start_next(s).0.target == path_with_extension(
            joined_path(s.logs, s.action->log_name->0),
            seq!['.', 'w', 'p', 'i', 'l', 'o', 'g'],
        ) && start_next(s).0.stage == Stage::Checking,
        start_next(s).0.action == s.action && start_next(s).0.logs == s.logs
            && start_next(s).0.detailed == s.detailed,
{
}

/// Each step of a download: the picked file, or the checked named log, is copied to the
/// action's destination without overwriting it; the detailed style reads a named log's
/// metadata first, and reports the size (formatted, or that it is unknown) of the last
/// modified or the named log; sorting fails with 81, a missing log with 82, unreadable
/// metadata with 21, the copy with 31; a copy that succeeds ends the session with success.
pub proof fn lemma_download_steps(s: SessionView, f: FileView)
    requires
        s.action is Download,
    ensures
        download_next(SessionView { stage: Stage::Sorting, ..s }, EventView::Sorted(Some(f))).1 == (
        CommandView::Fetch {
            source: f.path,
            destination: s.action->destination,
            overwrite: false,
            report: if s.detailed && s.action->mode == DownloadMode::LastModified {
                match f.size {
                    Some(n) => ReportView::Known(format_spec(n)),
                    None => ReportView::Unknown,
                }
            } else {
                ReportView::Silent
            },
        }),
        download_next(SessionView { stage: Stage::Sorting, ..s }, EventView::Sorted(None)).1 == (
        CommandView::Exit { code: Some(81u8) }),
        s.detailed ==> download_next(
            SessionView { stage: Stage::Checking, ..s },
            EventView::PathChecked(true),
        ).1 == (CommandView::ReadMetadata { path: s.target }),
        !s.detailed ==> download_next(
            SessionView { stage: Stage::Checking, ..s },
            EventView::PathChecked(true),
        ).1 == (CommandView::Fetch {
            source: s.target,
            destination: s.action->destination,
            overwrite: false,
            report: ReportView::Silent,
        }),
        download_next(SessionView { stage: Stage::Checking, ..s }, EventView::PathChecked(false)).1
            == (CommandView::Exit { code: Some(82u8) }),
        download_next(SessionView { stage: Stage::Stating, ..s }, EventView::Metadata(Some(f))).1
            == (CommandView::Fetch {
            source: f.path,
            destination: s.action->destination,
            overwrite: false,
            report: match f.size {
                Some(n) => ReportView::Known(format_spec(n)),
                None => ReportView::Unknown,
            },
        }),
        download_next(SessionView { stage: Stage::Stating, ..s }, EventView::Metadata(None)).1 == (
        CommandView::Exit { code: Some(21u8) }),
        download_next(SessionView { stage: Stage::Fetching, ..s }, EventView::Fetched(true)).1 == (
        CommandView::Exit { code: None }),
        download_next(SessionView { stage: Stage::Fetching, ..s }, EventView::Fetched(false)).1 == (
        CommandView::Exit { code: Some(31u8) }),
{
}

} // verus!
