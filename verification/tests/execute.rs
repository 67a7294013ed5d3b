use juicer::execute::download::select;
use juicer::execute::{
    execute, Action, Command, DownloadInputs, DownloadMode, Event, RemoteFile, Session,
    SizeReport, SortOrder, Stage,
};
use juicer::profile::profiles::citrus_circuits;

/// The path that std gives for `base` joined with `name`, with `extension`.
fn std_path(base: &str, name: &str, extension: &str) -> String {
    std::path::Path::new(base).join(name).with_extension(extension).to_string_lossy().into_owned()
}

/// Answers of the outside work in one simulated session.
#[derive(Clone)]
struct Replies {
    spawned: bool,
    sftp: bool,
    listed: bool,
    sorted: Option<(String, Option<u64>)>,
    exists: bool,
    stat: Option<(String, Option<u64>)>,
    fetched: bool,
}

fn all_ok() -> Replies {
    Replies {
        spawned: true,
        sftp: true,
        listed: true,
        sorted: Some((String::from("/U/logs/a.wpilog"), Some(2048))),
        exists: true,
        stat: Some((String::from("/U/logs/b..wpilog"), None)),
        fetched: true,
    }
}

fn file_of(f: &Option<(String, Option<u64>)>) -> Option<RemoteFile> {
    f.as_ref().map(|(path, size)| RemoteFile { path: path.clone(), size: *size })
}

/// Runs a session to its end; returns its exit code and the commands it asked for.
fn drive(action: Action, detailed: bool, r: &Replies) -> (Option<u8>, Vec<Command>) {
    let mut session = Session::new(action, &citrus_circuits(), detailed);
    let mut event = Event::Start;
    let mut seen = Vec::new();
    for _ in 0..10 {
        assert!(session.can_take(&event));
        let (next, command) = execute(session, event);
        session = next;
        event = match &command {
            Command::SpawnClient => Event::Spawned(r.spawned),
            Command::StartSftp => Event::SftpStarted(r.sftp),
            Command::ListLogs { .. } => Event::Listed(r.listed),
            Command::SortLogs { .. } => Event::Sorted(file_of(&r.sorted)),
            Command::CheckPath { .. } => Event::PathChecked(r.exists),
            Command::ReadMetadata { .. } => Event::Metadata(file_of(&r.stat)),
            Command::Fetch { .. } => Event::Fetched(r.fetched),
            Command::Exit { code } => {
                let code = *code;
                seen.push(command);
                return (code, seen);
            },
        };
        seen.push(command);
    }
    panic!("the session did not end");
}

fn download(mode: DownloadMode, name: Option<&str>) -> Action {
    Action::Download(DownloadInputs {
        mode,
        log_name: name.map(String::from),
        destination: String::from("out.wpilog"),
    })
}

#[test]
fn list_succeeds() {
    let (code, commands) = drive(Action::List, true, &all_ok());
    assert_eq!(code, None);
    assert!(matches!(&commands[2], Command::ListLogs { dir } if dir == "/U/logs"));
}

#[test]
fn spawn_failure_is_20() {
    let r = Replies { spawned: false, ..all_ok() };
    assert_eq!(drive(Action::List, false, &r).0, Some(20));
}

#[test]
fn sftp_failure_is_45() {
    let r = Replies { sftp: false, ..all_ok() };
    assert_eq!(drive(download(DownloadMode::First, None), false, &r).0, Some(45));
}

#[test]
fn list_failure_is_91() {
    let r = Replies { listed: false, ..all_ok() };
    assert_eq!(drive(Action::List, false, &r).0, Some(91));
}

#[test]
fn sort_failure_is_81() {
    let r = Replies { sorted: None, ..all_ok() };
    assert_eq!(drive(download(DownloadMode::LastModified, None), true, &r).0, Some(81));
    assert_eq!(drive(download(DownloadMode::First, None), false, &r).0, Some(81));
}

#[test]
fn missing_log_is_82() {
    let r = Replies { exists: false, ..all_ok() };
    assert_eq!(drive(download(DownloadMode::Select, Some("b")), false, &r).0, Some(82));
}

#[test]
fn unreadable_metadata_is_21_when_detailed() {
    let r = Replies { stat: None, ..all_ok() };
    assert_eq!(drive(download(DownloadMode::Select, Some("b")), true, &r).0, Some(21));
    assert_eq!(drive(download(DownloadMode::Select, Some("b")), false, &r).0, None);
}

#[test]
fn copy_failure_is_31() {
    let r = Replies { fetched: false, ..all_ok() };
    assert_eq!(drive(download(DownloadMode::First, None), true, &r).0, Some(31));
}

#[test]
fn first_download_fetches_sorted_file() {
    let (code, commands) = drive(download(DownloadMode::First, None), true, &all_ok());
    assert_eq!(code, None);
    assert!(matches!(&commands[2],
        Command::SortLogs { dir, order: SortOrder::FirstCreated } if dir == "/U/logs"));
    match &commands[3] {
        Command::Fetch { source, destination, overwrite, report } => {
            assert_eq!(source, "/U/logs/a.wpilog");
            assert_eq!(destination, "out.wpilog");
            assert!(!overwrite);
            assert!(matches!(report, SizeReport::Silent));
        },
        _ => panic!("expected a fetch"),
    }
}

#[test]
fn last_modified_download_reports_size_when_detailed() {
    let (_, commands) = drive(download(DownloadMode::LastModified, None), true, &all_ok());
    match &commands[3] {
        Command::Fetch { report: SizeReport::Known(text), .. } => assert_eq!(text, "2.00 kb"),
        _ => panic!("expected a fetch with a size"),
    }
    let (_, commands) = drive(download(DownloadMode::LastModified, None), false, &all_ok());
    assert!(matches!(&commands[3], Command::Fetch { report: SizeReport::Silent, .. }));
}

#[test]
fn select_download_checks_the_named_log() {
    let (code, commands) = drive(download(DownloadMode::Select, Some("b")), false, &all_ok());
    assert_eq!(code, None);
    let expected = std_path("/U/logs", "b", ".wpilog");
    assert!(matches!(&commands[2], Command::CheckPath { path } if *path == expected));
    assert!(matches!(&commands[3], Command::Fetch { source, .. } if *source == expected));
}

#[test]
fn detailed_select_reads_metadata_then_reports() {
    let (code, commands) = drive(download(DownloadMode::Select, Some("b")), true, &all_ok());
    assert_eq!(code, None);
    let expected = std_path("/U/logs", "b", ".wpilog");
    assert!(matches!(&commands[3], Command::ReadMetadata { path } if *path == expected));
    assert!(matches!(&commands[4], Command::Fetch { report: SizeReport::Unknown, .. }));
}

#[test]
fn select_path_joins_and_sets_extension() {
    assert_eq!(select("/U/logs", "match1"), std_path("/U/logs", "match1", ".wpilog"));
    assert_eq!(select("/U/logs/", "x.txt"), std_path("/U/logs/", "x.txt", ".wpilog"));
    assert_eq!(select("/U/logs", "/tmp/y"), std_path("/U/logs", "/tmp/y", ".wpilog"));
    assert!(select("/U/logs", "match1").ends_with("match1..wpilog"));
}

#[test]
fn size_reports() {
    assert!(matches!(juicer::execute::download::file(None), SizeReport::Unknown));
    match juicer::execute::download::file(Some(1536)) {
        SizeReport::Known(t) => assert_eq!(t, "1.50 kb"),
        _ => panic!("expected a size"),
    }
}

#[test]
fn select_without_name_is_refused_before_starting() {
    let mut session = Session::new(download(DownloadMode::Select, None), &citrus_circuits(), false);
    let (next, _) = execute(session, Event::Start);
    session = next;
    let (next, _) = execute(session, Event::Spawned(true));
    session = next;
    assert_eq!(session.stage, Stage::StartingSftp);
    assert!(!session.can_take(&Event::SftpStarted(true)));
    assert!(!session.can_take(&Event::Listed(true)));
}

#[test]
fn finished_session_stays_finished() {
    let r = Replies { spawned: false, ..all_ok() };
    let mut session = Session::new(Action::List, &citrus_circuits(), false);
    let (next, _) = execute(session, Event::Start);
    session = next;
    let (next, c) = execute(session, Event::Spawned(r.spawned));
    assert!(matches!(c, Command::Exit { code: Some(20) }));
    let (_, c) = execute(next, Event::Fetched(true));
    assert!(matches!(c, Command::Exit { code: Some(20) }));
}

#[test]
fn unnamed_select_with_failed_sftp_is_45() {
    let r = Replies { sftp: false, ..all_ok() };
    assert_eq!(drive(download(DownloadMode::Select, None), false, &r).0, Some(45));
    assert_eq!(drive(download(DownloadMode::Select, None), true, &r).0, Some(45));
}

#[test]
fn both_styles_agree_on_sorted_downloads() {
    for mode in [DownloadMode::First, DownloadMode::LastModified] {
        for r in [all_ok(), Replies { sorted: None, ..all_ok() }, Replies { fetched: false, ..all_ok() }] {
            assert_eq!(drive(download(mode, None), true, &r).0, drive(download(mode, None), false, &r).0);
        }
    }
}
