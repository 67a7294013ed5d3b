use juicer::execute::interactions::{
    get_local_path, last_log, LastLogCommand, LastLogEvent, LastLogState, LocalPathCommand,
    LocalPathEvent, LocalPathState, PathKind,
};
use juicer::execute::scan::{scan, ScanCommand, ScanEvent, ScanStage, SEARCH_TIMEOUT_MS};
use juicer::juicer::{run, RunCommand, RunEvent, RunStage};

/// The path that std gives for `base` joined with `name`, with `extension`.
fn std_path(base: &str, name: &str, extension: &str) -> String {
    std::path::Path::new(base).join(name).with_extension(extension).to_string_lossy().into_owned()
}

fn step_path(s: LocalPathState, e: LocalPathEvent) -> (LocalPathState, LocalPathCommand) {
    get_local_path(s, e)
}

#[test]
fn local_path_directory() {
    let (s, c) = step_path(LocalPathState::new(), LocalPathEvent::Start);
    assert!(matches!(c, LocalPathCommand::ReadLine));
    let (s, c) = step_path(s, LocalPathEvent::Read(Some(String::from("/tmp\n"))));
    assert!(matches!(&c, LocalPathCommand::Inspect { path } if path == "/tmp"));
    let (_, c) = step_path(s, LocalPathEvent::Inspected(PathKind::Directory));
    match c {
        LocalPathCommand::Finish { result: Ok((path, to_file)) } => {
            assert_eq!(path, "/tmp");
            assert!(!to_file);
        },
        _ => panic!("expected a directory"),
    }
}

#[test]
fn local_path_file_needs_override() {
    let (s, _) = step_path(LocalPathState::new(), LocalPathEvent::Start);
    let (s, _) = step_path(s, LocalPathEvent::Read(Some(String::from("a.log\n"))));
    let (s, c) = step_path(s, LocalPathEvent::Inspected(PathKind::File));
    assert!(matches!(&c, LocalPathCommand::AskOverride { path } if path == "a.log"));
    let (s, c) = step_path(s, LocalPathEvent::Override(Some(false)));
    assert!(matches!(c, LocalPathCommand::ReadLine));
    let (s, _) = step_path(s, LocalPathEvent::Read(Some(String::from("b.log\n"))));
    let (s, _) = step_path(s, LocalPathEvent::Inspected(PathKind::File));
    let (_, c) = step_path(s, LocalPathEvent::Override(Some(true)));
    match c {
        LocalPathCommand::Finish { result: Ok((path, to_file)) } => {
            assert_eq!(path, "b.log");
            assert!(to_file);
        },
        _ => panic!("expected a file"),
    }
}

#[test]
fn local_path_missing_asks_again() {
    let (s, _) = step_path(LocalPathState::new(), LocalPathEvent::Start);
    let (s, _) = step_path(s, LocalPathEvent::Read(Some(String::from("nowhere\n"))));
    let (_, c) = step_path(s, LocalPathEvent::Inspected(PathKind::Missing));
    assert!(matches!(c, LocalPathCommand::ReadLine));
}

#[test]
fn local_path_failures_are_32() {
    let (s, _) = step_path(LocalPathState::new(), LocalPathEvent::Start);
    let (_, c) = step_path(s, LocalPathEvent::Read(None));
    assert!(matches!(c, LocalPathCommand::Finish { result: Err(Some(32)) }));
    let (s, _) = step_path(LocalPathState::new(), LocalPathEvent::Start);
    let (s, _) = step_path(s, LocalPathEvent::Read(Some(String::from("f\n"))));
    let (s, _) = step_path(s, LocalPathEvent::Inspected(PathKind::File));
    let (_, c) = step_path(s, LocalPathEvent::Override(None));
    assert!(matches!(c, LocalPathCommand::Finish { result: Err(Some(32)) }));
}

#[test]
fn last_log_into_directory() {
    let s = LastLogState::new(String::from("/U/logs"));
    let (s, c) = last_log(s, LastLogEvent::Start);
    assert!(matches!(c, LastLogCommand::AskLocalPath));
    let (s, c) = last_log(s, LastLogEvent::LocalPath(Ok((String::from("/tmp"), false))));
    assert!(matches!(&c, LastLogCommand::FindLatest { dir } if dir == "/U/logs"));
    let (s, c) = last_log(s, LastLogEvent::Latest(Some(String::from("/U/logs/m1.wpilog"))));
    match &c {
        LastLogCommand::Fetch { source, destination, overwrite } => {
            assert_eq!(source, "/U/logs/m1.wpilog");
            assert_eq!(*destination, std_path("/tmp", "/U/logs/m1.wpilog", "wpilog"));
            assert!(*overwrite);
        },
        _ => panic!("expected a fetch"),
    }
    let (_, c) = last_log(s, LastLogEvent::Fetched(false));
    assert!(matches!(c, LastLogCommand::Finish { code: None }));
}

#[test]
fn last_log_relative_source_into_directory() {
    let s = LastLogState::new(String::from("/U/logs"));
    let (s, _) = last_log(s, LastLogEvent::Start);
    let (s, _) = last_log(s, LastLogEvent::LocalPath(Ok((String::from("/tmp"), false))));
    let (_, c) = last_log(s, LastLogEvent::Latest(Some(String::from("m1.log"))));
    let expected = std_path("/tmp", "m1.log", "wpilog");
    assert!(matches!(&c, LastLogCommand::Fetch { destination, .. } if *destination == expected));
}

#[test]
fn last_log_into_file() {
    let s = LastLogState::new(String::from("/U/logs"));
    let (s, _) = last_log(s, LastLogEvent::Start);
    let (s, _) = last_log(s, LastLogEvent::LocalPath(Ok((String::from("mine.log"), true))));
    let (_, c) = last_log(s, LastLogEvent::Latest(Some(String::from("/U/logs/m1.wpilog"))));
    assert!(matches!(&c, LastLogCommand::Fetch { destination, .. } if destination == "mine.log"));
}

#[test]
fn last_log_failures() {
    let s = LastLogState::new(String::from("/U/logs"));
    let (s, _) = last_log(s, LastLogEvent::Start);
    let (_, c) = last_log(s, LastLogEvent::LocalPath(Err(Some(32))));
    assert!(matches!(c, LastLogCommand::Finish { code: Some(32) }));
    let s = LastLogState::new(String::from("/U/logs"));
    let (s, _) = last_log(s, LastLogEvent::Start);
    let (_, c) = last_log(s, LastLogEvent::LocalPath(Err(None)));
    assert!(matches!(c, LastLogCommand::Finish { code: None }));
    let s = LastLogState::new(String::from("/U/logs"));
    let (s, _) = last_log(s, LastLogEvent::Start);
    let (s, _) = last_log(s, LastLogEvent::LocalPath(Ok((String::from("/tmp"), false))));
    let (_, c) = last_log(s, LastLogEvent::Latest(None));
    assert!(matches!(c, LastLogCommand::Finish { code: Some(19) }));
}

#[test]
fn scan_cycle() {
    let search = ScanCommand::Search { timeout_ms: SEARCH_TIMEOUT_MS };
    assert_eq!(SEARCH_TIMEOUT_MS, 200);
    let (s, c) = scan(ScanStage::Begin, ScanEvent::Start);
    assert_eq!(c, search);
    let (s, c) = scan(s, ScanEvent::Found(false));
    assert_eq!(c, search);
    let (s, c) = scan(s, ScanEvent::Found(true));
    assert_eq!(c, ScanCommand::Spawn);
    let (s2, c) = scan(s, ScanEvent::Spawned(false));
    assert_eq!((s2, c), (ScanStage::Searching, search));
    let (s, c) = scan(s, ScanEvent::Spawned(true));
    assert_eq!(c, ScanCommand::ShowMenu);
    let (s, c) = scan(s, ScanEvent::MenuShown);
    assert_eq!((s, c), (ScanStage::Searching, search));
}

fn run_all(passed: bool, dirs: bool, profile: Option<u8>, session: Option<u8>) -> u8 {
    let mut stage = RunStage::Begin;
    let mut event = RunEvent::Start;
    for _ in 0..6 {
        let (next, command) = run(stage, passed, event);
        stage = next;
        event = match command {
            RunCommand::EnsureDirs => RunEvent::DirsReady(dirs),
            RunCommand::StoreProfile => RunEvent::Stored(profile),
            RunCommand::LoadProfile => RunEvent::Loaded(profile),
            RunCommand::Execute => RunEvent::Executed(session),
            RunCommand::Exit(code) => return code,
        };
    }
    panic!("the run did not end");
}

#[test]
fn run_exit_codes() {
    assert_eq!(run_all(true, true, None, None), 0);
    assert_eq!(run_all(false, true, None, None), 0);
    assert_eq!(run_all(true, false, None, None), 82);
    assert_eq!(run_all(false, true, Some(7), None), 7);
    assert_eq!(run_all(true, true, Some(9), Some(31)), 9);
    assert_eq!(run_all(true, true, None, Some(31)), 31);
}
