use configme::ensure::{
    ensure_dir, ensure_file, ensure_sqlite, outcome_record, sqlite_uri, Ensure, Kind, Phase,
    Reply, Request,
};
use configme::log::{log_error, log_info, LogLevel, LogRecord};

fn probe_path(request: Request) -> String {
    match request {
        Request::Probe { path } => path,
        other => panic!("expected a probe, got {:?}", other),
    }
}

fn create_dir_path(request: Request) -> String {
    match request {
        Request::CreateDirAll { path } => path,
        other => panic!("expected a directory creation, got {:?}", other),
    }
}

fn create_file_path(request: Request) -> String {
    match request {
        Request::CreateFile { path } => path,
        other => panic!("expected a file creation, got {:?}", other),
    }
}

fn connect_uri(request: Request) -> String {
    match request {
        Request::Connect { uri } => uri,
        other => panic!("expected a connection, got {:?}", other),
    }
}

fn line(record: Option<LogRecord>) -> (LogLevel, String) {
    let record = record.expect("a log record");
    (record.level, record.message)
}

#[test]
fn log_records_carry_level_and_message() {
    let info = log_info("Created directory: /tmp/x");
    assert_eq!(info.level, LogLevel::Info);
    assert_eq!(info.message, "Created directory: /tmp/x");
    let error = log_error("Failed to create file /tmp/y: denied");
    assert_eq!(error.level, LogLevel::Error);
    assert_eq!(error.message, "Failed to create file /tmp/y: denied");
}

#[test]
fn sqlite_uri_asks_for_read_write_create() {
    assert_eq!(
        sqlite_uri("/home/u/example/db/app.sqlite"),
        "sqlite:///home/u/example/db/app.sqlite?mode=rwc"
    );
    assert_eq!(sqlite_uri("app.sqlite"), "sqlite://app.sqlite?mode=rwc");
}

#[test]
fn outcome_messages_for_success() {
    let dir = outcome_record(Kind::Directory, "/d", &Reply::Succeeded);
    assert_eq!((dir.level, dir.message.as_str()), (LogLevel::Info, "Created directory: /d"));
    let file = outcome_record(Kind::File, "/d/f", &Reply::Succeeded);
    assert_eq!((file.level, file.message.as_str()), (LogLevel::Info, "Created file: /d/f"));
    let db = outcome_record(Kind::Database, "/d/db", &Reply::Succeeded);
    assert_eq!((db.level, db.message.as_str()), (LogLevel::Info, "Created SQLite database: /d/db"));
}

#[test]
fn outcome_messages_for_failure() {
    let reason = Reply::Failed(String::from("Permission denied (os error 13)"));
    let dir = outcome_record(Kind::Directory, "/d", &reason);
    assert_eq!(
        (dir.level, dir.message.as_str()),
        (LogLevel::Error, "Failed to create directory /d: Permission denied (os error 13)")
    );
    let file = outcome_record(Kind::File, "/d/f", &reason);
    assert_eq!(
        (file.level, file.message.as_str()),
        (LogLevel::Error, "Failed to create file /d/f: Permission denied (os error 13)")
    );
    let db = outcome_record(Kind::Database, "/d/db", &reason);
    assert_eq!(
        (db.level, db.message.as_str()),
        (LogLevel::Error, "Failed to create SQLite database /d/db: Permission denied (os error 13)")
    );
}

#[test]
fn new_run_starts_by_probing_its_target() {
    let run = Ensure::new(Kind::File, "/d/f");
    assert_eq!(run.kind(), Kind::File);
    assert_eq!(run.path(), "/d/f");
    assert_eq!(run.phase(), Phase::ProbeTarget);
    assert!(!run.is_done());
    assert_eq!(probe_path(run.request()), "/d/f");
}

#[test]
fn present_directory_is_left_alone() {
    let run = ensure_dir("/home/u/demo");
    assert_eq!(probe_path(run.request()), "/home/u/demo");
    let (run, log) = run.advance(&Reply::Present);
    assert!(log.is_none());
    assert!(run.is_done());
    assert!(matches!(run.request(), Request::Finished));
}

#[test]
fn absent_directory_is_created_and_logged() {
    let run = ensure_dir("/home/u/demo");
    let (run, log) = run.advance(&Reply::Absent);
    assert!(log.is_none());
    assert_eq!(run.phase(), Phase::CreateTarget);
    assert_eq!(create_dir_path(run.request()), "/home/u/demo");
    let (run, log) = run.advance(&Reply::Succeeded);
    assert_eq!(line(log), (LogLevel::Info, String::from("Created directory: /home/u/demo")));
    assert!(run.is_done());
}

#[test]
fn directory_failure_is_logged_and_swallowed() {
    let run = ensure_dir("/opt/demo");
    let (run, _) = run.advance(&Reply::Absent);
    let (run, log) = run.advance(&Reply::Failed(String::from("Permission denied")));
    assert_eq!(
        line(log),
        (LogLevel::Error, String::from("Failed to create directory /opt/demo: Permission denied"))
    );
    assert!(run.is_done());
    assert!(matches!(run.request(), Request::Finished));
}

#[test]
fn present_file_is_left_alone() {
    let run = ensure_file("/home/u/demo/x.txt");
    let (run, log) = run.advance(&Reply::Present);
    assert!(log.is_none());
    assert!(run.is_done());
}

#[test]
fn absent_file_with_present_parent_is_created() {
    let run = ensure_file("/home/u/demo/x.txt");
    let (run, log) = run.advance(&Reply::Absent);
    assert!(log.is_none());
    assert_eq!(run.phase(), Phase::ProbeParent);
    assert_eq!(probe_path(run.request()), "/home/u/demo");
    let (run, log) = run.advance(&Reply::Present);
    assert!(log.is_none());
    assert_eq!(create_file_path(run.request()), "/home/u/demo/x.txt");
    let (run, log) = run.advance(&Reply::Succeeded);
    assert_eq!(line(log), (LogLevel::Info, String::from("Created file: /home/u/demo/x.txt")));
    assert!(run.is_done());
}

#[test]
fn absent_file_with_absent_parent_creates_parent_first() {
    let run = ensure_file("/home/u/demo/sub/x.txt");
    let (run, _) = run.advance(&Reply::Absent);
    assert_eq!(probe_path(run.request()), "/home/u/demo/sub");
    let (run, log) = run.advance(&Reply::Absent);
    assert!(log.is_none());
    assert_eq!(run.phase(), Phase::CreateParent);
    assert_eq!(create_dir_path(run.request()), "/home/u/demo/sub");
    let (run, log) = run.advance(&Reply::Succeeded);
    assert_eq!(line(log), (LogLevel::Info, String::from("Created directory: /home/u/demo/sub")));
    assert_eq!(create_file_path(run.request()), "/home/u/demo/sub/x.txt");
    let (run, log) = run.advance(&Reply::Succeeded);
    assert_eq!(line(log), (LogLevel::Info, String::from("Created file: /home/u/demo/sub/x.txt")));
    assert!(run.is_done());
}

#[test]
fn file_is_tried_even_if_parent_could_not_be_created() {
    let run = ensure_file("/ro/sub/x.txt");
    let (run, _) = run.advance(&Reply::Absent);
    let (run, _) = run.advance(&Reply::Absent);
    let (run, log) = run.advance(&Reply::Failed(String::from("Read-only file system")));
    assert_eq!(
        line(log),
        (LogLevel::Error, String::from("Failed to create directory /ro/sub: Read-only file system"))
    );
    assert_eq!(create_file_path(run.request()), "/ro/sub/x.txt");
    let (run, log) = run.advance(&Reply::Failed(String::from("No such file or directory")));
    assert_eq!(
        line(log),
        (LogLevel::Error, String::from("Failed to create file /ro/sub/x.txt: No such file or directory"))
    );
    assert!(run.is_done());
}

#[test]
fn file_without_parent_is_created_at_once() {
    let run = ensure_file("/");
    let (run, log) = run.advance(&Reply::Absent);
    assert!(log.is_none());
    assert_eq!(run.phase(), Phase::CreateTarget);
    assert_eq!(create_file_path(run.request()), "/");
}

#[test]
fn relative_file_has_the_empty_path_as_parent() {
    let run = ensure_file("x.txt");
    let (run, _) = run.advance(&Reply::Absent);
    assert_eq!(probe_path(run.request()), "");
    let (run, _) = run.advance(&Reply::Absent);
    assert_eq!(create_dir_path(run.request()), "");
    let (run, log) = run.advance(&Reply::Succeeded);
    assert_eq!(line(log), (LogLevel::Info, String::from("Created directory: ")));
    assert_eq!(create_file_path(run.request()), "x.txt");
}

#[test]
fn absent_database_is_created_by_connecting() {
    let run = ensure_sqlite("/home/u/example/db/app.sqlite");
    assert_eq!(run.kind(), Kind::Database);
    let (run, _) = run.advance(&Reply::Absent);
    assert_eq!(probe_path(run.request()), "/home/u/example/db");
    let (run, _) = run.advance(&Reply::Present);
    assert_eq!(
        connect_uri(run.request()),
        "sqlite:///home/u/example/db/app.sqlite?mode=rwc"
    );
    let (run, log) = run.advance(&Reply::Succeeded);
    assert_eq!(
        line(log),
        (LogLevel::Info, String::from("Created SQLite database: /home/u/example/db/app.sqlite"))
    );
    assert!(run.is_done());
}

#[test]
fn database_failure_is_logged_and_swallowed() {
    let run = ensure_sqlite("/d/app.sqlite");
    let (run, _) = run.advance(&Reply::Absent);
    let (run, _) = run.advance(&Reply::Present);
    let (run, log) = run.advance(&Reply::Failed(String::from("unable to open database file")));
    assert_eq!(
        line(log),
        (
            LogLevel::Error,
            String::from("Failed to create SQLite database /d/app.sqlite: unable to open database file")
        )
    );
    assert!(run.is_done());
}

#[test]
fn present_database_is_left_alone() {
    let run = ensure_sqlite("/d/app.sqlite");
    let (run, log) = run.advance(&Reply::Present);
    assert!(log.is_none());
    assert!(run.is_done());
}

#[test]
fn reply_that_was_not_waited_for_is_ignored() {
    let run = ensure_dir("/d");
    let (run, log) = run.advance(&Reply::Succeeded);
    assert!(log.is_none());
    assert_eq!(run.phase(), Phase::ProbeTarget);
    let (run, log) = run.advance(&Reply::Failed(String::from("x")));
    assert!(log.is_none());
    assert_eq!(run.phase(), Phase::ProbeTarget);
    let (run, _) = run.advance(&Reply::Absent);
    assert_eq!(run.phase(), Phase::CreateTarget);
    let (run, log) = run.advance(&Reply::Present);
    assert!(log.is_none());
    assert_eq!(run.phase(), Phase::CreateTarget);
    let (run, log) = run.advance(&Reply::Absent);
    assert!(log.is_none());
    assert_eq!(run.phase(), Phase::CreateTarget);
    assert_eq!(create_dir_path(run.request()), "/d");
}

#[test]
fn finished_run_stays_finished() {
    let run = ensure_dir("/d");
    let (run, _) = run.advance(&Reply::Present);
    let (run, log) = run.advance(&Reply::Absent);
    assert!(log.is_none());
    assert!(run.is_done());
    let (run, log) = run.advance(&Reply::Succeeded);
    assert!(log.is_none());
    assert!(run.is_done());
    assert!(matches!(run.request(), Request::Finished));
}
