use rustic::session::{Action, Event, Session};
use rustic::Error;

#[test]
fn fresh_entry_full_creation() {
    let template = b"[package]\n".to_vec();
    let source = b"// Cargo.toml\n// serde = \"1\"\nfn main() {}\n".to_vec();

    let mut s = Session::new();
    assert!(matches!(s.next(Event::Begin), Action::ResolveSource));
    assert!(matches!(
        s.next(Event::SourceChecked("/tmp/a/hello.rs".to_string(), true)),
        Action::CheckProjectDir
    ));
    assert!(matches!(s.next(Event::DirChecked(false)), Action::Scaffold));
    assert!(matches!(
        s.next(Event::ScaffoldDone(true, Vec::new())),
        Action::BackupManifest
    ));
    assert!(matches!(s.next(Event::IoOk), Action::RefreshEntryLink));
    assert!(matches!(s.next(Event::IoOk), Action::ReadManifestInputs));
    match s.next(Event::ManifestInputs(template, source)) {
        Action::WriteManifest(m) => assert_eq!(m, b"[package]\nserde = \"1\"\n".to_vec()),
        other => panic!("expected WriteManifest, got {:?}", kind(&other)),
    }
    assert!(matches!(s.next(Event::IoOk), Action::Build));
    assert!(matches!(
        s.next(Event::BuildDone(true, Vec::new())),
        Action::StatEntryPoint
    ));
    match s.next(Event::Stat(1000)) {
        Action::WriteTimestampFile(b) => assert_eq!(b, b"1000".to_vec()),
        other => panic!("expected WriteTimestampFile, got {:?}", kind(&other)),
    }
    // The staleness check runs after creation and finds the entry fresh.
    assert!(matches!(s.next(Event::IoOk), Action::StatEntryPoint));
    assert!(matches!(s.next(Event::Stat(1000)), Action::ReadTimestampFile));
    assert!(matches!(
        s.next(Event::StampFile(Some(b"1000".to_vec()))),
        Action::RunBinary
    ));
    assert!(matches!(s.next(Event::RunExited(Some(0))), Action::Finish(0)));
}

#[test]
fn existing_entry_only_refreshes_link() {
    // The entry was materialized before: no scaffold, backup, manifest,
    // build or timestamp work happens again; the link is refreshed and the
    // session goes straight to the staleness check.
    let mut s = Session::new();
    assert!(matches!(s.next(Event::Begin), Action::ResolveSource));
    assert!(matches!(
        s.next(Event::SourceChecked("/tmp/a/hello.rs".to_string(), true)),
        Action::CheckProjectDir
    ));
    assert!(matches!(s.next(Event::DirChecked(true)), Action::RefreshEntryLink));
    assert!(matches!(s.next(Event::IoOk), Action::StatEntryPoint));
    assert!(matches!(s.next(Event::Stat(1000)), Action::ReadTimestampFile));
    // Unchanged source: reuse the cached build.
    assert!(matches!(
        s.next(Event::StampFile(Some(b"1000".to_vec()))),
        Action::RunBinary
    ));
    assert!(matches!(s.next(Event::RunExited(Some(3))), Action::Finish(3)));
}

#[test]
fn touched_source_triggers_one_rebuild() {
    let template = b"[package]\n".to_vec();
    let source = b"// Cargo.toml\n// serde = \"1\"\nfn main() {}\n".to_vec();

    let mut s = Session::new();
    assert!(matches!(s.next(Event::Begin), Action::ResolveSource));
    assert!(matches!(
        s.next(Event::SourceChecked("/tmp/a/hello.rs".to_string(), true)),
        Action::CheckProjectDir
    ));
    assert!(matches!(s.next(Event::DirChecked(true)), Action::RefreshEntryLink));
    assert!(matches!(s.next(Event::IoOk), Action::StatEntryPoint));
    // The source was touched after the recorded timestamp.
    assert!(matches!(s.next(Event::Stat(2000)), Action::ReadTimestampFile));
    assert!(matches!(
        s.next(Event::StampFile(Some(b"1000".to_vec()))),
        Action::ReadManifestInputs
    ));
    match s.next(Event::ManifestInputs(template, source)) {
        Action::WriteManifest(m) => assert_eq!(m, b"[package]\nserde = \"1\"\n".to_vec()),
        other => panic!("expected WriteManifest, got {:?}", kind(&other)),
    }
    // On the staleness path the lock file is removed before the rebuild.
    assert!(matches!(s.next(Event::IoOk), Action::RemoveLockFile));
    assert!(matches!(s.next(Event::IoOk), Action::Build));
    assert!(matches!(
        s.next(Event::BuildDone(true, Vec::new())),
        Action::StatEntryPoint
    ));
    match s.next(Event::Stat(2000)) {
        Action::WriteTimestampFile(b) => assert_eq!(b, b"2000".to_vec()),
        other => panic!("expected WriteTimestampFile, got {:?}", kind(&other)),
    }
    assert!(matches!(s.next(Event::IoOk), Action::RunBinary));
    assert!(matches!(s.next(Event::RunExited(Some(0))), Action::Finish(0)));
}

#[test]
fn missing_stamp_rebuilds() {
    let mut s = Session::new();
    s.next(Event::Begin);
    s.next(Event::SourceChecked("/tmp/a/hello.rs".to_string(), true));
    s.next(Event::DirChecked(true));
    s.next(Event::IoOk);
    s.next(Event::Stat(5));
    assert!(matches!(s.next(Event::StampFile(None)), Action::ReadManifestInputs));
}

#[test]
fn malformed_stamp_deleted_then_surfaced() {
    let mut s = Session::new();
    s.next(Event::Begin);
    s.next(Event::SourceChecked("/tmp/a/hello.rs".to_string(), true));
    s.next(Event::DirChecked(true));
    s.next(Event::IoOk);
    s.next(Event::Stat(5));
    let bad = b"not a number".to_vec();
    assert!(matches!(
        s.next(Event::StampFile(Some(bad.clone()))),
        Action::DeleteTimestampFile
    ));
    match s.next(Event::IoOk) {
        Action::Fail(Error::MalformedTimestamp(content)) => assert_eq!(content, bad),
        other => panic!("expected MalformedTimestamp, got {:?}", kind(&other)),
    }
}

#[test]
fn scaffold_failure_surfaces_stderr() {
    let mut s = Session::new();
    s.next(Event::Begin);
    s.next(Event::SourceChecked("/tmp/a/hello.rs".to_string(), true));
    s.next(Event::DirChecked(false));
    let diag = b"error: destination exists".to_vec();
    match s.next(Event::ScaffoldDone(false, diag.clone())) {
        Action::Fail(Error::CargoNew(stderr)) => assert_eq!(stderr, diag),
        other => panic!("expected CargoNew, got {:?}", kind(&other)),
    }
}

#[test]
fn build_failure_surfaces_stderr_and_aborts() {
    let mut s = Session::new();
    s.next(Event::Begin);
    s.next(Event::SourceChecked("/tmp/a/hello.rs".to_string(), true));
    s.next(Event::DirChecked(false));
    s.next(Event::ScaffoldDone(true, Vec::new()));
    s.next(Event::IoOk);
    s.next(Event::IoOk);
    s.next(Event::ManifestInputs(b"t\n".to_vec(), b"fn main() {}\n".to_vec()));
    s.next(Event::IoOk);
    let diag = b"error[E0425]: cannot find value".to_vec();
    match s.next(Event::BuildDone(false, diag.clone())) {
        Action::Fail(Error::CargoBuild(stderr)) => assert_eq!(stderr, diag),
        other => panic!("expected CargoBuild, got {:?}", kind(&other)),
    }
    // The session is aborted; no further action (in particular no
    // RunBinary) can be obtained from it.
}

#[test]
fn exit_code_propagated() {
    for k in [0, 1, 2, 127] {
        let mut s = Session::new();
        s.next(Event::Begin);
        s.next(Event::SourceChecked("/tmp/a/hello.rs".to_string(), true));
        s.next(Event::DirChecked(true));
        s.next(Event::IoOk);
        s.next(Event::Stat(1));
        s.next(Event::StampFile(Some(b"1".to_vec())));
        match s.next(Event::RunExited(Some(k))) {
            Action::Finish(code) => assert_eq!(code, k),
            other => panic!("expected Finish, got {:?}", kind(&other)),
        }
    }
}

#[test]
fn signal_termination_is_fatal() {
    let mut s = Session::new();
    s.next(Event::Begin);
    s.next(Event::SourceChecked("/tmp/a/hello.rs".to_string(), true));
    s.next(Event::DirChecked(true));
    s.next(Event::IoOk);
    s.next(Event::Stat(1));
    s.next(Event::StampFile(Some(b"1".to_vec())));
    assert!(matches!(
        s.next(Event::RunExited(None)),
        Action::Fail(Error::SignalTerminated)
    ));
}

#[test]
fn missing_source_rejected() {
    let mut s = Session::new();
    assert!(matches!(s.next(Event::Begin), Action::ResolveSource));
    match s.next(Event::SourceChecked("/tmp/gone.rs".to_string(), false)) {
        Action::Fail(Error::NotAFile(path)) => assert_eq!(path, "/tmp/gone.rs"),
        other => panic!("expected NotAFile, got {:?}", kind(&other)),
    }
}

#[test]
fn io_failure_aborts() {
    let mut s = Session::new();
    s.next(Event::Begin);
    s.next(Event::SourceChecked("/tmp/a/hello.rs".to_string(), true));
    s.next(Event::DirChecked(true));
    let msg = b"permission denied".to_vec();
    match s.next(Event::IoErr(msg.clone())) {
        Action::Fail(Error::Io(m)) => assert_eq!(m, msg),
        other => panic!("expected Io, got {:?}", kind(&other)),
    }
}

fn kind(a: &Action) -> &'static str {
    match a {
        Action::ResolveSource => "ResolveSource",
        Action::CheckProjectDir => "CheckProjectDir",
        Action::Scaffold => "Scaffold",
        Action::BackupManifest => "BackupManifest",
        Action::RefreshEntryLink => "RefreshEntryLink",
        Action::ReadManifestInputs => "ReadManifestInputs",
        Action::WriteManifest(_) => "WriteManifest",
        Action::StatEntryPoint => "StatEntryPoint",
        Action::ReadTimestampFile => "ReadTimestampFile",
        Action::DeleteTimestampFile => "DeleteTimestampFile",
        Action::RemoveLockFile => "RemoveLockFile",
        Action::Build => "Build",
        Action::WriteTimestampFile(_) => "WriteTimestampFile",
        Action::RunBinary => "RunBinary",
        Action::Finish(_) => "Finish",
        Action::Fail(_) => "Fail",
    }
}
