use path_eraser::{
    describe, failure_kind, greet, outcome, removal_for, settle, DeletionAttempt,
    DeletionRequest, FailureKind, FsErrorKind, FsFailure, Phase, Removal, WorkerReport,
};

fn failed(kind: FsErrorKind, message: &str) -> WorkerReport {
    WorkerReport::Failed(FsFailure { kind, message: message.to_string() })
}

fn request(path: &str, is_directory: bool) -> DeletionRequest {
    DeletionRequest { path: path.to_string(), is_directory }
}

#[test]
fn greet_formats_name() {
    assert_eq!(greet("Ada"), "Hello, Ada! You've been greeted from Rust!");
    assert_eq!(greet(""), "Hello, ! You've been greeted from Rust!");
}

#[test]
fn hint_selects_exactly_one_primitive() {
    assert_eq!(removal_for(true), Removal::DirectoryTree);
    assert_eq!(removal_for(false), Removal::File);
}

#[test]
fn filesystem_kinds_are_classified() {
    assert_eq!(failure_kind(FsErrorKind::NotFound), FailureKind::NotFound);
    assert_eq!(failure_kind(FsErrorKind::PermissionDenied), FailureKind::PermissionDenied);
    assert_eq!(failure_kind(FsErrorKind::IsADirectory), FailureKind::TypeMismatch);
    assert_eq!(failure_kind(FsErrorKind::NotADirectory), FailureKind::TypeMismatch);
    assert_eq!(failure_kind(FsErrorKind::Other), FailureKind::Other);
}

#[test]
fn descriptions_are_non_empty() {
    for k in [
        FailureKind::NotFound,
        FailureKind::PermissionDenied,
        FailureKind::TypeMismatch,
        FailureKind::ExecutionFault,
        FailureKind::Other,
    ] {
        assert!(!describe(k).is_empty());
    }
    assert_eq!(describe(FailureKind::NotFound), "path not found");
}

#[test]
fn removed_file_is_success() {
    let mut a = DeletionAttempt::new(request("/tmp/a.txt", false));
    assert_eq!(a.start(), Removal::File);
    assert_eq!(a.finish(WorkerReport::Removed), Ok(()));
    assert_eq!(a.phase(), Phase::Succeeded);
    assert_eq!(a.path(), "/tmp/a.txt");
}

#[test]
fn removed_directory_tree_is_success() {
    let mut a = DeletionAttempt::new(request("/tmp/d", true));
    assert_eq!(a.phase(), Phase::Pending);
    assert_eq!(a.start(), Removal::DirectoryTree);
    assert_eq!(a.phase(), Phase::Running);
    assert_eq!(a.finish(WorkerReport::Removed), Ok(()));
    assert_eq!(a.phase(), Phase::Succeeded);
}

#[test]
fn missing_path_fails_as_not_found_each_time() {
    let text = "No such file or directory (os error 2)";
    for _ in 0..2 {
        let mut a = DeletionAttempt::new(request("/tmp/does-not-exist", false));
        assert_eq!(a.start(), Removal::File);
        let r = a.finish(failed(FsErrorKind::NotFound, text));
        assert_eq!(r, Err(text.to_string()));
        assert_eq!(a.phase(), Phase::FailedFilesystem);
        let e = settle(failed(FsErrorKind::NotFound, text)).unwrap_err();
        assert_eq!(e.kind, FailureKind::NotFound);
        assert_eq!(e.message, text);
    }
}

#[test]
fn wrong_hint_on_directory_is_type_mismatch() {
    let mut a = DeletionAttempt::new(request("/tmp/d", false));
    assert_eq!(a.start(), Removal::File);
    let text = "Is a directory (os error 21)";
    assert_eq!(a.finish(failed(FsErrorKind::IsADirectory, text)), Err(text.to_string()));
    let e = settle(failed(FsErrorKind::NotADirectory, "Not a directory (os error 20)"))
        .unwrap_err();
    assert_eq!(e.kind, FailureKind::TypeMismatch);
}

#[test]
fn permission_denied_is_reported() {
    let e = settle(failed(FsErrorKind::PermissionDenied, "Permission denied (os error 13)"))
        .unwrap_err();
    assert_eq!(e.kind, FailureKind::PermissionDenied);
    assert_eq!(e.message, "Permission denied (os error 13)");
    let e = settle(failed(FsErrorKind::Other, "Read-only file system (os error 30)")).unwrap_err();
    assert_eq!(e.kind, FailureKind::Other);
}

#[test]
fn terminated_worker_is_execution_fault() {
    let mut a = DeletionAttempt::new(request("/tmp/x", true));
    a.start();
    assert_eq!(
        a.finish(WorkerReport::Terminated),
        Err("Thread panic during deletion".to_string())
    );
    assert_eq!(a.phase(), Phase::FailedExecution);
    let e = settle(WorkerReport::Terminated).unwrap_err();
    assert_eq!(e.kind, FailureKind::ExecutionFault);
}

#[test]
fn empty_filesystem_text_falls_back_to_description() {
    assert_eq!(
        outcome(failed(FsErrorKind::NotFound, "")),
        Err("path not found".to_string())
    );
    assert_eq!(
        outcome(failed(FsErrorKind::IsADirectory, "")),
        Err("entry type does not match the removal requested".to_string())
    );
}

#[test]
fn every_failure_message_is_non_empty() {
    let reports = vec![
        failed(FsErrorKind::NotFound, ""),
        failed(FsErrorKind::PermissionDenied, ""),
        failed(FsErrorKind::IsADirectory, ""),
        failed(FsErrorKind::NotADirectory, ""),
        failed(FsErrorKind::Other, ""),
        failed(FsErrorKind::Other, "x"),
        WorkerReport::Terminated,
    ];
    for r in reports {
        let m = outcome(r).unwrap_err();
        assert!(!m.is_empty());
    }
    assert_eq!(outcome(WorkerReport::Removed), Ok(()));
}
