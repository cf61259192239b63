use mkdirp::dir_path::DirPath;
use mkdirp::ensure::{DirEnsurer, FsEvent};

fn rel(segments: &[&str]) -> DirPath {
    DirPath { absolute: false, segments: segments.iter().map(|s| s.to_string()).collect() }
}

fn abs(segments: &[&str]) -> DirPath {
    DirPath { absolute: true, segments: segments.iter().map(|s| s.to_string()).collect() }
}

#[test]
fn empty_path_is_noop() {
    let m = DirEnsurer::start(&rel(&[]));
    assert!(matches!(m, DirEnsurer::Done { created: None }));
    assert_eq!(m.next_attempt(), None);
}

#[test]
fn existing_target_reports_nothing() {
    let m = DirEnsurer::start(&rel(&["a"]));
    assert_eq!(m.next_attempt(), Some(1));
    let m = m.step(FsEvent::AlreadyExists);
    assert!(matches!(m, DirEnsurer::Done { created: None }));
    assert_eq!(m.next_attempt(), None);
}

#[test]
fn second_run_after_success_reports_nothing() {
    // First run creates the two missing levels ...
    let p = rel(&["a", "b"]);
    let m = DirEnsurer::start(&p)
        .step(FsEvent::NotFound)
        .step(FsEvent::Created)
        .step(FsEvent::Created);
    assert!(matches!(m, DirEnsurer::Done { created: Some(1) }));
    // ... so a second run finds the full path in place at once.
    let again = DirEnsurer::start(&p).step(FsEvent::AlreadyExists);
    assert!(matches!(again, DirEnsurer::Done { created: None }));
}

#[test]
fn created_directly_when_parent_exists() {
    let m = DirEnsurer::start(&rel(&["a", "b"]));
    assert_eq!(m.next_attempt(), Some(2));
    let m = m.step(FsEvent::Created);
    assert!(matches!(m, DirEnsurer::Done { created: Some(2) }));
}

#[test]
fn deep_creation_reports_topmost() {
    // Only the outermost directory exists beforehand; the run must walk
    // down to it, create the three missing levels on the way back, and
    // report the shallowest one it created.
    let p = rel(&["mkdirp-test", "nested-1", "nested-2", "nested-3"]);
    let m = DirEnsurer::start(&p);
    assert_eq!(m.next_attempt(), Some(4));
    let m = m.step(FsEvent::NotFound);
    assert_eq!(m.next_attempt(), Some(3));
    let m = m.step(FsEvent::NotFound);
    assert_eq!(m.next_attempt(), Some(2));
    let m = m.step(FsEvent::Created);
    assert_eq!(m.next_attempt(), Some(3));
    let m = m.step(FsEvent::Created);
    assert_eq!(m.next_attempt(), Some(4));
    let m = m.step(FsEvent::Created);
    assert!(matches!(m, DirEnsurer::Done { created: Some(2) }));
    let reported = p.ancestor(2);
    assert!(!reported.absolute);
    assert_eq!(reported.segments, vec!["mkdirp-test".to_string(), "nested-1".to_string()]);
}

#[test]
fn race_parent_created_by_someone_else() {
    // The parent shows up between the failed attempt and the retry: the
    // run succeeds, and nothing is recorded as created by this run's
    // parent level, so nothing is reported.
    let m = DirEnsurer::start(&rel(&["a", "b"]))
        .step(FsEvent::NotFound)
        .step(FsEvent::AlreadyExists)
        .step(FsEvent::Created);
    assert!(matches!(m, DirEnsurer::Done { created: None }));
}

#[test]
fn race_target_created_by_someone_else_on_retry() {
    // The target shows up before the retry: still a success, reporting
    // the parent this run did create.
    let m = DirEnsurer::start(&rel(&["a", "b"]))
        .step(FsEvent::NotFound)
        .step(FsEvent::Created)
        .step(FsEvent::AlreadyExists);
    assert!(matches!(m, DirEnsurer::Done { created: Some(1) }));
}

#[test]
fn error_passes_through_while_descending() {
    let m = DirEnsurer::start(&rel(&["a", "b"])).step(FsEvent::OtherError);
    assert!(matches!(m, DirEnsurer::Failed));
}

#[test]
fn error_passes_through_on_retry() {
    let m = DirEnsurer::start(&rel(&["a", "b"]))
        .step(FsEvent::NotFound)
        .step(FsEvent::Created)
        .step(FsEvent::OtherError);
    assert!(matches!(m, DirEnsurer::Failed));
}

#[test]
fn missing_parent_on_retry_fails() {
    // The freshly created parent vanished again before the retry: the
    // retry's "not found" is an error now, not a reason to recurse.
    let m = DirEnsurer::start(&rel(&["a", "b"]))
        .step(FsEvent::NotFound)
        .step(FsEvent::Created)
        .step(FsEvent::NotFound);
    assert!(matches!(m, DirEnsurer::Failed));
}

#[test]
fn root_exhaustion_is_distinct_failure() {
    // An absolute path whose every level, the rootmost included, reports
    // a missing parent ends in the whole-tree failure.
    let m = DirEnsurer::start(&abs(&["a"]));
    assert_eq!(m.next_attempt(), Some(1));
    let m = m.step(FsEvent::NotFound);
    assert_eq!(m.next_attempt(), Some(0));
    let m = m.step(FsEvent::NotFound);
    assert!(matches!(m, DirEnsurer::RootFailure));
    assert!(!matches!(m, DirEnsurer::Failed));
}

#[test]
fn relative_path_with_missing_current_directory() {
    // A single relative segment whose parent (the current directory) is
    // reported missing: the empty parent is a no-op, so the run goes
    // straight to the retry, and a created directory is not reported
    // because the record stays with the parent level.
    let m = DirEnsurer::start(&rel(&["a"])).step(FsEvent::NotFound);
    assert_eq!(m.next_attempt(), Some(1));
    let m = m.step(FsEvent::Created);
    assert!(matches!(m, DirEnsurer::Done { created: None }));
}

#[test]
fn root_path_already_exists() {
    let m = DirEnsurer::start(&abs(&[]));
    assert_eq!(m.next_attempt(), Some(0));
    let m = m.step(FsEvent::AlreadyExists);
    assert!(matches!(m, DirEnsurer::Done { created: None }));
}

#[test]
fn ancestor_takes_leading_segments() {
    let p = abs(&["usr", "local", "share"]);
    assert_eq!(p.depth(), 3);
    assert!(!p.is_empty());
    let a0 = p.ancestor(0);
    assert!(a0.absolute);
    assert_eq!(a0.segments, Vec::<String>::new());
    let a2 = p.ancestor(2);
    assert!(a2.absolute);
    assert_eq!(a2.segments, vec!["usr".to_string(), "local".to_string()]);
    let a3 = p.ancestor(3);
    assert_eq!(a3.segments, p.segments);
}

#[test]
fn empty_path_properties() {
    let p = rel(&[]);
    assert!(p.is_empty());
    assert_eq!(p.depth(), 0);
    // A root is not the empty path.
    assert!(!abs(&[]).is_empty());
}

#[test]
fn steps_after_terminal_states_change_nothing() {
    let done = DirEnsurer::start(&rel(&["a"])).step(FsEvent::AlreadyExists);
    let done = done.step(FsEvent::OtherError);
    assert!(matches!(done, DirEnsurer::Done { created: None }));
    let failed = DirEnsurer::start(&rel(&["a"])).step(FsEvent::OtherError);
    let failed = failed.step(FsEvent::Created);
    assert!(matches!(failed, DirEnsurer::Failed));
}
