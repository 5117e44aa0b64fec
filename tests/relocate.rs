use better_export::{relocate_next, RelocError, RelocEvent, RelocStep};

fn run(events: Vec<RelocEvent>) -> RelocStep {
    let mut step = RelocStep::Inspect;
    for e in events {
        step = relocate_next(step, e);
    }
    step
}

fn inspected() -> RelocEvent {
    RelocEvent::Inspected { exists: true, is_file: true }
}

#[test]
fn rename_moves_the_file() {
    assert_eq!(run(vec![inspected()]), RelocStep::Rename);
    assert_eq!(run(vec![inspected(), RelocEvent::Succeeded]), RelocStep::Moved);
}

#[test]
fn failed_rename_falls_back_to_copy_and_remove() {
    let fail = RelocEvent::Failed("cross-device link".to_string());
    assert_eq!(run(vec![inspected(), fail.clone()]), RelocStep::Copy);
    assert_eq!(run(vec![inspected(), fail.clone(), RelocEvent::Succeeded]), RelocStep::RemoveSource);
    assert_eq!(
        run(vec![inspected(), fail, RelocEvent::Succeeded, RelocEvent::Succeeded]),
        RelocStep::Moved
    );
}

#[test]
fn failed_copy_keeps_source() {
    let r = run(vec![
        inspected(),
        RelocEvent::Failed("cross-device link".to_string()),
        RelocEvent::Failed("disk full".to_string()),
        RelocEvent::Succeeded,
    ]);
    assert_eq!(r, RelocStep::Failed(RelocError::Io("disk full".to_string())));
}

#[test]
fn failed_removal_is_reported() {
    let r = run(vec![
        inspected(),
        RelocEvent::Failed("cross-device link".to_string()),
        RelocEvent::Succeeded,
        RelocEvent::Failed("permission denied".to_string()),
    ]);
    assert_eq!(r, RelocStep::Failed(RelocError::Io("permission denied".to_string())));
}

#[test]
fn missing_source_is_refused() {
    let r = run(vec![RelocEvent::Inspected { exists: false, is_file: false }, RelocEvent::Succeeded]);
    assert_eq!(r, RelocStep::Failed(RelocError::SourceMissing));
}

#[test]
fn directory_source_is_refused() {
    let r = run(vec![RelocEvent::Inspected { exists: true, is_file: false }]);
    assert_eq!(r, RelocStep::Failed(RelocError::NotAFile));
}

#[test]
fn unrelated_event_changes_nothing() {
    assert_eq!(relocate_next(RelocStep::Inspect, RelocEvent::Succeeded), RelocStep::Inspect);
    assert_eq!(relocate_next(RelocStep::Moved, RelocEvent::Failed("x".to_string())), RelocStep::Moved);
}
