use dirsize::erase::{DeleteAction, DeleteBatch, DeleteEvent, PathKind, Phase};

fn strings(paths: &[&str]) -> Vec<String> {
    paths.iter().map(|p| p.to_string()).collect()
}

fn describe(action: &DeleteAction) -> String {
    match action {
        DeleteAction::Probe(p) => format!("probe {}", p),
        DeleteAction::RemoveDirectory(p) => format!("rmdir {}", p),
        DeleteAction::RemoveFile(p) => format!("rm {}", p),
        DeleteAction::Finish(Ok(())) => "ok".to_string(),
        DeleteAction::Finish(Err(e)) => format!("error {}", e),
    }
}

/// Runs a batch against a fixed answer for each probe and removal.
fn drive(paths: &[&str], kinds: &[PathKind], removals: &[bool]) -> Vec<String> {
    let mut batch = DeleteBatch::new(strings(paths));
    let mut log = Vec::new();
    let (mut k, mut r) = (0, 0);
    loop {
        let action = batch.action();
        log.push(describe(&action));
        match action {
            DeleteAction::Probe(_) => {
                batch.step(DeleteEvent::Probed(kinds[k]));
                k += 1;
            }
            DeleteAction::RemoveDirectory(_) | DeleteAction::RemoveFile(_) => {
                batch.step(DeleteEvent::Removed(removals[r]));
                r += 1;
            }
            DeleteAction::Finish(_) => return log,
        }
    }
}

#[test]
fn delete_files_removes_each_by_kind() {
    let log = drive(&["/a", "/b"], &[PathKind::Directory, PathKind::File], &[true, true]);
    assert_eq!(log, vec!["probe /a", "rmdir /a", "probe /b", "rm /b", "ok"]);
}

#[test]
fn delete_files_empty_list() {
    assert_eq!(drive(&[], &[], &[]), vec!["ok"]);
}

#[test]
fn delete_files_stops_at_missing_path() {
    let log = drive(
        &["/a", "/gone", "/c"],
        &[PathKind::File, PathKind::Missing, PathKind::File],
        &[true, true],
    );
    assert_eq!(
        log,
        vec!["probe /a", "rm /a", "probe /gone", "error Path does not exist: /gone"]
    );
}

#[test]
fn delete_files_stops_at_failed_removal() {
    let log = drive(&["/a", "/b"], &[PathKind::Directory, PathKind::File], &[false]);
    assert_eq!(log, vec!["probe /a", "rmdir /a", "error Failed to delete directory: /a"]);
    let log = drive(&["/a", "/b"], &[PathKind::Directory, PathKind::File], &[true, false]);
    assert_eq!(
        log,
        vec!["probe /a", "rmdir /a", "probe /b", "rm /b", "error Failed to delete file: /b"]
    );
}

#[test]
fn delete_batch_ignores_reports_after_finishing() {
    let mut batch = DeleteBatch::new(strings(&["/x"]));
    batch.step(DeleteEvent::Probed(PathKind::Missing));
    assert!(batch.phase == Phase::Failed(dirsize::erase::DeleteFailure::NotFound));
    batch.step(DeleteEvent::Probed(PathKind::File));
    batch.step(DeleteEvent::Removed(true));
    assert_eq!(describe(&batch.action()), "error Path does not exist: /x");
    assert_eq!(batch.index, 0);
}

#[test]
fn delete_batch_ignores_unexpected_report() {
    let mut batch = DeleteBatch::new(strings(&["/x"]));
    batch.step(DeleteEvent::Removed(true));
    assert_eq!(describe(&batch.action()), "probe /x");
}
