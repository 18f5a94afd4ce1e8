use rment::remover::{
    classify, conclude, diagnostic, label, label_from, Action, EntryKind, Remover,
};
use rment::report::{EntryOutcome, Report};
use rment::sanitizer::{EntrySanitizer, NormalizedPath};

fn batch(raw: &[&str]) -> Vec<NormalizedPath> {
    EntrySanitizer
        .sanitize(Ok("/scratch".to_string()), raw.iter().map(|s| s.to_string()).collect())
        .expect("a working directory was given")
}

fn counts(sf: u64, sd: u64, ff: u64, fd: u64, ab: u64, sk: u64) -> Report {
    Report {
        successful_file: sf,
        successful_dir: sd,
        failed_file: ff,
        failed_dir: fd,
        absent: ab,
        skipped: sk,
    }
}

#[test]
fn classify_tells_the_three_kinds_apart() {
    assert_eq!(classify(false, false), EntryKind::Missing);
    assert_eq!(classify(false, true), EntryKind::Missing);
    assert_eq!(classify(true, true), EntryKind::IsFile);
    assert_eq!(classify(true, false), EntryKind::IsDirectory);
}

#[test]
fn action_follows_kind() {
    assert_eq!(EntryKind::Missing.action(), Action::Nothing);
    assert_eq!(EntryKind::IsFile.action(), Action::DeleteFile);
    assert_eq!(EntryKind::IsDirectory.action(), Action::DeleteTree);
}

#[test]
fn conclude_names_each_outcome() {
    assert!(matches!(conclude(EntryKind::IsFile, Ok(())), EntryOutcome::RemovedFile));
    assert!(matches!(conclude(EntryKind::IsDirectory, Ok(())), EntryOutcome::RemovedDirectory));
    assert!(matches!(conclude(EntryKind::Missing, Ok(())), EntryOutcome::Absent));
    assert!(matches!(
        conclude(EntryKind::Missing, Err("ignored".to_string())),
        EntryOutcome::Absent
    ));
    match conclude(EntryKind::IsFile, Err("denied".to_string())) {
        EntryOutcome::FailedFile(reason) => assert_eq!(reason, "denied"),
        other => panic!("unexpected outcome {:?}", other),
    }
    match conclude(EntryKind::IsDirectory, Err("busy".to_string())) {
        EntryOutcome::FailedDirectory(reason) => assert_eq!(reason, "busy"),
        other => panic!("unexpected outcome {:?}", other),
    }
}

#[test]
fn diagnostics_carry_path_and_reason() {
    let path = NormalizedPath::normalize("/scratch", "f");
    assert_eq!(
        diagnostic(&path, &EntryOutcome::Absent),
        Some("path does not exist: /scratch/f".to_string())
    );
    assert_eq!(
        diagnostic(&path, &EntryOutcome::FailedFile("denied".to_string())),
        Some("Failed to remove file /scratch/f: denied".to_string())
    );
    assert_eq!(
        diagnostic(&path, &EntryOutcome::FailedDirectory("busy".to_string())),
        Some("Failed to remove directory /scratch/f: busy".to_string())
    );
    assert_eq!(diagnostic(&path, &EntryOutcome::RemovedFile), None);
    assert_eq!(diagnostic(&path, &EntryOutcome::RemovedDirectory), None);
    assert_eq!(diagnostic(&path, &EntryOutcome::Skipped), None);
}

#[test]
fn label_is_the_file_name() {
    assert_eq!(label(&NormalizedPath::normalize("/scratch", "dir/file2.txt")), "file2.txt");
    assert_eq!(label(&NormalizedPath::normalize("/scratch", "dir")), "dir");
}

#[test]
fn label_of_root_is_question_mark() {
    assert_eq!(label(&NormalizedPath::normalize("/scratch", "/")), "?");
}

#[test]
fn label_from_picks_name_or_question_mark() {
    assert_eq!(label_from(Some("a.txt".to_string())), "a.txt");
    assert_eq!(label_from(None), "?");
}

#[test]
fn new_run_has_processed_nothing() {
    let run = Remover::new(batch(&["a", "b"]));
    assert_eq!(run.total(), 2);
    assert_eq!(run.processed(), 0);
    assert!(!run.is_finished());
    assert_eq!(run.report(), counts(0, 0, 0, 0, 0, 0));
    assert_eq!(run.current().map(|p| p.as_str()), Some("/scratch/a"));
}

#[test]
fn empty_batch_is_finished_at_once() {
    let mut run = Remover::new(Vec::new());
    assert_eq!(run.total(), 0);
    assert!(run.is_finished());
    assert!(run.current().is_none());
    assert_eq!(run.settle(EntryKind::Missing, Ok(())), None);
    assert_eq!(run.report(), counts(0, 0, 0, 0, 0, 0));
}

#[test]
fn file_directory_and_missing_entry() {
    let mut run = Remover::new(batch(&["file1.txt", "dir", "missing.txt"]));
    assert_eq!(run.total(), 3);

    assert_eq!(run.current().map(label), Some("file1.txt".to_string()));
    let kind = classify(true, true);
    assert_eq!(kind.action(), Action::DeleteFile);
    assert_eq!(run.settle(kind, Ok(())), None);

    assert_eq!(run.current().map(label), Some("dir".to_string()));
    let kind = classify(true, false);
    assert_eq!(kind.action(), Action::DeleteTree);
    assert_eq!(run.settle(kind, Ok(())), None);

    assert_eq!(run.current().map(label), Some("missing.txt".to_string()));
    let kind = classify(false, false);
    assert_eq!(kind.action(), Action::Nothing);
    assert_eq!(
        run.settle(kind, Ok(())),
        Some("path does not exist: /scratch/missing.txt".to_string())
    );

    assert!(run.is_finished());
    assert_eq!(run.report(), counts(1, 1, 0, 0, 1, 0));
    assert_eq!(run.report().total(), Some(3));
}

#[test]
fn failure_does_not_stop_the_batch() {
    let mut run = Remover::new(batch(&["locked", "b", "c"]));
    assert_eq!(
        run.settle(EntryKind::IsFile, Err("Permission denied (os error 13)".to_string())),
        Some("Failed to remove file /scratch/locked: Permission denied (os error 13)".to_string())
    );
    assert!(!run.is_finished());
    assert_eq!(run.current().map(|p| p.as_str()), Some("/scratch/b"));
    assert_eq!(run.settle(EntryKind::IsFile, Ok(())), None);
    assert_eq!(run.current().map(|p| p.as_str()), Some("/scratch/c"));
    assert_eq!(run.settle(EntryKind::IsDirectory, Ok(())), None);
    assert!(run.is_finished());
    assert_eq!(run.report(), counts(1, 1, 1, 0, 0, 0));
}

#[test]
fn failed_directory_is_counted_and_reported() {
    let mut run = Remover::new(batch(&["d"]));
    assert_eq!(
        run.settle(EntryKind::IsDirectory, Err("Directory not empty".to_string())),
        Some("Failed to remove directory /scratch/d: Directory not empty".to_string())
    );
    assert_eq!(run.report(), counts(0, 0, 0, 1, 0, 0));
}

#[test]
fn entries_are_processed_in_order() {
    let mut run = Remover::new(batch(&["x", "y", "z"]));
    let mut seen = Vec::new();
    let mut lines = Vec::new();
    while let Some(path) = run.current() {
        seen.push(path.as_str().to_string());
        lines.push(run.settle(EntryKind::Missing, Ok(())));
        assert_eq!(run.processed(), seen.len() as u64);
    }
    assert_eq!(seen, vec!["/scratch/x", "/scratch/y", "/scratch/z"]);
    assert_eq!(
        lines,
        vec![
            Some("path does not exist: /scratch/x".to_string()),
            Some("path does not exist: /scratch/y".to_string()),
            Some("path does not exist: /scratch/z".to_string()),
        ]
    );
}

#[test]
fn counters_add_up_to_batch_size() {
    let kinds = [EntryKind::Missing, EntryKind::IsFile, EntryKind::IsDirectory];
    let raw: Vec<String> = (0..30).map(|i| format!("entry{}", i)).collect();
    let refs: Vec<&str> = raw.iter().map(|s| s.as_str()).collect();
    let mut run = Remover::new(batch(&refs));
    let mut step = 0usize;
    while !run.is_finished() {
        let attempt = if step % 2 == 0 { Ok(()) } else { Err("no".to_string()) };
        run.settle(kinds[step % 3], attempt);
        step += 1;
        assert_eq!(run.report().total(), Some(step as u64));
    }
    assert_eq!(step, 30);
    assert_eq!(run.report().total(), Some(run.total()));
    assert_eq!(run.report(), counts(5, 5, 5, 5, 10, 0));
}

#[test]
fn repeated_entries_are_counted_each() {
    let mut run = Remover::new(batch(&["same", "same"]));
    assert_eq!(run.settle(EntryKind::IsFile, Ok(())), None);
    assert_eq!(
        run.settle(EntryKind::Missing, Ok(())),
        Some("path does not exist: /scratch/same".to_string())
    );
    assert_eq!(run.report(), counts(1, 0, 0, 0, 1, 0));
}

#[test]
fn settling_a_finished_run_changes_nothing() {
    let mut run = Remover::new(batch(&["a"]));
    run.settle(EntryKind::IsFile, Ok(()));
    let before = run.report();
    assert_eq!(run.settle(EntryKind::IsFile, Err("late".to_string())), None);
    assert_eq!(run.settle(EntryKind::Missing, Ok(())), None);
    assert_eq!(run.report(), before);
    assert_eq!(run.processed(), 1);
    assert!(run.is_finished());
}
