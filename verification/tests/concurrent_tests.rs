use gtoolkit_installer::concurrent::{BoundedRunner, TaskState};
use gtoolkit_installer::download::{FileToDownload, FilesToDownload};
use gtoolkit_installer::unzip::{entry_is_directory, entry_output_path, FileToUnzip, FilesToUnzip};

#[test]
fn five_tasks_under_a_cap_of_two_never_run_three_at_once() {
    let mut runner = BoundedRunner::new(5, 2);
    let mut started: Vec<usize> = Vec::new();
    let mut completed = 0;
    while runner.progress() < 5 {
        assert!(runner.running() <= 2);
        match runner.start_next() {
            Some(i) => {
                assert!(runner.running() <= 2);
                started.push(i);
            }
            None => {
                // saturated or nothing pending: complete the oldest running task
                let i = started.remove(0);
                runner.finish(i, true);
                completed += 1;
                assert!(runner.running() <= 2);
            }
        }
    }
    assert_eq!(completed, 5);
    assert_eq!(runner.progress(), 5);
    for i in 0..5 {
        assert_eq!(runner.state_of(i), TaskState::Done);
    }
}

#[test]
fn the_aggregate_counter_reaches_the_task_count_on_success() {
    let mut runner = BoundedRunner::new(5, 2);
    runner.run_to_completion(&vec![true, true, true, true, true]);
    assert_eq!(runner.progress(), 5);
}

#[test]
fn a_failed_task_still_advances_the_counter() {
    let mut runner = BoundedRunner::new(3, 2);
    runner.run_to_completion(&vec![true, false, true]);
    assert_eq!(runner.progress(), 3);
    assert_eq!(runner.state_of(0), TaskState::Done);
    assert_eq!(runner.state_of(1), TaskState::Failed);
    assert_eq!(runner.state_of(2), TaskState::Done);
}

#[test]
fn download_lists_grow_in_order() {
    let a = FileToDownload::new("https://example.com/a.zip", "/tmp/ws", "a.zip");
    let b = FileToDownload::new("https://example.com/b.zip", "/tmp/ws", "b.zip");
    let files = FilesToDownload::new().add(a).maybe_add(None).maybe_add(Some(b));
    assert_eq!(files.len(), 2);
    assert_eq!(files.get(0).file_name(), "a.zip");
    assert_eq!(files.get(1).url(), "https://example.com/b.zip");
    assert_eq!(files.get(0).path(), "/tmp/ws/a.zip");
    let more = FilesToDownload::new()
        .add(FileToDownload::new("https://example.com/c.zip", "/tmp/ws", "c.zip"));
    let all = files.extend(more);
    assert_eq!(all.len(), 3);
    assert_eq!(all.get(2).file_name(), "c.zip");
}

#[test]
fn unzip_lists_grow_in_order() {
    let files = FilesToUnzip::new()
        .add(FileToUnzip::new("/tmp/ws/a.zip", "/tmp/ws"))
        .maybe_add(Some(FileToUnzip::new("/tmp/ws/b.zip", "/tmp/ws/b")))
        .maybe_add(None);
    assert_eq!(files.len(), 2);
    assert_eq!(files.get(0).archive(), "/tmp/ws/a.zip");
    assert_eq!(files.get(1).output(), "/tmp/ws/b");
    let all = files.extend(FilesToUnzip::new());
    assert_eq!(all.len(), 2);
}

#[test]
fn unsafe_archive_entries_are_skipped() {
    assert_eq!(
        entry_output_path("/tmp/out", "bin/GlamorousToolkit-cli"),
        Some("/tmp/out/bin/GlamorousToolkit-cli".to_string())
    );
    assert_eq!(entry_output_path("/tmp/out", "/etc/passwd"), None);
    assert_eq!(entry_output_path("/tmp/out", "../escape"), None);
    assert_eq!(entry_output_path("/tmp/out", "a/../../b"), None);
    assert_eq!(entry_output_path("/tmp/out", "a/.."), None);
    assert_eq!(entry_output_path("/tmp/out", ".."), None);
    assert_eq!(entry_output_path("/tmp/out", ""), None);
    assert_eq!(
        entry_output_path("/tmp/out", "lib/..data"),
        Some("/tmp/out/lib/..data".to_string())
    );
}

#[test]
fn directory_entries_are_recognised_by_their_slash() {
    assert!(entry_is_directory("bin/"));
    assert!(!entry_is_directory("bin/GlamorousToolkit-cli"));
}
