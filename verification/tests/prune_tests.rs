use db_backup_goog::prune::{count_successes, deletion_id, prune_targets};
use db_backup_goog::remote::RemoteFile;

fn rf(id: &str, name: &str, t: i64) -> RemoteFile {
    RemoteFile {
        id: Some(id.to_string()),
        name: Some(name.to_string()),
        created_time_millis: Some(t),
    }
}

#[test]
fn prune_five_keep_three_deletes_two_oldest() {
    // Newest-first listing of five files with creation times t1 < ... < t5.
    let files = vec![
        rf("f5", "b5", 500),
        rf("f4", "b4", 400),
        rf("f3", "b3", 300),
        rf("f2", "b2", 200),
        rf("f1", "b1", 100),
    ];
    let targets = prune_targets(files, 3);
    assert_eq!(targets.len(), 2);
    assert_eq!(targets[0], rf("f2", "b2", 200));
    assert_eq!(targets[1], rf("f1", "b1", 100));
    let outcomes = vec![true, true];
    assert_eq!(count_successes(&outcomes), 2);
}

#[test]
fn prune_keep_covers_all_deletes_nothing() {
    let files = vec![rf("a", "x", 3), rf("b", "y", 2), rf("c", "z", 1)];
    let targets = prune_targets(files, 5);
    assert!(targets.is_empty());
    let outcomes: Vec<bool> = vec![];
    assert_eq!(count_successes(&outcomes), 0);
}

#[test]
fn prune_keep_equal_to_total_deletes_nothing() {
    let files = vec![rf("a", "x", 2), rf("b", "y", 1)];
    let targets = prune_targets(files, 2);
    assert!(targets.is_empty());
}

#[test]
fn prune_attempt_count_is_total_minus_keep() {
    let files: Vec<RemoteFile> = (0..7).map(|i| rf(&format!("f{i}"), "n", 700 - i)).collect();
    let targets = prune_targets(files, 4);
    assert_eq!(targets.len(), 3);
}

#[test]
fn prune_keep_zero_targets_everything() {
    let files = vec![rf("a", "x", 2), rf("b", "y", 1)];
    let targets = prune_targets(files, 0);
    assert_eq!(targets.len(), 2);
    assert_eq!(targets[0], rf("a", "x", 2));
}

#[test]
fn count_successes_counts_only_true() {
    let outcomes = vec![true, false, true, false];
    assert_eq!(count_successes(&outcomes), 2);
}

#[test]
fn deletion_uses_the_listed_id_and_skips_entries_without_one() {
    assert_eq!(deletion_id(&rf("f9", "b9", 900)), Some("f9".to_string()));
    let no_id = RemoteFile {
        id: None,
        name: Some("orphan".to_string()),
        created_time_millis: Some(1),
    };
    assert_eq!(deletion_id(&no_id), None);
}
