use db_backup_goog::archive::{
    decide_archive, extract_archive, plan_archive, ArchiveEntry, ArchiveEvent, TreeNode,
};
use db_backup_goog::artifact::BackupKind;
use db_backup_goog::clock::DateParts;
use db_backup_goog::errors::ErrorKind;

fn parts() -> DateParts {
    DateParts { year: 2026, month: 2, day: 11, hour: 3, minute: 15, second: 42 }
}

fn tree_with_symlink() -> Vec<TreeNode> {
    // Three regular files, 10 MB in all, and one symlink pointing outside
    // the tree.
    vec![
        TreeNode::File { path: "world/level.dat".to_string(), contents: vec![0xAB; 4_000_000] },
        TreeNode::File { path: "world/region.mca".to_string(), contents: vec![0xCD; 3_000_000] },
        TreeNode::File { path: "server.properties".to_string(), contents: vec![0xEF; 3_000_000] },
        TreeNode::Symlink { path: "link".to_string(), target: "/etc/passwd".to_string() },
    ]
}

#[test]
fn symlink_is_archived_as_a_record_not_its_target() {
    let entries = plan_archive(tree_with_symlink());
    assert_eq!(entries.len(), 4);
    assert_eq!(
        entries[3],
        ArchiveEntry::SymlinkEntry { path: "link".to_string(), target: "/etc/passwd".to_string() }
    );
    // Every payload byte comes from the three regular files.
    let payload: usize = entries
        .iter()
        .map(|e| match e {
            ArchiveEntry::FileEntry { contents, .. } => contents.len(),
            _ => 0,
        })
        .sum();
    assert_eq!(payload, 10_000_000);
}

#[test]
fn extracting_the_symlink_archive_restores_the_records() {
    let extracted = extract_archive(plan_archive(tree_with_symlink()));
    assert_eq!(extracted, tree_with_symlink());
}

fn link_free_tree() -> Vec<TreeNode> {
    vec![
        TreeNode::Dir { path: "docs".to_string() },
        TreeNode::File { path: "docs/a.txt".to_string(), contents: b"alpha".to_vec() },
        TreeNode::File { path: "b.bin".to_string(), contents: vec![1, 2, 3, 255] },
    ]
}

#[test]
fn archive_round_trip_restores_a_link_free_tree() {
    let restored = extract_archive(plan_archive(link_free_tree()));
    assert_eq!(restored, link_free_tree());
}

#[test]
fn build_failure_removes_the_partial_output() {
    let src = "/srv/minecraft".to_string();
    let out = "/tmp/minecraft_x.tar.zst".to_string();
    let d = decide_archive(&src, &out, parts(), ArchiveEvent::BuildFailed("disk full".to_string()));
    assert!(d.remove_output);
    let e = d.result.err().unwrap();
    assert_eq!(e.kind(), ErrorKind::ArchiveBuild);
    assert_eq!(e.message().as_str(), "failed to build archive: disk full");
}

#[test]
fn worker_panic_becomes_an_ordinary_failure() {
    let src = "/srv/minecraft".to_string();
    let out = "/tmp/minecraft_x.tar.zst".to_string();
    let d = decide_archive(&src, &out, parts(), ArchiveEvent::TaskPanicked("oom".to_string()));
    assert!(d.remove_output);
    let e = d.result.err().unwrap();
    assert_eq!(e.kind(), ErrorKind::ArchiveBuild);
    assert_eq!(e.message().as_str(), "archive worker terminated abnormally: oom");
}

#[test]
fn missing_source_fails_before_anything_is_written() {
    let src = "/srv/minecraft".to_string();
    let out = "/tmp/minecraft_x.tar.zst".to_string();
    let d = decide_archive(&src, &out, parts(), ArchiveEvent::SourceMissing);
    assert!(!d.remove_output);
    let e = d.result.err().unwrap();
    assert_eq!(e.kind(), ErrorKind::ArchiveBuild);
    assert_eq!(e.message().as_str(), "source directory does not exist: /srv/minecraft");
}

#[test]
fn completed_build_yields_the_artifact() {
    let src = "/srv/minecraft".to_string();
    let out = "/tmp/minecraft_x.tar.zst".to_string();
    let d = decide_archive(&src, &out, parts(), ArchiveEvent::Completed(123_456));
    assert!(!d.remove_output);
    let a = d.result.ok().unwrap();
    assert!(a.kind == BackupKind::Directory);
    assert_eq!(a.local_path, "/tmp/minecraft_x.tar.zst");
    assert_eq!(a.size_bytes, 123_456);
}
