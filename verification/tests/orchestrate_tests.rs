use db_backup_goog::artifact::{removal_succeeded, ArchiveArtifact, BackupKind, RemoveOutcome};
use db_backup_goog::clock::DateParts;
use db_backup_goog::cli::{Cli, Command};
use db_backup_goog::errors::BackupError;
use db_backup_goog::orchestrate::{KindRun, RunAction, RunEvent};

fn artifact(path: &str) -> ArchiveArtifact {
    ArchiveArtifact {
        kind: BackupKind::Directory,
        local_path: path.to_string(),
        size_bytes: 99,
        created_at: DateParts { year: 2026, month: 2, day: 11, hour: 3, minute: 15, second: 42 },
    }
}

#[test]
fn directory_run_with_retention_walks_all_stages() {
    let run = KindRun::new(BackupKind::Directory, Some(3));
    assert_eq!(run.next_action(), RunAction::ResolveFolder);

    let run = run.step(RunEvent::FolderResolved(Ok("fid".to_string())));
    assert_eq!(run.next_action(), RunAction::Produce { folder_id: "fid".to_string() });

    let run = run.step(RunEvent::Produced(Ok(artifact("/tmp/m.tar.zst"))));
    assert_eq!(
        run.next_action(),
        RunAction::Upload {
            folder_id: "fid".to_string(),
            artifact_path: "/tmp/m.tar.zst".to_string()
        }
    );

    let run = run.step(RunEvent::Uploaded(Ok(())));
    assert_eq!(
        run.next_action(),
        RunAction::Prune { folder_id: "fid".to_string(), keep: 3 }
    );

    let run = run.step(RunEvent::Pruned(Ok(2)));
    assert_eq!(
        run.next_action(),
        RunAction::RemoveLocal { artifact_path: "/tmp/m.tar.zst".to_string() }
    );

    let run = run.step(RunEvent::Removed(true));
    assert!(run.finished());
    assert_eq!(run.next_action(), RunAction::Report { success: true, deleted: 2 });
}

#[test]
fn run_without_retention_skips_the_prune() {
    let run = KindRun::new(BackupKind::Database, None);
    let run = run.step(RunEvent::FolderResolved(Ok("fid".to_string())));
    let run = run.step(RunEvent::Produced(Ok(artifact("/tmp/d.dump"))));
    let run = run.step(RunEvent::Uploaded(Ok(())));
    assert_eq!(
        run.next_action(),
        RunAction::RemoveLocal { artifact_path: "/tmp/d.dump".to_string() }
    );
}

#[test]
fn upload_failure_still_orders_local_cleanup() {
    let run = KindRun::new(BackupKind::Directory, Some(3));
    let run = run.step(RunEvent::FolderResolved(Ok("fid".to_string())));
    let run = run.step(RunEvent::Produced(Ok(artifact("/tmp/m.tar.zst"))));
    let run = run.step(RunEvent::Uploaded(Err(BackupError::RemoteWrite("reset".to_string()))));
    // No prune after a failed upload; the artifact is still removed.
    assert_eq!(
        run.next_action(),
        RunAction::RemoveLocal { artifact_path: "/tmp/m.tar.zst".to_string() }
    );
    let run = run.step(RunEvent::Removed(false));
    assert!(run.finished());
    assert_eq!(run.next_action(), RunAction::Report { success: false, deleted: 0 });
}

#[test]
fn produce_failure_ends_the_run_without_cleanup() {
    let run = KindRun::new(BackupKind::Database, None);
    let run = run.step(RunEvent::FolderResolved(Ok("fid".to_string())));
    let run = run.step(RunEvent::Produced(Err(BackupError::ExternalTool("boom".to_string()))));
    assert!(run.finished());
    assert_eq!(run.next_action(), RunAction::Report { success: false, deleted: 0 });
}

#[test]
fn prune_failure_fails_the_run_but_cleans_up() {
    let run = KindRun::new(BackupKind::Directory, Some(3));
    let run = run.step(RunEvent::FolderResolved(Ok("fid".to_string())));
    let run = run.step(RunEvent::Produced(Ok(artifact("/tmp/m.tar.zst"))));
    let run = run.step(RunEvent::Uploaded(Ok(())));
    let run = run.step(RunEvent::Pruned(Err(BackupError::RemoteQuery("listing failed".to_string()))));
    assert_eq!(
        run.next_action(),
        RunAction::RemoveLocal { artifact_path: "/tmp/m.tar.zst".to_string() }
    );
    let run = run.step(RunEvent::Removed(true));
    assert_eq!(run.next_action(), RunAction::Report { success: false, deleted: 0 });
}

#[test]
fn commands_map_to_their_backup_kinds() {
    assert_eq!(Command::Db.kinds_to_run(), vec![BackupKind::Database]);
    assert_eq!(Command::Minecraft.kinds_to_run(), vec![BackupKind::Directory]);
    assert_eq!(
        Command::All.kinds_to_run(),
        vec![BackupKind::Database, BackupKind::Directory]
    );
    assert_eq!(Command::Prune.kinds_to_run(), Vec::<BackupKind>::new());
}

#[test]
fn only_all_and_prune_commands_prune() {
    assert!(!Command::Db.prunes());
    assert!(!Command::Minecraft.prunes());
    assert!(Command::All.prunes());
    assert!(Command::Prune.prunes());
}

#[test]
fn a_parsed_invocation_carries_its_command() {
    let cli = Cli { command: Command::All };
    assert!(cli.command.prunes());
    assert_eq!(cli.command.kinds_to_run().len(), 2);
}

#[test]
fn a_missing_file_counts_as_removed_and_a_failure_does_not() {
    assert!(removal_succeeded(&RemoveOutcome::Removed));
    assert!(removal_succeeded(&RemoveOutcome::NotFound));
    assert!(!removal_succeeded(&RemoveOutcome::Failed("busy".to_string())));
}
