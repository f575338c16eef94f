use db_backup_goog::errors::ErrorKind;
use db_backup_goog::remote::RemoteFile;
use db_backup_goog::resolve::{
    accept_created_folder, folder_create_failure, folder_search_failure, plan_folder_creation,
    resolve_from_candidates, FolderResolution,
};

fn folder(id: Option<&str>, name: &str) -> RemoteFile {
    RemoteFile {
        id: id.map(|s| s.to_string()),
        name: Some(name.to_string()),
        created_time_millis: None,
    }
}

#[test]
fn resolving_an_existing_name_twice_returns_the_same_id() {
    let listing = vec![folder(Some("id-1"), "backups")];
    let first = resolve_from_candidates(&listing);
    let second = resolve_from_candidates(&listing);
    assert_eq!(first, FolderResolution::UseExisting("id-1".to_string()));
    assert_eq!(first, second);
}

#[test]
fn resolving_with_no_matches_creates() {
    let listing: Vec<RemoteFile> = vec![];
    assert_eq!(resolve_from_candidates(&listing), FolderResolution::CreateNeeded);
}

#[test]
fn first_match_wins_over_duplicates() {
    let listing = vec![folder(Some("older"), "backups"), folder(Some("newer"), "backups")];
    assert_eq!(
        resolve_from_candidates(&listing),
        FolderResolution::UseExisting("older".to_string())
    );
}

#[test]
fn match_without_id_falls_back_to_create() {
    let listing = vec![folder(None, "backups")];
    assert_eq!(resolve_from_candidates(&listing), FolderResolution::CreateNeeded);
}

#[test]
fn created_folder_with_id_is_accepted() {
    let r = accept_created_folder("backups", Some("fresh-id".to_string()));
    assert_eq!(r.unwrap(), "fresh-id".to_string());
}

#[test]
fn created_folder_without_id_is_a_remote_write_error() {
    let r = accept_created_folder("backups", None);
    let e = r.err().unwrap();
    assert_eq!(e.kind(), ErrorKind::RemoteWrite);
    assert_eq!(e.message().as_str(), "created folder 'backups' but the store returned no id");
}

#[test]
fn folder_search_failure_is_remote_query() {
    let e = folder_search_failure("backups", "timeout");
    assert_eq!(e.kind(), ErrorKind::RemoteQuery);
    assert_eq!(e.message().as_str(), "failed to search for folder 'backups': timeout");
}

#[test]
fn folder_create_failure_is_remote_write() {
    let e = folder_create_failure("backups", "quota");
    assert_eq!(e.kind(), ErrorKind::RemoteWrite);
    assert_eq!(e.message().as_str(), "failed to create folder 'backups': quota");
}

#[test]
fn folder_creation_plan_carries_name_type_and_parent() {
    let r = plan_folder_creation("backups", "root123");
    assert_eq!(r.name, "backups");
    assert_eq!(r.mime_type, "application/vnd.google-apps.folder");
    assert_eq!(r.parent_id, "root123");
    assert_eq!(r.body_type.essence_str(), "application/vnd.google-apps.folder");
}
