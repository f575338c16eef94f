use db_backup_goog::errors::ErrorKind;
use db_backup_goog::upload::{file_name_of_path, plan_upload, upload_failure};

#[test]
fn file_name_is_the_last_component() {
    assert_eq!(
        file_name_of_path("/tmp/backups/db_prod_20260211_031542.dump"),
        Some("db_prod_20260211_031542.dump".to_string())
    );
    assert_eq!(file_name_of_path("plain.tar.zst"), Some("plain.tar.zst".to_string()));
}

#[test]
fn path_without_usable_name_yields_none() {
    assert_eq!(file_name_of_path("/tmp/backups/"), None);
    assert_eq!(file_name_of_path(""), None);
    assert_eq!(file_name_of_path("/tmp/."), None);
    assert_eq!(file_name_of_path("/tmp/.."), None);
}

#[test]
fn upload_plan_carries_name_and_exact_size() {
    let req = plan_upload("/tmp/backups/minecraft_20260211_031542.tar.zst", "folder7", Some(123)).unwrap();
    assert_eq!(req.file_name, "minecraft_20260211_031542.tar.zst");
    assert_eq!(req.parent_folder_id, "folder7");
    assert_eq!(req.size_bytes, 123);
}

#[test]
fn upload_plan_fails_without_a_file_name() {
    let e = plan_upload("/tmp/backups/", "folder7", Some(123)).err().unwrap();
    assert_eq!(e.kind(), ErrorKind::LocalIO);
    assert_eq!(
        e.message().as_str(),
        "cannot determine a file name from path: /tmp/backups/"
    );
}

#[test]
fn upload_plan_fails_when_the_stat_failed() {
    let e = plan_upload("/tmp/backups/a.dump", "folder7", None).err().unwrap();
    assert_eq!(e.kind(), ErrorKind::LocalIO);
    assert_eq!(e.message().as_str(), "failed to stat file for upload: /tmp/backups/a.dump");
}

#[test]
fn upload_failure_reports_remote_write() {
    let e = upload_failure("a.dump", "connection reset");
    assert_eq!(e.kind(), ErrorKind::RemoteWrite);
    assert_eq!(e.message().as_str(), "failed to upload 'a.dump': connection reset");
}

#[test]
fn upload_body_type_is_octet_stream() {
    let req = plan_upload("/tmp/a.dump", "f", Some(1)).unwrap();
    assert_eq!(req.body_type.essence_str(), "application/octet-stream");
}
