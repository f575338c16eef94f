use db_backup_goog::config::{Config, RawSettings};
use db_backup_goog::errors::{authentication_failure, BackupError, ErrorKind};
use db_backup_goog::parse::{parse_u16, parse_usize};

fn full_settings() -> RawSettings {
    RawSettings {
        db_host: Some("db.example".to_string()),
        db_username: Some("admin".to_string()),
        db_password: Some("secret".to_string()),
        db_name: Some("prod".to_string()),
        db_port: Some("5432".to_string()),
        minecraft_server_path: Some("/srv/minecraft".to_string()),
        backup_temp_dir: Some("/var/tmp/backups".to_string()),
        mc_retention_count: Some("7".to_string()),
        google_credentials_path: Some("/etc/creds.json".to_string()),
        google_drive_folder_id: Some("folder-id".to_string()),
    }
}

#[test]
fn parse_u16_accepts_ports() {
    assert_eq!(parse_u16("5432"), Some(5432));
    assert_eq!(parse_u16("0"), Some(0));
    assert_eq!(parse_u16("65535"), Some(65535));
    assert_eq!(parse_u16("+80"), Some(80));
    assert_eq!(parse_u16("0042"), Some(42));
}

#[test]
fn parse_u16_rejects_bad_input() {
    assert_eq!(parse_u16(""), None);
    assert_eq!(parse_u16("+"), None);
    assert_eq!(parse_u16("65536"), None);
    assert_eq!(parse_u16("-1"), None);
    assert_eq!(parse_u16("54x2"), None);
    assert_eq!(parse_u16(" 5432"), None);
}

#[test]
fn parse_usize_accepts_counts() {
    assert_eq!(parse_usize("3"), Some(3));
    assert_eq!(parse_usize("1000000"), Some(1000000));
}

#[test]
fn parse_usize_rejects_bad_input() {
    assert_eq!(parse_usize("three"), None);
    assert_eq!(parse_usize(""), None);
    assert_eq!(parse_usize("99999999999999999999999999"), None);
}

#[test]
fn config_build_accepts_a_full_setting_set() {
    let c = Config::build(full_settings()).unwrap();
    assert_eq!(c.db_host, "db.example");
    assert_eq!(c.db_username, "admin");
    assert_eq!(c.db_password, "secret");
    assert_eq!(c.db_name, "prod");
    assert_eq!(c.db_port, 5432);
    assert_eq!(c.minecraft_server_path, "/srv/minecraft");
    assert_eq!(c.backup_temp_dir, "/var/tmp/backups");
    assert_eq!(c.mc_retention_count, 7);
    assert_eq!(c.google_credentials_path, "/etc/creds.json");
    assert_eq!(c.google_drive_folder_id, "folder-id");
}

#[test]
fn config_defaults_apply_when_optional_values_are_absent() {
    let mut raw = full_settings();
    raw.mc_retention_count = None;
    raw.backup_temp_dir = None;
    let c = Config::build(raw).unwrap();
    assert_eq!(c.mc_retention_count, 3);
    assert_eq!(c.backup_temp_dir, "/tmp/db-backup-goog");
}

#[test]
fn config_missing_required_value_names_the_variable() {
    let mut raw = full_settings();
    raw.db_host = None;
    let e = Config::build(raw).err().unwrap();
    assert_eq!(e.kind(), ErrorKind::Configuration);
    assert_eq!(e.message().as_str(), "DB_HOST is not set");

    let mut raw = full_settings();
    raw.google_drive_folder_id = None;
    let e = Config::build(raw).err().unwrap();
    assert_eq!(e.message().as_str(), "GOOGLE_DRIVE_FOLDER_ID is not set");

    let mut raw = full_settings();
    raw.db_port = None;
    let e = Config::build(raw).err().unwrap();
    assert_eq!(e.message().as_str(), "DB_PORT is not set");
}

#[test]
fn config_bad_port_is_a_configuration_error() {
    let mut raw = full_settings();
    raw.db_port = Some("not-a-port".to_string());
    let e = Config::build(raw).err().unwrap();
    assert_eq!(e.kind(), ErrorKind::Configuration);
    assert_eq!(e.message().as_str(), "DB_PORT is not a valid port number");
}

#[test]
fn config_bad_retention_is_a_configuration_error() {
    let mut raw = full_settings();
    raw.mc_retention_count = Some("-2".to_string());
    let e = Config::build(raw).err().unwrap();
    assert_eq!(e.kind(), ErrorKind::Configuration);
    assert_eq!(e.message().as_str(), "MC_RETENTION_COUNT is not a valid count");
}

#[test]
fn error_kinds_are_reported() {
    let e = authentication_failure("bad key");
    assert_eq!(e.kind(), ErrorKind::Authentication);
    assert_eq!(e.message().as_str(), "authentication failed: bad key");
    let e = BackupError::LocalIO("gone".to_string());
    assert_eq!(e.kind(), ErrorKind::LocalIO);
    assert_eq!(e.message().as_str(), "gone");
}
