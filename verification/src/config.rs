use vstd::prelude::*;

use crate::errors::BackupError;
use crate::errors::ErrorKind;
use crate::parse::digits_value;
use crate::parse::parse_u16;
use crate::parse::parse_usize;
use crate::parse::parses_as_unsigned;
use crate::parse::unsigned_body;

verus! {

/// The configuration values one run consumes.
pub struct Config {
    pub db_host: String,
    pub db_username: String,
    pub db_password: String,
    pub db_name: String,
    pub db_port: u16,
    pub minecraft_server_path: String,
    pub backup_temp_dir: String,
    pub mc_retention_count: usize,
    pub google_credentials_path: String,
    pub google_drive_folder_id: String,
}

/// The raw setting values as read from the process environment, before any
/// validation: `None` where the variable is unset.
pub struct RawSettings {
    pub db_host: Option<String>,
    pub db_username: Option<String>,
    pub db_password: Option<String>,
    pub db_name: Option<String>,
    pub db_port: Option<String>,
    pub minecraft_server_path: Option<String>,
    pub backup_temp_dir: Option<String>,
    pub mc_retention_count: Option<String>,
    pub google_credentials_path: Option<String>,
    pub google_drive_folder_id: Option<String>,
}

/// When a raw setting set is acceptable: every required value present, the
/// port a decimal `u16`, and the retention count — when given at all — a
/// decimal `usize`. The temp directory and the retention count are the only
/// optional ones.
pub open spec fn settings_valid(raw: RawSettings) -> bool {
    &&& raw.db_host is Some
    &&& raw.db_username is Some
    &&& raw.db_password is Some
    &&& raw.db_name is Some
    &&& raw.minecraft_server_path is Some
    &&& raw.google_credentials_path is Some
    &&& raw.google_drive_folder_id is Some
    &&& raw.db_port matches Some(p) && parses_as_unsigned(p@, u16::MAX as int)
    &&& match raw.mc_retention_count {
        Some(c) => parses_as_unsigned(c@, usize::MAX as int),
        None => true,
    }
}

/// The retention keep-count used when the setting is absent.
pub open spec fn default_retention() -> int {
    3
}

/// The message an unacceptable setting set is rejected with: the first check
/// that fails, in the order the settings are examined, names the offending
/// variable. Empty only for an acceptable set, which is never rejected.
pub open spec fn settings_error_chars(raw: RawSettings) -> Seq<char> {
    if raw.db_port is None {
        "DB_PORT is not set"@
    } else if !parses_as_unsigned(raw.db_port->0@, u16::MAX as int) {
        "DB_PORT is not a valid port number"@
    } else if raw.mc_retention_count matches Some(c) && !parses_as_unsigned(
        c@,
        usize::MAX as int,
    ) {
        "MC_RETENTION_COUNT is not a valid count"@
    } else if raw.db_host is None {
        "DB_HOST is not set"@
    } else if raw.db_username is None {
        "DB_USERNAME is not set"@
    } else if raw.db_password is None {
        "DB_PASSWORD is not set"@
    } else if raw.db_name is None {
        "DB_NAME is not set"@
    } else if raw.minecraft_server_path is None {
        "MINECRAFT_SERVER_PATH is not set"@
    } else if raw.google_credentials_path is None {
        "GOOGLE_CREDENTIALS_PATH is not set"@
    } else if raw.google_drive_folder_id is None {
        "GOOGLE_DRIVE_FOLDER_ID is not set"@
    } else {
        Seq::<char>::empty()
    }
}

fn config_error(detail: &str) -> (r: BackupError)
    ensures
        r.kind_spec() == ErrorKind::Configuration,
        r.message_spec() == detail@,
{
    BackupError::Configuration(detail.to_owned())
}

impl Config {
    /// Validate one raw setting set into a configuration. Succeeds exactly on
    /// the sets `settings_valid` admits; every failure is a configuration
    /// error whose message names the offending variable. Absent optional
    /// values fall back to a retention count of 3 and a fixed temp directory.
    pub fn build(raw: RawSettings) -> (r: Result<Config, BackupError>)
        ensures
            r is Ok <==> settings_valid(raw),
            r matches Ok(c) ==> {
                &&& raw.db_host matches Some(v) && c.db_host == v
                &&& raw.db_username matches Some(v) && c.db_username == v
                &&& raw.db_password matches Some(v) && c.db_password == v
                &&& raw.db_name matches Some(v) && c.db_name == v
                &&& raw.minecraft_server_path matches Some(v) && c.minecraft_server_path == v
                &&& raw.google_credentials_path matches Some(v) && c.google_credentials_path == v
                &&& raw.google_drive_folder_id matches Some(v) && c.google_drive_folder_id == v
                &&& raw.db_port matches Some(p) && c.db_port == digits_value(unsigned_body(p@))
                &&& c.mc_retention_count == match raw.mc_retention_count {
                    Some(s) => digits_value(unsigned_body(s@)),
                    None => default_retention(),
                }
                &&& c.backup_temp_dir@ == match raw.backup_temp_dir {
                    Some(d) => d@,
                    None => "/tmp/db-backup-goog"@,
                }
            },
            r matches Err(e) ==> e.kind_spec() == ErrorKind::Configuration && e.message_spec()
                == settings_error_chars(raw),
    {
        let RawSettings {
            db_host,
            db_username,
            db_password,
            db_name,
            db_port,
            minecraft_server_path,
            backup_temp_dir,
            mc_retention_count,
            google_credentials_path,
            google_drive_folder_id,
        } = raw;
        let db_port_raw = match db_port {
            Some(s) => s,
            None => {
                return Err(config_error("DB_PORT is not set"));
            },
        };
        let db_port = match parse_u16(db_port_raw.as_str()) {
            Some(p) => p,
            None => {
                return Err(config_error("DB_PORT is not a valid port number"));
            },
        };
        let mc_retention_count: usize = match mc_retention_count {
            Some(s) => match parse_usize(s.as_str()) {
                Some(c) => c,
                None => {
                    return Err(config_error("MC_RETENTION_COUNT is not a valid count"));
                },
            },
            None => 3,
        };
        let backup_temp_dir = match backup_temp_dir {
            Some(d) => d,
            None => String::from_str("/tmp/db-backup-goog"),
        };
        let db_host = match db_host {
            Some(v) => v,
            None => {
                return Err(config_error("DB_HOST is not set"));
            },
        };
        let db_username = match db_username {
            Some(v) => v,
            None => {
                return Err(config_error("DB_USERNAME is not set"));
            },
        };
        let db_password = match db_password {
            Some(v) => v,
            None => {
                return Err(config_error("DB_PASSWORD is not set"));
            },
        };
        let db_name = match db_name {
            Some(v) => v,
            None => {
                return Err(config_error("DB_NAME is not set"));
            },
        };
        let minecraft_server_path = match minecraft_server_path {
            Some(v) => v,
            None => {
                return Err(config_error("MINECRAFT_SERVER_PATH is not set"));
            },
        };
        let google_credentials_path = match google_credentials_path {
            Some(v) => v,
            None => {
                return Err(config_error("GOOGLE_CREDENTIALS_PATH is not set"));
            },
        };
        let google_drive_folder_id = match google_drive_folder_id {
            Some(v) => v,
            None => {
                return Err(config_error("GOOGLE_DRIVE_FOLDER_ID is not set"));
            },
        };
        Ok(
            Config {
                db_host,
                db_username,
                db_password,
                db_name,
                db_port,
                minecraft_server_path,
                backup_temp_dir,
                mc_retention_count,
                google_credentials_path,
                google_drive_folder_id,
            },
        )
    }
}

} // verus!
