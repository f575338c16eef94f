use vstd::prelude::*;

use crate::artifact::BackupKind;
use crate::clock::format_timestamp;
use crate::clock::now_parts;
use crate::clock::timestamp_chars;
use crate::clock::DateParts;

verus! {

/// Name of a database artifact: `db_{database}_{stamp}.dump`.
pub open spec fn db_filename_chars(db_name: Seq<char>, stamp: Seq<char>) -> Seq<char> {
    "db_"@ + db_name + "_"@ + stamp + ".dump"@
}

/// Name of a directory-tree artifact: `minecraft_{stamp}.tar.zst`.
pub open spec fn minecraft_filename_chars(stamp: Seq<char>) -> Seq<char> {
    "minecraft_"@ + stamp + ".tar.zst"@
}

/// A directory path joined with a file name: one separator between them,
/// none doubled when the directory already ends with one.
pub open spec fn joined_path_chars(dir: Seq<char>, file: Seq<char>) -> Seq<char> {
    if dir.len() == 0 {
        file
    } else if dir.last() == '/' {
        dir + file
    } else {
        dir + "/"@ + file
    }
}

pub fn db_artifact_filename(db_name: &str, stamp: &str) -> (r: String)
    ensures
        r@ == db_filename_chars(db_name@, stamp@),
{
    let mut s = String::from_str("db_");
    s.append(db_name);
    s.append("_");
    s.append(stamp);
    s.append(".dump");
    proof {
        assert(s@ =~= db_filename_chars(db_name@, stamp@));
    }
    s
}

pub fn minecraft_artifact_filename(stamp: &str) -> (r: String)
    ensures
        r@ == minecraft_filename_chars(stamp@),
{
    let mut s = String::from_str("minecraft_");
    s.append(stamp);
    s.append(".tar.zst");
    proof {
        assert(s@ =~= minecraft_filename_chars(stamp@));
    }
    s
}

/// The artifact name one kind writes under the temp directory: the database
/// name rides only in database artifacts.
pub open spec fn artifact_filename_chars(
    kind: BackupKind,
    db_name: Seq<char>,
    stamp: Seq<char>,
) -> Seq<char> {
    match kind {
        BackupKind::Database => db_filename_chars(db_name, stamp),
        BackupKind::Directory => minecraft_filename_chars(stamp),
    }
}

/// The full local path one produced artifact is written to, from the kind,
/// the database name, the configured temp directory and the clock reading.
pub fn artifact_output_path(
    kind: BackupKind,
    db_name: &str,
    temp_dir: &str,
    parts: &DateParts,
) -> (r: String)
    ensures
        r@ == joined_path_chars(
            temp_dir@,
            artifact_filename_chars(kind, db_name@, timestamp_chars(*parts)),
        ),
{
    let stamp = format_timestamp(parts);
    let filename = match kind {
        BackupKind::Database => db_artifact_filename(db_name, stamp.as_str()),
        BackupKind::Directory => minecraft_artifact_filename(stamp.as_str()),
    };
    join_path(temp_dir, filename.as_str())
}

/// Read the clock and name the artifact one production run writes: the
/// clock reading and the full local output path it determines. `None` only
/// when the current year does not fit the calendar representation.
pub fn current_artifact_path(kind: BackupKind, db_name: &str, temp_dir: &str) -> (r: Option<
    (DateParts, String),
>)
    ensures
        r matches Some(stamped) ==> stamped.0.wf() && stamped.1@ == joined_path_chars(
            temp_dir@,
            artifact_filename_chars(kind, db_name@, timestamp_chars(stamped.0)),
        ),
{
    match now_parts() {
        Some(parts) => {
            let path = artifact_output_path(kind, db_name, temp_dir, &parts);
            Some((parts, path))
        },
        None => None,
    }
}

pub fn join_path(dir: &str, file: &str) -> (r: String)
    ensures
        r@ == joined_path_chars(dir@, file@),
{
    let n = dir.unicode_len();
    if n == 0 {
        file.to_owned()
    } else {
        let last = dir.get_char(n - 1);
        let mut s = dir.to_owned();
        if last == '/' {
            s.append(file);
        } else {
            s.append("/");
            s.append(file);
        }
        proof {
            assert(s@ =~= joined_path_chars(dir@, file@));
        }
        s
    }
}

} // verus!
