use vstd::prelude::*;

use crate::errors::BackupError;
use crate::errors::ErrorKind;

verus! {

/// The MIME type of the remote body, declared so it can ride through the
/// library's upload plan.
#[verifier::external_type_specification]
#[verifier::external_body]
pub struct ExMime(mime::Mime);

/// Relies on `str::parse::<mime::Mime>` accepting `application/octet-stream`,
/// the essence every artifact upload is sent with.
#[verifier::external_body]
pub(crate) fn octet_stream_mime() -> mime::Mime {
    "application/octet-stream".parse().unwrap()
}

/// Relies on `str::parse::<mime::Mime>` accepting
/// `application/vnd.google-apps.folder`, the type a folder is created with.
#[verifier::external_body]
pub(crate) fn folder_mime() -> mime::Mime {
    "application/vnd.google-apps.folder".parse().unwrap()
}

/// The characters after the last path separator.
pub open spec fn after_last_slash(s: Seq<char>) -> Seq<char>
    decreases s.len(),
{
    if s.len() == 0 {
        Seq::<char>::empty()
    } else if s.last() == '/' {
        Seq::<char>::empty()
    } else {
        after_last_slash(s.drop_last()) + seq![s.last()]
    }
}

/// When a trailing path component can serve as a display name: non-empty and
/// not one of the relative-reference components.
pub open spec fn is_usable_name(n: Seq<char>) -> bool {
    &&& n.len() > 0
    &&& n != seq!['.']
    &&& n != seq!['.', '.']
}

/// The display name a local path determines: its component after the last
/// separator. `None` when the path ends in a separator, is empty, or ends in
/// a relative-reference component.
pub fn file_name_of_path(path: &str) -> (r: Option<String>)
    ensures
        r matches Some(n) ==> n@ == after_last_slash(path@) && is_usable_name(after_last_slash(path@)),
        r is None ==> !is_usable_name(after_last_slash(path@)),
{
    let n = path.unicode_len();
    let mut name = String::new();
    let mut i: usize = 0;
    while i < n
        invariant
            n == path@.len(),
            0 <= i <= n,
            name@ == after_last_slash(path@.take(i as int)),
        decreases n - i,
    {
        let c = path.get_char(i);
        proof {
            assert(path@.take(i + 1).drop_last() =~= path@.take(i as int));
            assert(path@.take(i + 1).last() == path@[i as int]);
        }
        if c == '/' {
            name = String::new();
        } else {
            name.push(c);
            proof {
                assert(name@ =~= after_last_slash(path@.take(i as int)) + seq![path@[i as int]]);
            }
        }
        i = i + 1;
    }
    proof {
        assert(path@.take(n as int) =~= path@);
    }
    let len = name.as_str().unicode_len();
    if len == 0 {
        return None;
    }
    if len == 1 && name.as_str().get_char(0) == '.' {
        proof {
            assert(name@ =~= seq!['.']);
        }
        return None;
    }
    if len == 2 && name.as_str().get_char(0) == '.' && name.as_str().get_char(1) == '.' {
        proof {
            assert(name@ =~= seq!['.', '.']);
        }
        return None;
    }
    proof {
        assert(name@ != seq!['.'] && name@ != seq!['.', '.']) by {
            if name@ == seq!['.'] {
                assert(name@.len() == 1 && name@[0] == '.');
            }
            if name@ == seq!['.', '.'] {
                assert(name@.len() == 2 && name@[0] == '.' && name@[1] == '.');
            }
        }
    }
    Some(name)
}

/// Everything a resumable upload is issued with: the display name resolved
/// from the local path, the folder the object lands in, the exact local byte
/// length, and the body type.
pub struct UploadRequest {
    pub file_name: String,
    pub parent_folder_id: String,
    pub size_bytes: u64,
    pub body_type: mime::Mime,
}

/// Assemble the upload request for a local artifact, from its path, the
/// destination folder, and the result of stat-ing it (`None` when the file
/// could not be stat-ed). Fails exactly when the path determines no display
/// name or the stat failed.
pub fn plan_upload(path: &str, folder_id: &str, stat_size: Option<u64>) -> (r: Result<
    UploadRequest,
    BackupError,
>)
    ensures
        is_usable_name(after_last_slash(path@)) && stat_size is Some ==> r is Ok,
        r matches Ok(req) ==> is_usable_name(after_last_slash(path@)) && req.file_name@
            == after_last_slash(path@) && req.parent_folder_id@ == folder_id@ && (
        stat_size matches Some(sz) && req.size_bytes == sz),
        !is_usable_name(after_last_slash(path@)) ==> (r matches Err(e) && e.kind_spec()
            == ErrorKind::LocalIO && e.message_spec() == "cannot determine a file name from path: "@
            + path@),
        is_usable_name(after_last_slash(path@)) && stat_size is None ==> (r matches Err(e)
            && e.kind_spec() == ErrorKind::LocalIO && e.message_spec()
            == "failed to stat file for upload: "@ + path@),
{
    let file_name = match file_name_of_path(path) {
        Some(n) => n,
        None => {
            let mut m = String::from_str("cannot determine a file name from path: ");
            m.append(path);
            proof {
                assert(m@ =~= "cannot determine a file name from path: "@ + path@);
            }
            return Err(BackupError::LocalIO(m));
        },
    };
    let size_bytes = match stat_size {
        Some(sz) => sz,
        None => {
            let mut m = String::from_str("failed to stat file for upload: ");
            m.append(path);
            proof {
                assert(m@ =~= "failed to stat file for upload: "@ + path@);
            }
            return Err(BackupError::LocalIO(m));
        },
    };
    Ok(
        UploadRequest {
            file_name,
            parent_folder_id: folder_id.to_owned(),
            size_bytes,
            body_type: octet_stream_mime(),
        },
    )
}

/// The error an upload that produced no usable remote object reports.
pub fn upload_failure(file_name: &str, detail: &str) -> (r: BackupError)
    ensures
        r.kind_spec() == ErrorKind::RemoteWrite,
        r.message_spec() == "failed to upload '"@ + file_name@ + "': "@ + detail@,
{
    let mut m = String::from_str("failed to upload '");
    m.append(file_name);
    m.append("': ");
    m.append(detail);
    proof {
        assert(m@ =~= "failed to upload '"@ + file_name@ + "': "@ + detail@);
    }
    BackupError::RemoteWrite(m)
}

} // verus!
