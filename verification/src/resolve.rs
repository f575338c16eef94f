use vstd::prelude::*;

use crate::errors::BackupError;
use crate::errors::ErrorKind;
use crate::remote::RemoteFile;
use crate::upload::folder_mime;

verus! {

/// What a folder search decides: reuse the first identified match, or create
/// the folder because no usable match exists.
#[derive(Debug, PartialEq, Eq)]
pub enum FolderResolution {
    UseExisting(String),
    CreateNeeded,
}

/// The resolution a search listing determines: the first match's id when one
/// is there, otherwise a creation.
pub open spec fn resolution_of(candidates: Seq<RemoteFile>) -> FolderResolution {
    if candidates.len() == 0 {
        FolderResolution::CreateNeeded
    } else {
        match candidates[0].id {
            Some(id) => FolderResolution::UseExisting(id),
            None => FolderResolution::CreateNeeded,
        }
    }
}

/// Decide from the search results whether the destination folder already
/// exists. First match wins; a match the store returned without an id is
/// unusable, so the folder is created.
pub fn resolve_from_candidates(candidates: &Vec<RemoteFile>) -> (r: FolderResolution)
    ensures
        r == resolution_of(candidates@),
{
    if candidates.len() > 0 {
        match &candidates[0].id {
            Some(id) => FolderResolution::UseExisting(id.clone()),
            None => FolderResolution::CreateNeeded,
        }
    } else {
        FolderResolution::CreateNeeded
    }
}

/// Everything a folder creation is issued with: the requested name, the
/// folder MIME type, the one parent it is created under, and the body type
/// the (empty) creation upload is sent with.
pub struct FolderCreateRequest {
    pub name: String,
    pub mime_type: String,
    pub parent_id: String,
    pub body_type: mime::Mime,
}

/// Assemble the creation request for a new, empty folder under one parent.
pub fn plan_folder_creation(name: &str, parent_id: &str) -> (r: FolderCreateRequest)
    ensures
        r.name@ == name@,
        r.mime_type@ == "application/vnd.google-apps.folder"@,
        r.parent_id@ == parent_id@,
{
    FolderCreateRequest {
        name: name.to_owned(),
        mime_type: String::from_str("application/vnd.google-apps.folder"),
        parent_id: parent_id.to_owned(),
        body_type: folder_mime(),
    }
}

/// Accept the id of a freshly created folder. A create response that lacks
/// an id is its own fatal error, distinct from a transport failure.
pub fn accept_created_folder(name: &str, created_id: Option<String>) -> (r: Result<
    String,
    BackupError,
>)
    ensures
        created_id matches Some(id) ==> r == Result::<String, BackupError>::Ok(id),
        created_id is None ==> (r matches Err(e) && e.kind_spec() == ErrorKind::RemoteWrite
            && e.message_spec() == "created folder '"@ + name@
            + "' but the store returned no id"@),
{
    match created_id {
        Some(id) => Ok(id),
        None => {
            let mut m = String::from_str("created folder '");
            m.append(name);
            m.append("' but the store returned no id");
            proof {
                assert(m@ =~= "created folder '"@ + name@
                    + "' but the store returned no id"@);
            }
            Err(BackupError::RemoteWrite(m))
        },
    }
}

/// The error a failed folder search reports.
pub fn folder_search_failure(name: &str, detail: &str) -> (r: BackupError)
    ensures
        r.kind_spec() == ErrorKind::RemoteQuery,
        r.message_spec() == "failed to search for folder '"@ + name@ + "': "@ + detail@,
{
    let mut m = String::from_str("failed to search for folder '");
    m.append(name);
    m.append("': ");
    m.append(detail);
    proof {
        assert(m@ =~= "failed to search for folder '"@ + name@ + "': "@ + detail@);
    }
    BackupError::RemoteQuery(m)
}

/// The error a failed folder creation call reports.
pub fn folder_create_failure(name: &str, detail: &str) -> (r: BackupError)
    ensures
        r.kind_spec() == ErrorKind::RemoteWrite,
        r.message_spec() == "failed to create folder '"@ + name@ + "': "@ + detail@,
{
    let mut m = String::from_str("failed to create folder '");
    m.append(name);
    m.append("': ");
    m.append(detail);
    proof {
        assert(m@ =~= "failed to create folder '"@ + name@ + "': "@ + detail@);
    }
    BackupError::RemoteWrite(m)
}

/// Resolving a name that already has an identified match never creates a
/// second folder, and two consecutive resolutions that observe the same
/// listing return the same id.
pub proof fn lemma_resolution_idempotent(first: Seq<RemoteFile>, second: Seq<RemoteFile>)
    requires
        first == second,
        first.len() > 0,
        first[0].id is Some,
    ensures
        resolution_of(first) is UseExisting,
        resolution_of(first) == resolution_of(second),
{
}

} // verus!
