use vstd::prelude::*;

verus! {

/// An uploaded object as seen through a remote listing: only the projected
/// fields (id, name, creation time) are ever read. The remote store may omit
/// any of them, so each is optional. Creation time is carried as milliseconds
/// since the epoch.
#[derive(Debug, PartialEq, Eq)]
pub struct RemoteFile {
    pub id: Option<String>,
    pub name: Option<String>,
    pub created_time_millis: Option<i64>,
}

impl Clone for RemoteFile {
    fn clone(&self) -> (res: Self)
        ensures
            res == *self,
    {
        RemoteFile {
            id: clone_opt_string(&self.id),
            name: clone_opt_string(&self.name),
            created_time_millis: self.created_time_millis,
        }
    }
}

impl RemoteFile {
    /// Whether the listing reported a creation time for this entry.
    pub open spec fn has_time(&self) -> bool {
        self.created_time_millis is Some
    }

    /// The reported creation time, or the epoch when the store omitted it.
    pub open spec fn time_of(&self) -> int {
        match self.created_time_millis {
            Some(t) => t as int,
            None => 0,
        }
    }
}

fn clone_opt_string(s: &Option<String>) -> (res: Option<String>)
    ensures
        res == *s,
{
    match s {
        Some(v) => Some(v.clone()),
        None => None,
    }
}

/// A folder in the remote namespace: resolved or created once per run.
pub struct RemoteFolder {
    pub id: String,
    pub name: String,
    pub parent_id: String,
}

} // verus!
