use vstd::prelude::*;

verus! {

/// The failure taxonomy of the pipeline. Every stage reports its failure as
/// one of these variants; the payload carries the human-readable detail.
#[derive(Debug)]
pub enum BackupError {
    /// A required setting is missing or invalid; fatal before any work begins.
    Configuration(String),
    /// The external dump tool failed to spawn, exited non-zero, or left no output.
    ExternalTool(String),
    /// The tree walk or a compression stage of the archiver failed.
    ArchiveBuild(String),
    /// The credential was unreadable, unparsable, or rejected.
    Authentication(String),
    /// A remote list or search call failed.
    RemoteQuery(String),
    /// A remote create, upload, or delete call failed.
    RemoteWrite(String),
    /// A stat or remove of a local temp artifact failed.
    LocalIO(String),
}

/// The variant of a `BackupError`, without its message.
#[derive(Clone, Copy, Debug, PartialEq, Eq, Structural)]
pub enum ErrorKind {
    Configuration,
    ExternalTool,
    ArchiveBuild,
    Authentication,
    RemoteQuery,
    RemoteWrite,
    LocalIO,
}

impl BackupError {
    pub open spec fn kind_spec(&self) -> ErrorKind {
        match self {
            BackupError::Configuration(_) => ErrorKind::Configuration,
            BackupError::ExternalTool(_) => ErrorKind::ExternalTool,
            BackupError::ArchiveBuild(_) => ErrorKind::ArchiveBuild,
            BackupError::Authentication(_) => ErrorKind::Authentication,
            BackupError::RemoteQuery(_) => ErrorKind::RemoteQuery,
            BackupError::RemoteWrite(_) => ErrorKind::RemoteWrite,
            BackupError::LocalIO(_) => ErrorKind::LocalIO,
        }
    }

    pub open spec fn message_spec(&self) -> Seq<char> {
        match self {
            BackupError::Configuration(m) => m@,
            BackupError::ExternalTool(m) => m@,
            BackupError::ArchiveBuild(m) => m@,
            BackupError::Authentication(m) => m@,
            BackupError::RemoteQuery(m) => m@,
            BackupError::RemoteWrite(m) => m@,
            BackupError::LocalIO(m) => m@,
        }
    }

    pub fn kind(&self) -> (k: ErrorKind)
        ensures
            k == self.kind_spec(),
    {
        match self {
            BackupError::Configuration(_) => ErrorKind::Configuration,
            BackupError::ExternalTool(_) => ErrorKind::ExternalTool,
            BackupError::ArchiveBuild(_) => ErrorKind::ArchiveBuild,
            BackupError::Authentication(_) => ErrorKind::Authentication,
            BackupError::RemoteQuery(_) => ErrorKind::RemoteQuery,
            BackupError::RemoteWrite(_) => ErrorKind::RemoteWrite,
            BackupError::LocalIO(_) => ErrorKind::LocalIO,
        }
    }

    /// The diagnostic detail the failing stage recorded.
    pub fn message(&self) -> (m: &String)
        ensures
            m@ == self.message_spec(),
    {
        match self {
            BackupError::Configuration(m) => m,
            BackupError::ExternalTool(m) => m,
            BackupError::ArchiveBuild(m) => m,
            BackupError::Authentication(m) => m,
            BackupError::RemoteQuery(m) => m,
            BackupError::RemoteWrite(m) => m,
            BackupError::LocalIO(m) => m,
        }
    }
}

/// The error an unusable credential or a rejected token exchange reports.
pub fn authentication_failure(detail: &str) -> (r: BackupError)
    ensures
        r.kind_spec() == ErrorKind::Authentication,
        r.message_spec() == "authentication failed: "@ + detail@,
{
    let mut m = String::from_str("authentication failed: ");
    m.append(detail);
    proof {
        assert(m@ =~= "authentication failed: "@ + detail@);
    }
    BackupError::Authentication(m)
}

} // verus!
