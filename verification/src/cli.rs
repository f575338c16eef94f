use vstd::prelude::*;

use crate::artifact::BackupKind;

verus! {

/// The command surface: which backups one invocation runs.
#[derive(Clone, Copy, PartialEq, Eq, Structural, Debug)]
pub enum Command {
    /// Back the database up and upload the artifact.
    Db,
    /// Back the directory tree up and upload the artifact.
    Minecraft,
    /// Run both backups, then prune old directory-tree backups.
    All,
    /// Only prune old directory-tree backups (keep the newest N).
    Prune,
}

/// One parsed invocation.
#[derive(Clone, Copy, PartialEq, Eq, Structural)]
pub struct Cli {
    pub command: Command,
}

/// The backup kinds a command produces artifacts for, in run order.
pub open spec fn kinds_of_command(cmd: Command) -> Seq<BackupKind> {
    match cmd {
        Command::Db => seq![BackupKind::Database],
        Command::Minecraft => seq![BackupKind::Directory],
        Command::All => seq![BackupKind::Database, BackupKind::Directory],
        Command::Prune => Seq::<BackupKind>::empty(),
    }
}

/// Whether a command ends with a prune of the old directory-tree backups.
pub open spec fn command_prunes(cmd: Command) -> bool {
    cmd == Command::All || cmd == Command::Prune
}

impl Command {
    /// The backup kinds this command runs, in order.
    pub fn kinds_to_run(&self) -> (r: Vec<BackupKind>)
        ensures
            r@ == kinds_of_command(*self),
    {
        let mut r: Vec<BackupKind> = Vec::new();
        match self {
            Command::Db => {
                r.push(BackupKind::Database);
            },
            Command::Minecraft => {
                r.push(BackupKind::Directory);
            },
            Command::All => {
                r.push(BackupKind::Database);
                r.push(BackupKind::Directory);
            },
            Command::Prune => {},
        }
        proof {
            assert(r@ =~= kinds_of_command(*self));
        }
        r
    }

    /// Whether this command ends with a retention prune.
    pub fn prunes(&self) -> (r: bool)
        ensures
            r == command_prunes(*self),
    {
        match self {
            Command::All => true,
            Command::Prune => true,
            _ => false,
        }
    }
}

} // verus!
