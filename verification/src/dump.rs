use vstd::prelude::*;

use crate::artifact::ArchiveArtifact;
use crate::artifact::BackupKind;
use crate::clock::dec_chars;
use crate::clock::u64_dec_string;
use crate::clock::DateParts;
use crate::errors::BackupError;
use crate::errors::ErrorKind;

verus! {

/// The exact invocation of the external database-dump tool: a fixed argument
/// set, with the credential passed through a child-process-scoped environment
/// value and never through an argument.
pub struct DumpPlan {
    pub program: String,
    pub args: Vec<String>,
    pub env_name: String,
    pub env_value: String,
}

/// The argument list the dump tool is spawned with.
pub open spec fn dump_args_model(
    host: Seq<char>,
    port: int,
    user: Seq<char>,
    db_name: Seq<char>,
    output_path: Seq<char>,
) -> Seq<Seq<char>> {
    seq![
        "--format=custom"@,
        "--host"@,
        host,
        "--port"@,
        dec_chars(port),
        "--username"@,
        user,
        "--dbname"@,
        db_name,
        "--file"@,
        output_path,
    ]
}

/// Build the dump-tool invocation from the connection settings and the
/// destination path. The password appears only as the environment value.
pub fn dump_command(
    host: &str,
    port: u16,
    user: &str,
    password: &str,
    db_name: &str,
    output_path: &str,
) -> (r: DumpPlan)
    ensures
        r.program@ == "pg_dump"@,
        r.env_name@ == "PGPASSWORD"@,
        r.env_value@ == password@,
        r.args.deep_view() == dump_args_model(host@, port as int, user@, db_name@, output_path@),
{
    let mut args: Vec<String> = Vec::new();
    args.push(String::from_str("--format=custom"));
    args.push(String::from_str("--host"));
    args.push(host.to_owned());
    args.push(String::from_str("--port"));
    args.push(u64_dec_string(port as u64));
    args.push(String::from_str("--username"));
    args.push(user.to_owned());
    args.push(String::from_str("--dbname"));
    args.push(db_name.to_owned());
    args.push(String::from_str("--file"));
    args.push(output_path.to_owned());
    proof {
        assert(args.deep_view() =~= dump_args_model(
            host@,
            port as int,
            user@,
            db_name@,
            output_path@,
        ));
    }
    DumpPlan {
        program: String::from_str("pg_dump"),
        args,
        env_name: String::from_str("PGPASSWORD"),
        env_value: password.to_owned(),
    }
}

/// What happened when the dump tool was run: it failed to spawn, it exited
/// non-zero with captured error output, or it exited zero and the destination
/// file was then stat-ed (`None` when missing or unstatable).
pub enum DumpEvent {
    SpawnFailed(String),
    ExitNonZero(String),
    Finished(Option<u64>),
}

/// What the invoker decides after the run: whether the destination file must
/// be removed, and the reported outcome.
pub struct DumpDecision {
    pub remove_output: bool,
    pub result: Result<ArchiveArtifact, BackupError>,
}

/// Decide the outcome of one dump-tool run. A non-zero exit removes the
/// destination file and reports the captured error output; a spawn failure
/// and a missing output file are fatal without a removal; only a zero exit
/// with a statable output yields an artifact. Single attempt, no retries.
pub fn decide_dump(output_path: &String, created_at: DateParts, event: DumpEvent) -> (r:
    DumpDecision)
    ensures
        match event {
            DumpEvent::SpawnFailed(m) => !r.remove_output && (r.result matches Err(e)
                && e.kind_spec() == ErrorKind::ExternalTool && e.message_spec()
                == "failed to spawn pg_dump: "@ + m@),
            DumpEvent::ExitNonZero(m) => r.remove_output && (r.result matches Err(e)
                && e.kind_spec() == ErrorKind::ExternalTool && e.message_spec()
                == "pg_dump exited with a non-zero status: "@ + m@),
            DumpEvent::Finished(size) => !r.remove_output && match size {
                Some(sz) => (r.result matches Ok(a) && a.kind == BackupKind::Database
                    && a.local_path@ == output_path@ && a.size_bytes == sz && a.created_at
                    == created_at),
                None => (r.result matches Err(e) && e.kind_spec() == ErrorKind::ExternalTool
                    && e.message_spec() == "pg_dump exited cleanly but left no output file: "@
                    + output_path@),
            },
        },
{
    match event {
        DumpEvent::SpawnFailed(m) => {
            let mut msg = String::from_str("failed to spawn pg_dump: ");
            msg.append(m.as_str());
            proof {
                assert(msg@ =~= "failed to spawn pg_dump: "@ + m@);
            }
            DumpDecision { remove_output: false, result: Err(BackupError::ExternalTool(msg)) }
        },
        DumpEvent::ExitNonZero(m) => {
            let mut msg = String::from_str("pg_dump exited with a non-zero status: ");
            msg.append(m.as_str());
            proof {
                assert(msg@ =~= "pg_dump exited with a non-zero status: "@ + m@);
            }
            DumpDecision { remove_output: true, result: Err(BackupError::ExternalTool(msg)) }
        },
        DumpEvent::Finished(size) => match size {
            Some(sz) => DumpDecision {
                remove_output: false,
                result: Ok(
                    ArchiveArtifact {
                        kind: BackupKind::Database,
                        local_path: output_path.clone(),
                        size_bytes: sz,
                        created_at,
                    },
                ),
            },
            None => {
                let mut msg = String::from_str("pg_dump exited cleanly but left no output file: ");
                msg.append(output_path.as_str());
                proof {
                    assert(msg@ =~= "pg_dump exited cleanly but left no output file: "@
                        + output_path@);
                }
                DumpDecision { remove_output: false, result: Err(BackupError::ExternalTool(msg)) }
            },
        },
    }
}

} // verus!
