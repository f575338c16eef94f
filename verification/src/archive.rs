use vstd::prelude::*;

use crate::artifact::ArchiveArtifact;
use crate::artifact::BackupKind;
use crate::clock::DateParts;
use crate::errors::BackupError;
use crate::errors::ErrorKind;

verus! {

/// One node of the source tree, as the depth-first walk hands it to the
/// archive builder. A symlink node carries the recorded target path only;
/// whatever the target holds is not part of the node.
#[derive(Debug, PartialEq, Eq)]
pub enum TreeNode {
    File { path: String, contents: Vec<u8> },
    Dir { path: String },
    Symlink { path: String, target: String },
}

/// One record written into the archive. Only a regular-file record carries
/// payload bytes; a symlink record holds nothing but its path and the target
/// path it points to.
#[derive(Debug, PartialEq, Eq)]
pub enum ArchiveEntry {
    FileEntry { path: String, contents: Vec<u8> },
    DirEntry { path: String },
    SymlinkEntry { path: String, target: String },
}

/// The record the archiver writes for one tree node. Symlinks are never
/// followed: the node becomes a symlink record pointing at its recorded
/// target, never the target's content. This keeps the walk inside the source
/// tree and keeps self-referential links from blowing the archive up.
pub open spec fn entry_record(n: TreeNode) -> ArchiveEntry {
    match n {
        TreeNode::File { path, contents } => ArchiveEntry::FileEntry { path, contents },
        TreeNode::Dir { path } => ArchiveEntry::DirEntry { path },
        TreeNode::Symlink { path, target } => ArchiveEntry::SymlinkEntry { path, target },
    }
}

/// The archive a walk of the whole tree produces: one record per node, in
/// walk order.
pub open spec fn archive_plan(tree: Seq<TreeNode>) -> Seq<ArchiveEntry> {
    tree.map_values(|n: TreeNode| entry_record(n))
}

/// The tree a full extraction of an archive restores.
pub open spec fn restored_node(e: ArchiveEntry) -> TreeNode {
    match e {
        ArchiveEntry::FileEntry { path, contents } => TreeNode::File { path, contents },
        ArchiveEntry::DirEntry { path } => TreeNode::Dir { path },
        ArchiveEntry::SymlinkEntry { path, target } => TreeNode::Symlink { path, target },
    }
}

pub open spec fn extracted_tree(entries: Seq<ArchiveEntry>) -> Seq<TreeNode> {
    entries.map_values(|e: ArchiveEntry| restored_node(e))
}

/// The payload bytes one record contributes to the archive.
pub open spec fn entry_payload(e: ArchiveEntry) -> Seq<u8> {
    match e {
        ArchiveEntry::FileEntry { path, contents } => contents@,
        ArchiveEntry::DirEntry { path } => Seq::<u8>::empty(),
        ArchiveEntry::SymlinkEntry { path, target } => Seq::<u8>::empty(),
    }
}

pub open spec fn no_symlinks(tree: Seq<TreeNode>) -> bool {
    forall|i: int| 0 <= i < tree.len() ==> !((#[trigger] tree[i]) is Symlink)
}

/// Build the archive records for a walked tree, one per node, in walk order.
pub fn plan_archive(tree: Vec<TreeNode>) -> (r: Vec<ArchiveEntry>)
    ensures
        r@ == archive_plan(tree@),
{
    let ghost orig = tree@;
    let mut tree = tree;
    let mut r: Vec<ArchiveEntry> = Vec::new();
    let ghost mut k: int = 0;
    while tree.len() > 0
        invariant
            0 <= k <= orig.len(),
            tree@ == orig.skip(k),
            r@ == archive_plan(orig.take(k)),
        decreases tree@.len(),
    {
        let node = tree.remove(0);
        proof {
            assert(node == orig[k]);
            assert(tree@ =~= orig.skip(k + 1));
        }
        let entry = match node {
            TreeNode::File { path, contents } => ArchiveEntry::FileEntry { path, contents },
            TreeNode::Dir { path } => ArchiveEntry::DirEntry { path },
            TreeNode::Symlink { path, target } => ArchiveEntry::SymlinkEntry { path, target },
        };
        r.push(entry);
        proof {
            assert(r@ =~= archive_plan(orig.take(k + 1)));
            k = k + 1;
        }
    }
    proof {
        assert(orig.take(k) =~= orig);
    }
    r
}

/// Restore the tree an archive describes, record by record.
pub fn extract_archive(entries: Vec<ArchiveEntry>) -> (r: Vec<TreeNode>)
    ensures
        r@ == extracted_tree(entries@),
{
    let ghost orig = entries@;
    let mut entries = entries;
    let mut r: Vec<TreeNode> = Vec::new();
    let ghost mut k: int = 0;
    while entries.len() > 0
        invariant
            0 <= k <= orig.len(),
            entries@ == orig.skip(k),
            r@ == extracted_tree(orig.take(k)),
        decreases entries@.len(),
    {
        let entry = entries.remove(0);
        proof {
            assert(entry == orig[k]);
            assert(entries@ =~= orig.skip(k + 1));
        }
        let node = match entry {
            ArchiveEntry::FileEntry { path, contents } => TreeNode::File { path, contents },
            ArchiveEntry::DirEntry { path } => TreeNode::Dir { path },
            ArchiveEntry::SymlinkEntry { path, target } => TreeNode::Symlink { path, target },
        };
        r.push(node);
        proof {
            assert(r@ =~= extracted_tree(orig.take(k + 1)));
            k = k + 1;
        }
    }
    proof {
        assert(orig.take(k) =~= orig);
    }
    r
}

/// For a tree with no symlinks, archiving and then fully extracting restores
/// the tree exactly: every path, every byte.
pub proof fn lemma_archive_round_trip(tree: Seq<TreeNode>)
    requires
        no_symlinks(tree),
    ensures
        extracted_tree(archive_plan(tree)) == tree,
{
    assert(extracted_tree(archive_plan(tree)) =~= tree);
}

/// A symlink node — wherever its target points, inside or outside the tree —
/// contributes only a symlink record to the archive: the same path and the
/// recorded target, and not a single payload byte.
pub proof fn lemma_symlink_never_followed(tree: Seq<TreeNode>, i: int)
    requires
        0 <= i < tree.len(),
        tree[i] is Symlink,
    ensures
        archive_plan(tree)[i] == (ArchiveEntry::SymlinkEntry {
            path: tree[i]->Symlink_path,
            target: tree[i]->Symlink_target,
        }),
        entry_payload(archive_plan(tree)[i]).len() == 0,
{
}

/// Every payload byte of the archive comes from a regular file of the tree,
/// with its bytes unchanged; no other node kind contributes any.
pub proof fn lemma_payload_only_from_files(tree: Seq<TreeNode>, i: int)
    requires
        0 <= i < tree.len(),
    ensures
        entry_payload(archive_plan(tree)[i]) == match tree[i] {
            TreeNode::File { path, contents } => contents@,
            TreeNode::Dir { path } => Seq::<u8>::empty(),
            TreeNode::Symlink { path, target } => Seq::<u8>::empty(),
        },
{
}

/// What happened to the streaming archive build: the source directory was
/// missing before any output was created, a walk or compression stage failed,
/// the dedicated worker terminated abnormally, or the pipeline finished and
/// the output file was stat-ed at its final size.
pub enum ArchiveEvent {
    SourceMissing,
    BuildFailed(String),
    TaskPanicked(String),
    Completed(u64),
}

/// What the archiver decides after the build: whether the partially written
/// output must be removed, and the reported outcome.
pub struct ArchiveDecision {
    pub remove_output: bool,
    pub result: Result<ArchiveArtifact, BackupError>,
}

/// Decide the outcome of one archive build. Any failure after the output file
/// may exist removes it and reports the originating cause; an abnormal worker
/// termination is converted into an ordinary reported failure; a missing
/// source fails before anything was written, so nothing is removed.
pub fn decide_archive(
    source_path: &String,
    output_path: &String,
    created_at: DateParts,
    event: ArchiveEvent,
) -> (r: ArchiveDecision)
    ensures
        match event {
            ArchiveEvent::SourceMissing => !r.remove_output && (r.result matches Err(e)
                && e.kind_spec() == ErrorKind::ArchiveBuild && e.message_spec()
                == "source directory does not exist: "@ + source_path@),
            ArchiveEvent::BuildFailed(m) => r.remove_output && (r.result matches Err(e)
                && e.kind_spec() == ErrorKind::ArchiveBuild && e.message_spec()
                == "failed to build archive: "@ + m@),
            ArchiveEvent::TaskPanicked(m) => r.remove_output && (r.result matches Err(e)
                && e.kind_spec() == ErrorKind::ArchiveBuild && e.message_spec()
                == "archive worker terminated abnormally: "@ + m@),
            ArchiveEvent::Completed(sz) => !r.remove_output && (r.result matches Ok(a) && a.kind
                == BackupKind::Directory && a.local_path@ == output_path@ && a.size_bytes == sz
                && a.created_at == created_at),
        },
{
    match event {
        ArchiveEvent::SourceMissing => {
            let mut msg = String::from_str("source directory does not exist: ");
            msg.append(source_path.as_str());
            proof {
                assert(msg@ =~= "source directory does not exist: "@ + source_path@);
            }
            ArchiveDecision { remove_output: false, result: Err(BackupError::ArchiveBuild(msg)) }
        },
        ArchiveEvent::BuildFailed(m) => {
            let mut msg = String::from_str("failed to build archive: ");
            msg.append(m.as_str());
            proof {
                assert(msg@ =~= "failed to build archive: "@ + m@);
            }
            ArchiveDecision { remove_output: true, result: Err(BackupError::ArchiveBuild(msg)) }
        },
        ArchiveEvent::TaskPanicked(m) => {
            let mut msg = String::from_str("archive worker terminated abnormally: ");
            msg.append(m.as_str());
            proof {
                assert(msg@ =~= "archive worker terminated abnormally: "@ + m@);
            }
            ArchiveDecision { remove_output: true, result: Err(BackupError::ArchiveBuild(msg)) }
        },
        ArchiveEvent::Completed(sz) => ArchiveDecision {
            remove_output: false,
            result: Ok(
                ArchiveArtifact {
                    kind: BackupKind::Directory,
                    local_path: output_path.clone(),
                    size_bytes: sz,
                    created_at,
                },
            ),
        },
    }
}

} // verus!
