use vstd::prelude::*;

use crate::remote::RemoteFile;

verus! {

/// The entries a prune pass targets for deletion: everything at ordinal
/// position `keep` and beyond (0-indexed) in the newest-first listing.
pub open spec fn prune_target_seq(files: Seq<RemoteFile>, keep: int) -> Seq<RemoteFile> {
    if files.len() <= keep {
        Seq::<RemoteFile>::empty()
    } else {
        files.skip(keep)
    }
}

/// The entries a prune pass retains: the first `keep` of the newest-first
/// listing (all of them when the listing is no longer than `keep`).
pub open spec fn kept_seq(files: Seq<RemoteFile>, keep: int) -> Seq<RemoteFile> {
    if files.len() <= keep {
        files
    } else {
        files.take(keep)
    }
}

/// Newest-first ordering: creation times never increase along the sequence.
pub open spec fn sorted_newest_first(files: Seq<RemoteFile>) -> bool {
    forall|i: int, j: int|
        0 <= i <= j < files.len() ==> files[i].time_of() >= files[j].time_of()
}

/// No two entries share a creation time.
pub open spec fn distinct_times(files: Seq<RemoteFile>) -> bool {
    forall|i: int, j: int|
        0 <= i < j < files.len() ==> files[i].time_of() != files[j].time_of()
}

/// Split a newest-first listing at the retention boundary, returning the
/// deletion targets. When the listing holds no more than `keep` entries,
/// nothing is targeted.
pub fn prune_targets(files: Vec<RemoteFile>, keep: usize) -> (r: Vec<RemoteFile>)
    ensures
        r@ == prune_target_seq(files@, keep as int),
{
    let ghost orig = files@;
    let mut files = files;
    if files.len() <= keep {
        let r: Vec<RemoteFile> = Vec::new();
        proof {
            assert(r@ =~= prune_target_seq(orig, keep as int));
        }
        r
    } else {
        let tail = files.split_off(keep);
        proof {
            assert(tail@ =~= prune_target_seq(orig, keep as int));
        }
        tail
    }
}

/// The id a prune target is deleted by. `None` for a listed entry that
/// carries no identifier: such an entry is skipped with a warning, never
/// treated as fatal, so the rest of the batch can proceed.
pub fn deletion_id(file: &RemoteFile) -> (r: Option<String>)
    ensures
        r == file.id,
{
    match &file.id {
        Some(id) => Some(id.clone()),
        None => None,
    }
}

/// How many `true` entries a sequence of per-deletion outcomes holds.
pub open spec fn count_true(s: Seq<bool>) -> int
    decreases s.len(),
{
    if s.len() == 0 {
        0
    } else {
        count_true(s.drop_last()) + if s.last() {
            1int
        } else {
            0int
        }
    }
}

pub proof fn lemma_count_true_le_len(s: Seq<bool>)
    ensures
        0 <= count_true(s) <= s.len(),
    decreases s.len(),
{
    if s.len() > 0 {
        lemma_count_true_le_len(s.drop_last());
    }
}

/// The deleted-count a prune pass reports: only the successful deletions
/// among the attempted ones are counted.
pub fn count_successes(outcomes: &Vec<bool>) -> (r: u32)
    requires
        outcomes@.len() <= u32::MAX,
    ensures
        r == count_true(outcomes@),
{
    proof {
        lemma_count_true_le_len(outcomes@);
    }
    let mut r: u32 = 0;
    let mut i: usize = 0;
    while i < outcomes.len()
        invariant
            0 <= i <= outcomes@.len(),
            outcomes@.len() <= u32::MAX,
            r == count_true(outcomes@.take(i as int)),
        decreases outcomes@.len() - i,
    {
        proof {
            lemma_count_true_le_len(outcomes@.take(i as int));
            assert(outcomes@.take(i + 1).drop_last() =~= outcomes@.take(i as int));
            assert(outcomes@.take(i + 1).last() == outcomes@[i as int]);
        }
        if outcomes[i] {
            r = r + 1;
        }
        i = i + 1;
    }
    proof {
        assert(outcomes@.take(outcomes@.len() as int) =~= outcomes@);
    }
    r
}

/// Absent deletion failures, the reported deleted-count is the full target
/// count: a tally of all-successful outcomes counts every one of them.
pub proof fn lemma_all_successes_counted(outcomes: Seq<bool>)
    requires
        forall|i: int| 0 <= i < outcomes.len() ==> outcomes[i],
    ensures
        count_true(outcomes) == outcomes.len(),
    decreases outcomes.len(),
{
    if outcomes.len() > 0 {
        lemma_all_successes_counted(outcomes.drop_last());
    }
}

/// Pruning attempts exactly `max(0, N - K)` deletions: the target count of a
/// listing of `N` entries with keep-count `K`.
pub proof fn lemma_prune_attempt_count(files: Seq<RemoteFile>, keep: int)
    requires
        0 <= keep,
    ensures
        prune_target_seq(files, keep).len() == if files.len() <= keep {
            0int
        } else {
            files.len() - keep
        },
{
}

/// When the keep-count covers the whole listing, pruning targets nothing and
/// retains everything.
pub proof fn lemma_no_deletions_when_keep_covers(files: Seq<RemoteFile>, keep: int)
    requires
        files.len() <= keep,
    ensures
        prune_target_seq(files, keep) == Seq::<RemoteFile>::empty(),
        kept_seq(files, keep) == files,
{
}

/// For a newest-first listing with pairwise-distinct creation times, the
/// retained entries are exactly the `keep` newest: every retained entry is
/// strictly newer than every deletion target, and together they make up the
/// whole listing in its original order.
pub proof fn lemma_prune_keeps_newest(files: Seq<RemoteFile>, keep: int)
    requires
        0 <= keep,
        sorted_newest_first(files),
        distinct_times(files),
    ensures
        kept_seq(files, keep) + prune_target_seq(files, keep) == files,
        forall|i: int, j: int|
            0 <= i < kept_seq(files, keep).len() && 0 <= j < prune_target_seq(
                files,
                keep,
            ).len() ==> kept_seq(files, keep)[i].time_of() > prune_target_seq(
                files,
                keep,
            )[j].time_of(),
{
    assert(kept_seq(files, keep) + prune_target_seq(files, keep) =~= files);
    assert forall|i: int, j: int|
        0 <= i < kept_seq(files, keep).len() && 0 <= j < prune_target_seq(files, keep).len()
        implies kept_seq(files, keep)[i].time_of() > prune_target_seq(files, keep)[j].time_of() by {
        let jj = keep + j;
        assert(kept_seq(files, keep)[i] == files[i]);
        assert(prune_target_seq(files, keep)[j] == files[jj]);
        assert(files[i].time_of() >= files[jj].time_of());
        assert(files[i].time_of() != files[jj].time_of());
    }
}

} // verus!
