use vstd::prelude::*;

use crate::errors::BackupError;
use crate::errors::ErrorKind;
use crate::prune::sorted_newest_first;
use crate::remote::RemoteFile;

verus! {

/// Fixed page size every listing request asks the remote store for.
pub const LIST_PAGE_SIZE: i32 = 1000;

/// The state of one paginated listing: the entries gathered so far, the
/// continuation cursor to send with the next request, and whether the server
/// has said there is nothing more.
pub struct ListAccumulator {
    pub files: Vec<RemoteFile>,
    pub next_token: Option<String>,
    pub finished: bool,
}

/// A continuation cursor means more pages only when it is present and
/// non-empty.
pub open spec fn token_continues(token: Option<String>) -> bool {
    match token {
        Some(t) => t@.len() > 0,
        None => false,
    }
}

impl ListAccumulator {
    pub fn new() -> (r: Self)
        ensures
            r.files@ == Seq::<RemoteFile>::empty(),
            r.next_token is None,
            !r.finished,
    {
        let r = ListAccumulator { files: Vec::new(), next_token: None, finished: false };
        proof {
            assert(r.files@ =~= Seq::<RemoteFile>::empty());
        }
        r
    }

    /// Take in one page of results and the server's continuation cursor.
    /// Every received entry is appended, in order, after everything gathered
    /// before; the listing goes on exactly while the cursor is present and
    /// non-empty.
    pub fn absorb_page(&mut self, page: Vec<RemoteFile>, token: Option<String>)
        requires
            !old(self).finished,
        ensures
            final(self).files@ == old(self).files@ + page@,
            final(self).finished == !token_continues(token),
            token_continues(token) ==> final(self).next_token == token,
            !token_continues(token) ==> final(self).next_token is None,
    {
        let ghost before = self.files@;
        let ghost page_snapshot = page@;
        let mut page = page;
        self.files.append(&mut page);
        proof {
            assert(self.files@ =~= before + page_snapshot);
        }
        let continues = match &token {
            Some(t) => !t.as_str().is_empty(),
            None => false,
        };
        if continues {
            self.next_token = token;
        } else {
            self.next_token = None;
            self.finished = true;
        }
    }
}

/// The error a failed listing call reports.
pub fn listing_failure(folder_id: &str, detail: &str) -> (r: BackupError)
    ensures
        r.kind_spec() == ErrorKind::RemoteQuery,
        r.message_spec() == "failed to list files in folder '"@ + folder_id@ + "': "@ + detail@,
{
    let mut m = String::from_str("failed to list files in folder '");
    m.append(folder_id);
    m.append("': ");
    m.append(detail);
    proof {
        assert(m@ =~= "failed to list files in folder '"@ + folder_id@ + "': "@ + detail@);
    }
    BackupError::RemoteQuery(m)
}

/// The whole listing a run of pages amounts to: every page's entries, in
/// page order — nothing dropped, nothing repeated.
pub open spec fn flatten_pages(pages: Seq<Seq<RemoteFile>>) -> Seq<RemoteFile>
    decreases pages.len(),
{
    if pages.len() == 0 {
        Seq::<RemoteFile>::empty()
    } else {
        flatten_pages(pages.drop_last()) + pages.last()
    }
}

/// The last entry of a flattened run of pages is the last entry of some
/// non-empty page.
proof fn lemma_flatten_last(pages: Seq<Seq<RemoteFile>>)
    requires
        flatten_pages(pages).len() > 0,
    ensures
        exists|k: int|
            0 <= k < pages.len() && pages[k].len() > 0 && flatten_pages(pages).last() == pages[k].last(),
    decreases pages.len(),
{
    let flat = flatten_pages(pages);
    if pages.last().len() > 0 {
        assert(flat.last() == pages.last().last());
        assert(pages[pages.len() - 1].len() > 0 && flat.last() == pages[pages.len() - 1].last());
    } else {
        assert(flat =~= flatten_pages(pages.drop_last()));
        lemma_flatten_last(pages.drop_last());
        let k = choose|k: int|
            0 <= k < pages.drop_last().len() && pages.drop_last()[k].len() > 0 && flatten_pages(
                pages.drop_last(),
            ).last() == pages.drop_last()[k].last();
        assert(pages[k].len() > 0 && flat.last() == pages[k].last());
    }
}

/// Gathering one more page keeps the accumulated listing newest-first, as
/// long as the page itself is ordered and starts no newer than the last entry
/// gathered so far.
pub proof fn lemma_absorb_keeps_order(acc: Seq<RemoteFile>, page: Seq<RemoteFile>)
    requires
        sorted_newest_first(acc),
        sorted_newest_first(page),
        acc.len() > 0 && page.len() > 0 ==> acc.last().time_of() >= page[0].time_of(),
    ensures
        sorted_newest_first(acc + page),
{
    let whole = acc + page;
    assert forall|i: int, j: int| 0 <= i <= j < whole.len() implies whole[i].time_of()
        >= whole[j].time_of() by {
        if j < acc.len() {
            assert(whole[i] == acc[i] && whole[j] == acc[j]);
        } else if i >= acc.len() {
            assert(whole[i] == page[i - acc.len()] && whole[j] == page[j - acc.len()]);
        } else {
            assert(whole[i] == acc[i] && whole[j] == page[j - acc.len()]);
            assert(acc[i].time_of() >= acc.last().time_of());
            assert(page[0].time_of() >= page[j - acc.len()].time_of());
        }
    }
}

/// A listing gathered across any number of pages is complete and ordered:
/// it is exactly the pages' entries in page order, and when every page is
/// newest-first and no entry of a later page is newer than the tail of an
/// earlier non-empty page, the whole accumulated listing is newest-first.
pub proof fn lemma_multi_page_listing_order(pages: Seq<Seq<RemoteFile>>)
    requires
        forall|k: int| 0 <= k < pages.len() ==> sorted_newest_first(#[trigger] pages[k]),
        forall|k: int, l: int|
            0 <= k < l < pages.len() && pages[k].len() > 0 && pages[l].len() > 0
                ==> (#[trigger] pages[k]).last().time_of() >= (#[trigger] pages[l])[0].time_of(),
    ensures
        sorted_newest_first(flatten_pages(pages)),
    decreases pages.len(),
{
    if pages.len() == 0 {
        assert(sorted_newest_first(flatten_pages(pages)));
    } else {
        let front = pages.drop_last();
        lemma_multi_page_listing_order(front);
        let flat_front = flatten_pages(front);
        if flat_front.len() > 0 && pages.last().len() > 0 {
            lemma_flatten_last(front);
            let k = choose|k: int|
                0 <= k < front.len() && front[k].len() > 0 && flat_front.last() == front[k].last();
            assert(pages[k] == front[k]);
            assert(pages[k].last().time_of() >= pages[pages.len() - 1][0].time_of());
        }
        lemma_absorb_keeps_order(flat_front, pages.last());
    }
}

} // verus!
