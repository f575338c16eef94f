use vstd::prelude::*;

verus! {

/// How one character is written inside a single-quoted remote query string:
/// backslashes and single quotes get a backslash in front, so that no
/// requested name can break out of the quotes (query injection).
pub open spec fn escape_one(c: char) -> Seq<char> {
    if c == '\\' {
        seq!['\\', '\\']
    } else if c == '\'' {
        seq!['\\', c]
    } else {
        seq![c]
    }
}

/// A value escaped for embedding between single quotes in a remote query.
pub open spec fn escaped_query_chars(s: Seq<char>) -> Seq<char>
    decreases s.len(),
{
    if s.len() == 0 {
        Seq::<char>::empty()
    } else {
        escaped_query_chars(s.drop_last()) + escape_one(s.last())
    }
}

/// Escape every character of `s` that is meaningful to the remote query
/// syntax, before it is embedded between single quotes.
pub fn escape_query_value(s: &str) -> (r: String)
    ensures
        r@ == escaped_query_chars(s@),
{
    let n = s.unicode_len();
    let mut r = String::new();
    let mut i: usize = 0;
    while i < n
        invariant
            n == s@.len(),
            0 <= i <= n,
            r@ == escaped_query_chars(s@.take(i as int)),
        decreases n - i,
    {
        let c = s.get_char(i);
        if c == '\\' {
            r.push('\\');
            r.push('\\');
        } else if c == '\'' {
            r.push('\\');
            r.push('\'');
        } else {
            r.push(c);
        }
        proof {
            assert(s@.take(i + 1).drop_last() =~= s@.take(i as int));
            assert(s@.take(i + 1).last() == s@[i as int]);
            assert(r@ =~= escaped_query_chars(s@.take(i as int)) + escape_one(s@[i as int]));
        }
        i = i + 1;
    }
    proof {
        assert(s@.take(n as int) =~= s@);
    }
    r
}

/// In an escaped value every single quote is immediately preceded by a
/// backslash, so no character of the requested name can close the single
/// quotes it is embedded between.
pub proof fn lemma_escaped_quotes_guarded(s: Seq<char>)
    ensures
        forall|i: int|
            0 <= i < escaped_query_chars(s).len() && #[trigger] escaped_query_chars(s)[i] == '\''
                ==> i > 0 && escaped_query_chars(s)[i - 1] == '\\',
    decreases s.len(),
{
    if s.len() > 0 {
        lemma_escaped_quotes_guarded(s.drop_last());
        let pre = escaped_query_chars(s.drop_last());
        let tail = escape_one(s.last());
        let whole = escaped_query_chars(s);
        assert(whole == pre + tail);
        assert forall|i: int| 0 <= i < whole.len() && #[trigger] whole[i] == '\'' implies i > 0
            && whole[i - 1] == '\\' by {
            if i < pre.len() {
                assert(whole[i] == pre[i]);
                assert(whole[i - 1] == pre[i - 1]);
            } else {
                let j = i - pre.len();
                assert(whole[i] == tail[j]);
                if s.last() == '\\' {
                    assert(tail[j] != '\'');
                } else if s.last() == '\'' {
                    assert(j == 1);
                    assert(whole[i - 1] == tail[0]);
                } else {
                    assert(tail[j] == s.last() && s.last() != '\'');
                }
            }
        }
    }
}

/// The query that searches a parent for one non-trashed folder by exact,
/// already-escaped name.
pub open spec fn folder_search_query_chars(escaped_name: Seq<char>, parent_id: Seq<char>) -> Seq<
    char,
> {
    "name = '"@ + escaped_name + "' and '"@ + parent_id
        + "' in parents and mimeType = 'application/vnd.google-apps.folder' and trashed = false"@
}

/// The query that lists the non-trashed, non-folder entries of one folder.
pub open spec fn list_files_query_chars(folder_id: Seq<char>) -> Seq<char> {
    "'"@ + folder_id
        + "' in parents and trashed = false and mimeType != 'application/vnd.google-apps.folder'"@
}

/// Build the folder-search query for a requested (raw, unescaped) name under
/// a parent folder id.
pub fn folder_search_query(name: &str, parent_id: &str) -> (r: String)
    ensures
        r@ == folder_search_query_chars(escaped_query_chars(name@), parent_id@),
{
    let escaped = escape_query_value(name);
    let mut s = String::from_str("name = '");
    s.append(escaped.as_str());
    s.append("' and '");
    s.append(parent_id);
    s.append(
        "' in parents and mimeType = 'application/vnd.google-apps.folder' and trashed = false",
    );
    proof {
        assert(s@ =~= folder_search_query_chars(escaped_query_chars(name@), parent_id@));
    }
    s
}

/// Build the listing query for one folder id.
pub fn list_files_query(folder_id: &str) -> (r: String)
    ensures
        r@ == list_files_query_chars(folder_id@),
{
    let mut s = String::from_str("'");
    s.append(folder_id);
    s.append(
        "' in parents and trashed = false and mimeType != 'application/vnd.google-apps.folder'",
    );
    proof {
        assert(s@ =~= list_files_query_chars(folder_id@));
    }
    s
}

} // verus!
