//! Directory listings: one tagged display string per child, in the order
//! the directory was read, plus the sorted variant that orders the tagged
//! strings ascending.

use vstd::prelude::*;
use vstd::seq_lib::group_to_multiset_ensures;
use vstd::seq_lib::lemma_multiset_commutative;
use vstd::multiset::group_multiset_axioms;
use vstd::string::StringExecFns;
use crate::models::{GetListFileAndFolderRequest, SortOptionRequest};
use crate::response::{ApiError, FsError};
use crate::text::{lex_le, lemma_lex_le_total, lemma_lex_le_trans, str_lex_le, string_views};

verus! {

/// One child of a directory, as the I/O layer reads it: its name and
/// whether it is itself a directory.
pub struct DirEntry {
    pub name: String,
    pub is_dir: bool,
}

/// The tagged display string of a child: `[DIR] name` for a directory,
/// `[FILE] name` for anything else.
pub open spec fn tag_seq(is_dir: bool, name: Seq<char>) -> Seq<char> {
    (if is_dir {
        "[DIR] "@
    } else {
        "[FILE] "@
    }) + name
}

/// The tagged display strings of a directory's children, in order.
pub open spec fn tagged_views(entries: Seq<DirEntry>) -> Seq<Seq<char>> {
    entries.map_values(|e: DirEntry| tag_seq(e.is_dir, e.name@))
}

/// Ascending lexicographic order over a sequence of strings.
pub open spec fn sorted_lex(s: Seq<Seq<char>>) -> bool {
    forall|i: int, j: int| 0 <= i <= j < s.len() ==> lex_le(s[i], s[j])
}

/// Builds the tagged display string of one child.
pub fn tag_entry(is_dir: bool, name: &str) -> (r: String)
    ensures
        r@ == tag_seq(is_dir, name@),
{
    let mut s = if is_dir {
        "[DIR] ".to_owned()
    } else {
        "[FILE] ".to_owned()
    };
    s.append(name);
    s
}

/// Tags every child, keeping the order in which the directory was read:
/// one entry per child and no others.
pub fn tag_entries(entries: &Vec<DirEntry>) -> (items: Vec<String>)
    ensures
        string_views(items@) == tagged_views(entries@),
{
    let mut items: Vec<String> = Vec::new();
    let mut i: usize = 0;
    while i < entries.len()
        invariant
            i <= entries@.len(),
            items@.len() == i,
            forall|j: int|
                0 <= j < i ==> #[trigger] items@[j]@ == tag_seq(
                    entries@[j].is_dir,
                    entries@[j].name@,
                ),
        decreases entries@.len() - i,
    {
        let e = &entries[i];
        let tagged = tag_entry(e.is_dir, e.name.as_str());
        items.push(tagged);
        i = i + 1;
    }
    proof {
        assert(string_views(items@) =~= tagged_views(entries@));
    }
    items
}

/// Inserting an element into a sequence adds exactly it to the multiset of
/// the sequence's elements.
proof fn lemma_to_multiset_insert<A>(s: Seq<A>, k: int, x: A)
    requires
        0 <= k <= s.len(),
    ensures
        s.insert(k, x).to_multiset() == s.to_multiset().insert(x),
    decreases s.len(),
{
    broadcast use group_multiset_axioms;
    broadcast use group_to_multiset_ensures;

    let pre = s.subrange(0, k);
    let post = s.subrange(k, s.len() as int);
    assert(s =~= pre + post);
    lemma_multiset_commutative(pre, post);
    lemma_multiset_commutative(pre.push(x), post);
    assert(s.insert(k, x) == pre.push(x) + post);
    assert(pre.push(x).to_multiset() =~= pre.to_multiset().insert(x));
    assert(pre.to_multiset().insert(x).add(post.to_multiset()) =~= pre.to_multiset().add(
        post.to_multiset(),
    ).insert(x));
}

/// `string_views` maps insertion to insertion of the view.
proof fn lemma_string_views_insert(s: Seq<String>, k: int, x: String)
    requires
        0 <= k <= s.len(),
    ensures
        string_views(s.insert(k, x)) == string_views(s).insert(k, x@),
{
    s.insert_ensures(k, x);
    string_views(s).insert_ensures(k, x@);
    assert(string_views(s.insert(k, x)) =~= string_views(s).insert(k, x@));
}

/// Sorts the tagged strings ascending; the result holds exactly the given
/// strings, each as often as it was given.
pub fn sort_tagged(items: Vec<String>) -> (out: Vec<String>)
    ensures
        sorted_lex(string_views(out@)),
        string_views(out@).to_multiset() == string_views(items@).to_multiset(),
{
    broadcast use group_to_multiset_ensures;
    broadcast use group_multiset_axioms;

    let mut out: Vec<String> = Vec::new();
    let mut i: usize = 0;
    while i < items.len()
        invariant
            i <= items@.len(),
            sorted_lex(string_views(out@)),
            string_views(out@).to_multiset() == string_views(
                items@.take(i as int),
            ).to_multiset(),
        decreases items@.len() - i,
    {
        let x = items[i].clone();
        let ghost sv = string_views(out@);
        let mut k: usize = 0;
        while k < out.len() && str_lex_le(out[k].as_str(), x.as_str())
            invariant
                k <= out@.len(),
                sv == string_views(out@),
                sv.len() == out@.len(),
                forall|j: int| 0 <= j < k ==> lex_le(#[trigger] sv[j], x@),
            decreases out@.len() - k,
        {
            k = k + 1;
        }
        proof {
            let svn = string_views(out@).insert(k as int, x@);
            lemma_string_views_insert(out@, k as int, x);
            sv.insert_ensures(k as int, x@);
            if (k as int) < sv.len() {
                lemma_lex_le_total(sv[k as int], x@);
            }
            lemma_lex_le_total(x@, x@);
            assert forall|a: int, b: int| 0 <= a <= b < svn.len() implies lex_le(
                svn[a],
                svn[b],
            ) by {
                if b < k {
                    assert(svn[a] == sv[a] && svn[b] == sv[b]);
                    assert(lex_le(sv[a], sv[b]));
                } else if a < k && b == k {
                    assert(svn[a] == sv[a] && svn[b] == x@);
                } else if a < k && b > k {
                    assert(svn[(b - 1) + 1] == sv[b - 1]);
                    assert(svn[a] == sv[a]);
                    assert(lex_le(sv[a], sv[b - 1]));
                } else if a == k && b == k {
                    assert(svn[a] == x@ && svn[b] == x@);
                } else if a == k && b > k {
                    assert(svn[(b - 1) + 1] == sv[b - 1]);
                    assert(svn[a] == x@);
                    assert(lex_le(sv[k as int], sv[b - 1]));
                    lemma_lex_le_trans(x@, sv[k as int], sv[b - 1]);
                } else {
                    assert(svn[(a - 1) + 1] == sv[a - 1]);
                    assert(svn[(b - 1) + 1] == sv[b - 1]);
                    assert(lex_le(sv[a - 1], sv[b - 1]));
                }
            };
            lemma_to_multiset_insert(sv, k as int, x@);
            assert(string_views(items@.take(i + 1)) =~= string_views(items@.take(i as int)).push(
                items@[i as int]@,
            ));
            string_views(items@.take(i as int)).to_multiset_ensures();
            assert(string_views(items@.take(i as int)).push(items@[i as int]@).to_multiset()
                == string_views(items@.take(i as int)).to_multiset().insert(items@[i as int]@));
            assert(x@ == items@[i as int]@);
        }
        out.insert(k, x);
        i = i + 1;
    }
    proof {
        assert(items@.take(items@.len() as int) =~= items@);
    }
    out
}

/// Lists the children of a directory: one `[DIR]`/`[FILE]`-tagged string
/// per child, in the order the directory was read. A failed directory
/// read, of whatever kind, is answered as an internal error.
pub fn get_list_file_and_folder(read: Result<Vec<DirEntry>, FsError>) -> (r: Result<
    Vec<String>,
    ApiError,
>)
    ensures
        read is Ok <==> r is Ok,
        r is Ok ==> string_views(r->Ok_0@) == tagged_views(read->Ok_0@),
        r is Err ==> r->Err_0 == ApiError::Internal,
{
    match read {
        Ok(entries) => Ok(tag_entries(&entries)),
        Err(_) => Err(ApiError::Internal),
    }
}

/// Lists the children of a directory as `get_list_file_and_folder` does,
/// then orders the tagged strings ascending: the same entries, each as
/// often, sorted.
pub fn sorted_list_file_and_folder(read: Result<Vec<DirEntry>, FsError>) -> (r: Result<
    Vec<String>,
    ApiError,
>)
    ensures
        read is Ok <==> r is Ok,
        r is Ok ==> sorted_lex(string_views(r->Ok_0@)),
        r is Ok ==> string_views(r->Ok_0@).to_multiset() == tagged_views(
            read->Ok_0@,
        ).to_multiset(),
        r is Err ==> r->Err_0 == ApiError::Internal,
{
    match read {
        Ok(entries) => Ok(sort_tagged(tag_entries(&entries))),
        Err(_) => Err(ApiError::Internal),
    }
}

/// Sorting law: two listings whose tagged strings form the same multiset —
/// as `sorted_list_file_and_folder` guarantees of the sorted listing
/// against the unsorted one of the same children — are the same entry set:
/// equally many entries, and an entry stands in one exactly when it stands
/// in the other.
pub proof fn lemma_same_multiset_same_entries(a: Seq<Seq<char>>, b: Seq<Seq<char>>)
    requires
        a.to_multiset() == b.to_multiset(),
    ensures
        a.len() == b.len(),
        forall|s: Seq<char>| a.contains(s) <==> b.contains(s),
{
    broadcast use group_to_multiset_ensures;

    assert(a.len() == a.to_multiset().len());
    assert(b.len() == b.to_multiset().len());
    assert forall|s: Seq<char>| a.contains(s) <==> b.contains(s) by {
        assert(a.contains(s) <==> a.to_multiset().count(s) > 0);
        assert(b.contains(s) <==> b.to_multiset().count(s) > 0);
    };
}

/// The directory a listing request asks for: its `path` when given, else
/// the current directory.
pub fn list_root(req: &GetListFileAndFolderRequest) -> (root: String)
    ensures
        match req.path {
            Some(p) => root@ == p@,
            None => root@ == "."@,
        },
{
    match &req.path {
        Some(p) => p.clone(),
        None => ".".to_owned(),
    }
}

/// The directory a sorted-listing request asks for: its `option` when
/// given, else the current directory.
pub fn sort_root(req: &SortOptionRequest) -> (root: String)
    ensures
        match req.option {
            Some(p) => root@ == p@,
            None => root@ == "."@,
        },
{
    match &req.option {
        Some(p) => p.clone(),
        None => ".".to_owned(),
    }
}

} // verus!
