//! Directory entries and the order in which a listing shows them.
use vstd::prelude::*;

verus! {

/// What a directory entry is.
#[derive(Clone, Copy, Debug, PartialEq, Eq, Structural)]
pub enum EntryKind {
    Directory,
    File,
    Other,
}

/// One entry of a directory: its name within the directory and its kind.
#[derive(Clone, Debug, PartialEq, Eq)]
pub struct Entry {
    pub name: String,
    pub kind: EntryKind,
}

impl Entry {
    pub fn new(name: String, kind: EntryKind) -> (r: Entry)
        ensures
            r.name == name,
            r.kind == kind,
    {
        Entry { name, kind }
    }

    /// The entry at `path`, named by the path's final component; an entry
    /// whose path has no such name is shown as `<invalid utf-8>`.
    pub fn from_path(path: &str, kind: EntryKind) -> (r: Entry)
        ensures
            r.name@ == match file_name_of(path@) {
                Some(name) => name,
                None => "<invalid utf-8>"@,
            },
            r.kind == kind,
    {
        let name = match path_file_name(path) {
            Some(name) => name,
            None => String::from_str("<invalid utf-8>"),
        };
        Entry { name, kind }
    }

    /// A copy of this entry.
    pub fn duplicate(&self) -> (r: Entry)
        ensures
            r == *self,
    {
        Entry { name: self.name.clone(), kind: self.kind }
    }
}

/// The final component of a path, as `std::path::Path::file_name` gives it.
pub uninterp spec fn file_name_of(path: Seq<char>) -> Option<Seq<char>>;

/// Relies on std::path::Path::file_name: the final component of the path, if
/// it has one (none for a path that ends in `..`). A `&str` path is valid
/// UTF-8, so the component converts back to a string.
#[verifier::external_body]
fn path_file_name(path: &str) -> (r: Option<String>)
    ensures
        match r {
            Some(name) => file_name_of(path@) == Some(name@),
            None => file_name_of(path@).is_none(),
        },
{
    match std::path::Path::new(path).file_name() {
        Some(name) => name.to_str().map(String::from),
        None => None,
    }
}

/// `a` comes strictly before `b` in the lexicographic order of their
/// characters' code points.
pub open spec fn name_lt(a: Seq<char>, b: Seq<char>) -> bool {
    (a.len() < b.len() && a == b.subrange(0, a.len() as int)) || exists|k: int|
        0 <= k < a.len() && k < b.len() && a.subrange(0, k) == b.subrange(0, k) && (a[k] as u32)
            < (b[k] as u32)
}

/// `a` comes before `b`, or equals it.
pub open spec fn name_le(a: Seq<char>, b: Seq<char>) -> bool {
    name_lt(a, b) || a == b
}

/// The order of the pairs (name, position) that a listing is sorted by: by
/// name, then by position.
pub open spec fn key_le(x: (String, usize), y: (String, usize)) -> bool {
    name_lt(x.0@, y.0@) || (x.0@ == y.0@ && x.1 <= y.1)
}

/// Relies on itertools::sorted, which collects the items and sorts them with
/// the slice's sort by their `Ord`: for a pair, its first part, then its second;
/// for a `String`, its UTF-8 bytes, whose order is that of the code points.
#[verifier::external_body]
fn sorted_keys(keys: Vec<(String, usize)>) -> (r: Vec<(String, usize)>)
    ensures
        r@.to_multiset() == keys@.to_multiset(),
        forall|i: int, j: int| 0 <= i < j < r@.len() ==> key_le(#[trigger] r@[i], #[trigger] r@[j]),
{
    itertools::sorted(keys).collect()
}

/// `p` is a permutation of the positions `0 .. n`.
pub open spec fn is_permutation(p: Seq<int>, n: int) -> bool {
    &&& p.len() == n
    &&& p.no_duplicates()
    &&& forall|k: int| 0 <= k < n ==> 0 <= #[trigger] p[k] < n
}

/// `r` holds the entries of `e`, each once, ordered by name.
pub open spec fn is_sorted_listing(r: Seq<Entry>, e: Seq<Entry>) -> bool {
    &&& r.len() == e.len()
    &&& exists|p: Seq<int>|
        is_permutation(p, e.len() as int) && forall|k: int|
            0 <= k < r.len() ==> #[trigger] r[k] == e[p[k]]
    &&& forall|i: int, j: int| 0 <= i < j < r.len() ==> name_le(#[trigger] r[i].name@, #[trigger] r[j].name@)
}

/// The entries of a directory in the order shown: by name, in code point
/// order, which for entries of one directory is the order of their full
/// paths. Entries of equal name keep their order.
pub fn sort_listing(entries: Vec<Entry>) -> (r: Vec<Entry>)
    ensures
        is_sorted_listing(r@, entries@),
{
    let n = entries.len();
    let mut keys: Vec<(String, usize)> = Vec::new();
    let mut i: usize = 0;
    while i < n
        invariant
            n == entries@.len(),
            i <= n,
            keys@.len() == i,
            forall|k: int| 0 <= k < i ==> (#[trigger] keys@[k]).1 == k && keys@[k].0 == entries@[k].name,
        decreases n - i,
    {
        keys.push((entries[i].name.clone(), i));
        i = i + 1;
    }
    proof {
        assert(keys@.no_duplicates()) by {
            assert forall|a: int, b: int| 0 <= a < keys@.len() && 0 <= b < keys@.len() && a != b
                implies keys@[a] != keys@[b] by {
                assert(keys@[a].1 != keys@[b].1);
            }
        }
        keys@.lemma_multiset_has_no_duplicates();
    }
    let ghost before = keys@;
    let sorted = sorted_keys(keys);
    proof {
        sorted@.to_multiset_ensures();
        before.to_multiset_ensures();
        assert forall|x: (String, usize)| sorted@.to_multiset().contains(x) implies sorted@.to_multiset().count(x) == 1 by {
            assert(before.to_multiset().contains(x));
        }
        sorted@.lemma_multiset_has_no_duplicates_conv();
        assert forall|k: int| 0 <= k < sorted@.len() implies before.contains(#[trigger] sorted@[k]) by {
            assert(sorted@.to_multiset().count(sorted@[k]) > 0);
        }
    }
    let mut r: Vec<Entry> = Vec::new();
    let mut j: usize = 0;
    while j < n
        invariant
            n == entries@.len(),
            sorted@.len() == n,
            j <= n,
            r@.len() == j,
            forall|k: int| 0 <= k < n ==> before.contains(#[trigger] sorted@[k]),
            forall|k: int| 0 <= k < n ==> (#[trigger] before[k]).1 == k && before[k].0 == entries@[k].name,
            before.len() == n,
            forall|k: int| 0 <= k < j ==> #[trigger] r@[k] == entries@[sorted@[k].1 as int],
        decreases n - j,
    {
        let idx = sorted[j].1;
        proof {
            let t = choose|t: int| 0 <= t < before.len() && before[t] == sorted@[j as int];
            assert(before[t].1 == t);
        }
        r.push(entries[idx].duplicate());
        j = j + 1;
    }
    proof {
        let p = Seq::new(n as nat, |k: int| sorted@[k].1 as int);
        assert forall|k: int| 0 <= k < n implies 0 <= #[trigger] p[k] < n && entries@[p[k]].name == sorted@[k].0 by {
            let t = choose|t: int| 0 <= t < before.len() && before[t] == sorted@[k];
            assert(before[t].1 == t);
        }
        assert(p.no_duplicates()) by {
            assert forall|a: int, b: int| 0 <= a < p.len() && 0 <= b < p.len() && a != b
                implies p[a] != p[b] by {
                if p[a] == p[b] {
                    assert(sorted@[a].0 == entries@[p[a]].name);
                    assert(sorted@[b].0 == entries@[p[b]].name);
                    assert(sorted@[a] == sorted@[b]);
                }
            }
        }
        assert(is_permutation(p, n as int));
        assert forall|k: int| 0 <= k < r@.len() implies #[trigger] r@[k] == entries@[p[k]] by {}
        assert forall|a: int, b: int| 0 <= a < b < r@.len() implies name_le(#[trigger] r@[a].name@, #[trigger] r@[b].name@) by {
            assert(key_le(sorted@[a], sorted@[b]));
            assert(entries@[p[a]].name == sorted@[a].0);
            assert(entries@[p[b]].name == sorted@[b].0);
        }
    }
    r
}

} // verus!
