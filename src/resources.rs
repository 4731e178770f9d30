//! Listing of the resources of the open mod: what its layered view holds and
//! what its own data directory holds, merged, without duplicates.
use vstd::prelude::*;

use crate::error::{Error, ErrorKind};
use crate::params::{check_no_parent_ref, has_parent_ref, lower_of, lowercase, same_text};

verus! {

/// A directory or a file, by its lower-case name.
#[derive(Clone, Debug)]
pub enum ResourceEntry {
    Dir { path: String },
    File { path: String },
}

impl ResourceEntry {
    /// Whether the entry is a file, and its name.
    pub open spec fn key(&self) -> (bool, Seq<char>) {
        match self {
            ResourceEntry::Dir { path } => (false, path@),
            ResourceEntry::File { path } => (true, path@),
        }
    }

    /// The entry of a name found in a listing: named in lower case, a file or
    /// a directory as the caller found it.
    pub fn from_candidate(name: &str, is_file: bool) -> (r: ResourceEntry)
        ensures
            r.key() == (is_file, lower_of(name@)),
    {
        let path = lowercase(name);
        if is_file {
            ResourceEntry::File { path }
        } else {
            ResourceEntry::Dir { path }
        }
    }

    fn same_as(&self, other: &ResourceEntry) -> (r: bool)
        ensures
            r == (self.key() == other.key()),
    {
        match (self, other) {
            (ResourceEntry::Dir { path: a }, ResourceEntry::Dir { path: b }) => same_text(a.as_str(), b.as_str()),
            (ResourceEntry::File { path: a }, ResourceEntry::File { path: b }) => same_text(a.as_str(), b.as_str()),
            _ => false,
        }
    }
}

/// The name under which the desktop shell knows a resource entry.
pub type DirEntry = ResourceEntry;

/// A set of resource entries. A `HashSet` would compare entries through
/// derived `Hash` and `Eq` impls that Verus does not read, so nothing could be
/// proved of what it holds; a vector kept free of duplicates states the set.
#[derive(Clone, Debug)]
pub struct ResourceListing {
    entries: Vec<ResourceEntry>,
}

impl View for ResourceListing {
    type V = Set<(bool, Seq<char>)>;

    closed spec fn view(&self) -> Set<(bool, Seq<char>)> {
        Set::new(|k: (bool, Seq<char>)| exists|i: int| 0 <= i < self.entries@.len() && #[trigger] self.entries@[i].key() == k)
    }
}

impl ResourceListing {
    /// No two entries have the same key.
    pub closed spec fn wf(&self) -> bool {
        forall|i: int, j: int|
            0 <= i < self.entries@.len() && 0 <= j < self.entries@.len() && i != j ==> #[trigger] self.entries@[i].key()
                != #[trigger] self.entries@[j].key()
    }

    pub fn new() -> (r: Self)
        ensures
            r.wf(),
            r@ == Set::<(bool, Seq<char>)>::empty(),
    {
        let r = ResourceListing { entries: Vec::new() };
        assert(r@ =~= Set::<(bool, Seq<char>)>::empty());
        r
    }

    /// Adds an entry unless one with the same key is there.
    #[verifier::loop_isolation(false)]
    pub fn insert(&mut self, entry: ResourceEntry)
        requires
            old(self).wf(),
        ensures
            final(self).wf(),
            final(self)@ == old(self)@.insert(entry.key()),
    {
        let mut i: usize = 0;
        while i < self.entries.len()
            invariant
                i <= self.entries@.len(),
                forall|j: int| 0 <= j < i ==> #[trigger] self.entries@[j].key() != entry.key(),
            decreases self.entries@.len() - i,
        {
            if self.entries[i].same_as(&entry) {
                assert(self@.contains(entry.key()));
                assert(self@.insert(entry.key()) =~= self@);
                return;
            }
            i = i + 1;
        }
        let ghost before = self.entries@;
        self.entries.push(entry);
        proof {
            assert(self.entries@ == before.push(entry));
            assert forall|k: (bool, Seq<char>)| #[trigger] old(self)@.insert(entry.key()).contains(k) implies self@.contains(k) by {
                if k == entry.key() {
                    assert(self.entries@[before.len() as int].key() == k);
                } else {
                    assert(old(self)@.contains(k));
                    let j = choose|j: int| 0 <= j < before.len() && #[trigger] before[j].key() == k;
                    assert(self.entries@[j].key() == k);
                }
            }
            assert forall|k: (bool, Seq<char>)| #[trigger] self@.contains(k) implies old(self)@.insert(entry.key()).contains(k) by {
                let j = choose|j: int| 0 <= j < self.entries@.len() && #[trigger] self.entries@[j].key() == k;
                if j < before.len() {
                    assert(before[j].key() == k);
                }
            }
            assert(self@ =~= old(self)@.insert(entry.key()));
        }
    }

    /// The entries, each key once.
    pub fn entries(&self) -> (r: &Vec<ResourceEntry>)
        ensures
            forall|k: (bool, Seq<char>)| self@.contains(k) <==> exists|i: int| 0 <= i < r@.len() && #[trigger] r@[i].key() == k,
    {
        &self.entries
    }
}

/// Parameters of the operation that lists a resource directory.
#[derive(Clone, Debug)]
pub struct List {
    pub path: String,
}

impl List {
    pub fn name() -> (r: &'static str)
        ensures
            r@ == "resources/list"@,
    {
        "resources/list"
    }

    pub fn validate(&self) -> (r: Result<(), Error>)
        ensures
            r is Ok <==> !has_parent_ref(self.path@),
            r matches Err(e) ==> e.kind == ErrorKind::Parameter && e.message@ == "file path cannot contain `..`"@,
    {
        check_no_parent_ref(self.path.as_str())
    }

    /// The logical path of an entry of the listed directory: the entry's name
    /// alone at the root, else the directory, `/`, and the name.
    pub fn candidate_path(&self, candidate: &str) -> (r: String)
        ensures
            r@ == if self.path@.len() == 0 {
                candidate@
            } else {
                self.path@ + "/"@ + candidate@
            },
    {
        if self.path.unicode_len() == 0 {
            candidate.to_owned()
        } else {
            let mut s = self.path.clone();
            s.append("/");
            s.append(candidate);
            s
        }
    }
}

} // verus!
