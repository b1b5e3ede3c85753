//! The repository model: the state a freshly opened repository handle
//! exposes to the facade — the conflict set, the remote-tracking references,
//! the configured remotes with their transport disposition, the index entry
//! count and the shape of HEAD.

use vstd::prelude::*;

verus! {

/// A remote-tracking reference: the remote's name and the branch name on it.
#[derive(Debug)]
pub struct RemoteRefname {
    pub remote: String,
    pub branch: String,
}

impl View for RemoteRefname {
    type V = (Seq<char>, Seq<char>);

    open spec fn view(&self) -> (Seq<char>, Seq<char>) {
        (self.remote@, self.branch@)
    }
}

impl Clone for RemoteRefname {
    fn clone(&self) -> (r: Self)
        ensures
            r@ == self@,
    {
        RemoteRefname { remote: self.remote.clone(), branch: self.branch.clone() }
    }
}

/// A configured remote together with the transport collaborator's
/// disposition towards it: whether the remote is reachable at all, and
/// which credential tokens it accepts.
#[derive(Debug)]
pub struct Remote {
    pub name: String,
    pub reachable: bool,
    pub accepted_tokens: Vec<u64>,
}

/// The shape of the repository's HEAD reference: checked out on a named
/// branch, or detached (nameless).
#[derive(Debug)]
pub enum Head {
    Branch(String),
    Detached,
}

/// The state of one project's repository as seen through a handle opened
/// for a single facade call.
#[derive(Debug)]
pub struct Repository {
    /// Relative paths currently recorded as having unresolved conflicts.
    pub conflicts: Vec<String>,
    /// The remote-tracking references, one entry per configured ref.
    pub remote_refs: Vec<RemoteRefname>,
    /// The configured remotes, by name.
    pub remotes: Vec<Remote>,
    /// The number of entries currently staged in the index.
    pub index_len: usize,
    /// The HEAD reference.
    pub head: Head,
}

impl Remote {
    /// Whether this remote accepts the given credential token.
    pub open spec fn accepts(self, token: u64) -> bool {
        exists|j: int| 0 <= j < self.accepted_tokens@.len() && self.accepted_tokens@[j] == token
    }
}

impl Repository {
    /// Whether `path` is currently recorded as conflicted.
    pub open spec fn has_conflict(self, path: Seq<char>) -> bool {
        exists|j: int| 0 <= j < self.conflicts@.len() && self.conflicts@[j]@ == path
    }

    /// Whether a remote of the given name is configured.
    pub open spec fn has_remote(self, name: Seq<char>) -> bool {
        exists|j: int| 0 <= j < self.remotes@.len() && self.remotes@[j].name@ == name
    }

    /// The index of the remote with the given name (meaningful when
    /// `has_remote(name)` holds; unique under `wf()`).
    pub open spec fn remote_index(self, name: Seq<char>) -> int {
        choose|j: int| 0 <= j < self.remotes@.len() && self.remotes@[j].name@ == name
    }

    /// The remote with the given name.
    pub open spec fn remote_named(self, name: Seq<char>) -> Remote {
        self.remotes@[self.remote_index(name)]
    }

    /// How marking `path` resolved changes a repository: exactly the one
    /// conflict entry for `path` is removed, and every other part of the
    /// repository's state is untouched.
    pub open spec fn resolved(self, post: Repository, path: Seq<char>) -> bool {
        &&& post.remote_refs == self.remote_refs
        &&& post.remotes == self.remotes
        &&& post.index_len == self.index_len
        &&& post.head == self.head
        &&& exists|j: int|
            0 <= j < self.conflicts@.len() && self.conflicts@[j]@ == path
                && post.conflicts@ == self.conflicts@.remove(j)
    }

    /// Well-formedness: the conflict set holds each path at most once, remote
    /// names are unique, and the remote-tracking references hold no duplicate.
    pub open spec fn wf(self) -> bool {
        &&& forall|i: int, j: int|
            0 <= i < j < self.conflicts@.len() ==> self.conflicts@[i]@ != self.conflicts@[j]@
        &&& forall|i: int, j: int|
            0 <= i < j < self.remotes@.len() ==> self.remotes@[i].name@ != self.remotes@[j].name@
        &&& forall|i: int, j: int|
            0 <= i < j < self.remote_refs@.len() ==> self.remote_refs@[i]@ != self.remote_refs@[j]@
    }
}

/// Check that no two entries are the same string.
fn strings_distinct(v: &Vec<String>) -> (b: bool)
    ensures
        b == (forall|i: int, j: int| 0 <= i < j < v@.len() ==> v@[i]@ != v@[j]@),
{
    let n = v.len();
    let mut i: usize = 0;
    while i < n
        invariant
            n == v@.len(),
            i <= n,
            forall|p: int, q: int| 0 <= p < q < n && p < i ==> v@[p]@ != v@[q]@,
        decreases n - i,
    {
        let mut j: usize = i + 1;
        while j < n
            invariant
                n == v@.len(),
                i < j <= n,
                forall|q: int| i < q < j ==> v@[q]@ != v@[i as int]@,
            decreases n - j,
        {
            if v[j] == v[i] {
                return false;
            }
            j = j + 1;
        }
        i = i + 1;
    }
    true
}

/// Check that no two remotes carry the same name.
fn remote_names_distinct(v: &Vec<Remote>) -> (b: bool)
    ensures
        b == (forall|i: int, j: int| 0 <= i < j < v@.len() ==> v@[i].name@ != v@[j].name@),
{
    let n = v.len();
    let mut i: usize = 0;
    while i < n
        invariant
            n == v@.len(),
            i <= n,
            forall|p: int, q: int| 0 <= p < q < n && p < i ==> v@[p].name@ != v@[q].name@,
        decreases n - i,
    {
        let mut j: usize = i + 1;
        while j < n
            invariant
                n == v@.len(),
                i < j <= n,
                forall|q: int| i < q < j ==> v@[q].name@ != v@[i as int].name@,
            decreases n - j,
        {
            if v[j].name == v[i].name {
                return false;
            }
            j = j + 1;
        }
        i = i + 1;
    }
    true
}

/// Check that no two remote-tracking references are the same.
fn refs_distinct(v: &Vec<RemoteRefname>) -> (b: bool)
    ensures
        b == (forall|i: int, j: int| 0 <= i < j < v@.len() ==> v@[i]@ != v@[j]@),
{
    let n = v.len();
    let mut i: usize = 0;
    while i < n
        invariant
            n == v@.len(),
            i <= n,
            forall|p: int, q: int| 0 <= p < q < n && p < i ==> v@[p]@ != v@[q]@,
        decreases n - i,
    {
        let mut j: usize = i + 1;
        while j < n
            invariant
                n == v@.len(),
                i < j <= n,
                forall|q: int| i < q < j ==> v@[q]@ != v@[i as int]@,
            decreases n - j,
        {
            if v[j].remote == v[i].remote && v[j].branch == v[i].branch {
                return false;
            }
            j = j + 1;
        }
        i = i + 1;
    }
    true
}

impl Repository {
    /// Decide well-formedness of a repository state.
    pub fn check_wf(&self) -> (b: bool)
        ensures
            b == self.wf(),
    {
        strings_distinct(&self.conflicts) && remote_names_distinct(&self.remotes)
            && refs_distinct(&self.remote_refs)
    }
}

/// Law: marking a path resolved removes its one conflict entry, so the path
/// is no longer conflicted afterwards — a second marking of the same path
/// cannot succeed again; by the facade's contract it reports a domain error
/// and changes nothing.
pub proof fn lemma_resolved_path_not_conflicted(pre: Repository, post: Repository, path: Seq<char>)
    requires
        pre.wf(),
        pre.resolved(post, path),
    ensures
        !post.has_conflict(path),
{
    let j = choose|j: int|
        0 <= j < pre.conflicts@.len() && pre.conflicts@[j]@ == path
            && post.conflicts@ == pre.conflicts@.remove(j);
    assert forall|k: int| 0 <= k < post.conflicts@.len() implies post.conflicts@[k]@ != path by {
        if k < j {
            assert(post.conflicts@[k] == pre.conflicts@[k]);
        } else {
            assert(post.conflicts@[k] == pre.conflicts@[k + 1]);
        }
    }
}

/// Removing a conflict entry preserves a repository's well-formedness.
pub proof fn lemma_resolved_preserves_wf(pre: Repository, post: Repository, path: Seq<char>)
    requires
        pre.wf(),
        pre.resolved(post, path),
    ensures
        post.wf(),
{
    let j = choose|j: int|
        0 <= j < pre.conflicts@.len() && pre.conflicts@[j]@ == path
            && post.conflicts@ == pre.conflicts@.remove(j);
    assert forall|k: int, l: int|
        0 <= k < l < post.conflicts@.len() implies post.conflicts@[k]@ != post.conflicts@[l]@ by {
        let k0: int = if k < j { k } else { k + 1 };
        let l0: int = if l < j { l } else { l + 1 };
        assert(post.conflicts@[k] == pre.conflicts@[k0]);
        assert(post.conflicts@[l] == pre.conflicts@[l0]);
    }
}

} // verus!
