//! The operation facade: resolves a project id to its repository state,
//! performs exactly one plumbing operation per call, normalizes failures
//! into the error taxonomy, and sequences bulk deletion with a
//! partial-failure result.

use vstd::prelude::*;

use crate::error::{Error, ErrorKind};
use crate::project::{BranchId, Credentials, Project, ProjectId};
use crate::repo::{
    lemma_resolved_path_not_conflicted, lemma_resolved_preserves_wf, Head, Remote, RemoteRefname,
    Repository,
};

verus! {

/// What a test push or test fetch against `rp` must report for the remote
/// called `remote` and a credential with the given `token`: an unknown
/// remote is a domain error, an unreachable remote a network failure, a
/// reachable remote that rejects the token an authentication failure, and a
/// reachable remote that accepts the token success.
pub open spec fn transport_result(
    rp: Repository,
    remote: Seq<char>,
    token: u64,
    r: Result<(), Error>,
) -> bool {
    &&& !rp.has_remote(remote) ==> (r matches Err(e) && e.kind == ErrorKind::DomainError)
    &&& rp.has_remote(remote) && !rp.remote_named(remote).reachable
        ==> (r matches Err(e) && e.kind == ErrorKind::NetworkFailed)
    &&& rp.has_remote(remote) && rp.remote_named(remote).reachable
        && !rp.remote_named(remote).accepts(token)
        ==> (r matches Err(e) && e.kind == ErrorKind::AuthFailed)
    &&& rp.has_remote(remote) && rp.remote_named(remote).reachable
        && rp.remote_named(remote).accepts(token) ==> r == Ok::<(), Error>(())
}

/// One entry of the project directory: the project's metadata, the state of
/// its repository (`None` when the on-disk repository is missing or corrupt,
/// so that opening a handle fails), and whether the host filesystem will let
/// the project's data be removed (the deletion collaborator's disposition).
#[derive(Debug)]
pub struct ProjectRecord {
    pub project: Project,
    pub repo: Option<Repository>,
    pub delete_ok: bool,
}

/// The structured outcome of a bulk deletion that stopped early: how many
/// projects (a prefix, in listing order) were deleted, which project the
/// sequence failed on, and the failure itself.
#[derive(Debug)]
pub struct DeleteFailure {
    pub deleted: usize,
    pub failed_id: ProjectId,
    pub error: Error,
}

/// The facade: the project directory it serves, keyed by project id, plus
/// the data directory the directory lives under.
#[derive(Debug)]
pub struct App {
    pub local_data_dir: String,
    pub projects: Vec<ProjectRecord>,
}

impl App {
    /// Whether a project with the given id is registered.
    pub open spec fn has_project(self, id: ProjectId) -> bool {
        exists|i: int| 0 <= i < self.projects@.len() && self.projects@[i].project.id == id
    }

    /// The index of the project with the given id (meaningful when
    /// `has_project(id)` holds; unique under `wf()`).
    pub open spec fn index_of(self, id: ProjectId) -> int {
        choose|i: int| 0 <= i < self.projects@.len() && self.projects@[i].project.id == id
    }

    /// The directory record of the project with the given id.
    pub open spec fn record_of(self, id: ProjectId) -> ProjectRecord {
        self.projects@[self.index_of(id)]
    }

    /// Well-formedness: project ids are unique and every present repository
    /// state is itself well-formed.
    pub open spec fn wf(self) -> bool {
        &&& forall|i: int, j: int|
            0 <= i < j < self.projects@.len()
                ==> self.projects@[i].project.id != self.projects@[j].project.id
        &&& forall|i: int|
            0 <= i < self.projects@.len()
                ==> (#[trigger] self.projects@[i].repo matches Some(rp) ==> rp.wf())
    }

    /// Build a facade over the given directory contents.
    pub fn new(local_data_dir: String, projects: Vec<ProjectRecord>) -> (r: App)
        ensures
            r.local_data_dir == local_data_dir,
            r.projects == projects,
    {
        App { local_data_dir, projects }
    }

    /// Decide well-formedness of the whole facade state, so that an
    /// unverified caller can test it before invoking the operations that
    /// require it.
    pub fn is_well_formed(&self) -> (b: bool)
        ensures
            b == self.wf(),
    {
        let n = self.projects.len();
        let mut i: usize = 0;
        while i < n
            invariant
                n == self.projects@.len(),
                i <= n,
                forall|p: int, q: int|
                    0 <= p < q < n && p < i
                        ==> self.projects@[p].project.id != self.projects@[q].project.id,
            decreases n - i,
        {
            let mut j: usize = i + 1;
            while j < n
                invariant
                    n == self.projects@.len(),
                    i < j <= n,
                    forall|q: int|
                        i < q < j
                            ==> self.projects@[q].project.id != self.projects@[i as int].project.id,
                decreases n - j,
            {
                if self.projects[j].project.id == self.projects[i].project.id {
                    return false;
                }
                j = j + 1;
            }
            i = i + 1;
        }
        let mut k: usize = 0;
        while k < n
            invariant
                n == self.projects@.len(),
                k <= n,
                forall|p: int, q: int|
                    0 <= p < q < n
                        ==> self.projects@[p].project.id != self.projects@[q].project.id,
                forall|p: int|
                    0 <= p < k
                        ==> (#[trigger] self.projects@[p].repo matches Some(rp) ==> rp.wf()),
            decreases n - k,
        {
            match &self.projects[k].repo {
                Some(rp) => {
                    if !rp.check_wf() {
                        return false;
                    }
                },
                None => {},
            }
            k = k + 1;
        }
        true
    }

    /// Find the position of a project id in the directory.
    fn find_index(&self, project_id: ProjectId) -> (r: Option<usize>)
        ensures
            match r {
                Some(i) => i < self.projects@.len()
                    && self.projects@[i as int].project.id == project_id,
                None => !self.has_project(project_id),
            },
    {
        let n = self.projects.len();
        let mut i: usize = 0;
        while i < n
            invariant
                n == self.projects@.len(),
                i <= n,
                forall|k: int| 0 <= k < i ==> self.projects@[k].project.id != project_id,
            decreases n - i,
        {
            if self.projects[i].project.id == project_id {
                return Some(i);
            }
            i = i + 1;
        }
        None
    }

    /// The number of entries staged in the repository's index.
    ///
    /// Fails with `NotFound` for an unknown project id and with `OpenFailed`
    /// when the project's repository cannot be opened; otherwise returns the
    /// index entry count of that repository exactly.
    pub fn git_index_size(&self, project_id: ProjectId) -> (r: Result<usize, Error>)
        requires
            self.wf(),
        ensures
            !self.has_project(project_id)
                ==> (r matches Err(e) && e.kind == ErrorKind::NotFound),
            self.has_project(project_id) && self.record_of(project_id).repo is None
                ==> (r matches Err(e) && e.kind == ErrorKind::OpenFailed),
            self.has_project(project_id)
                ==> (self.record_of(project_id).repo matches Some(rp)
                    ==> r == Ok::<usize, Error>(rp.index_len)),
    {
        let i = match self.find_index(project_id) {
            Some(i) => i,
            None => {
                return Err(Error::with_context(ErrorKind::NotFound, "project not found"));
            },
        };
        proof {
            assert(self.projects@[i as int].project.id == project_id);
            assert(self.index_of(project_id) == i as int);
        }
        match &self.projects[i].repo {
            Some(rp) => Ok(rp.index_len),
            None => Err(Error::with_context(ErrorKind::OpenFailed, "failed to open repository")),
        }
    }

    /// The symbolic name of the repository's current HEAD reference.
    ///
    /// Returns the checked-out branch's name exactly; a detached (nameless)
    /// HEAD is a typed `Unexpected` failure, never an abort.
    pub fn git_head(&self, project_id: ProjectId) -> (r: Result<String, Error>)
        requires
            self.wf(),
        ensures
            !self.has_project(project_id)
                ==> (r matches Err(e) && e.kind == ErrorKind::NotFound),
            self.has_project(project_id) && self.record_of(project_id).repo is None
                ==> (r matches Err(e) && e.kind == ErrorKind::OpenFailed),
            self.has_project(project_id)
                ==> (self.record_of(project_id).repo matches Some(rp) ==> {
                    &&& rp.head matches Head::Branch(name)
                        ==> (r matches Ok(v) && v@ == name@)
                    &&& rp.head is Detached
                        ==> (r matches Err(e) && e.kind == ErrorKind::Unexpected)
                }),
    {
        let i = match self.find_index(project_id) {
            Some(i) => i,
            None => {
                return Err(Error::with_context(ErrorKind::NotFound, "project not found"));
            },
        };
        proof {
            assert(self.index_of(project_id) == i as int);
        }
        match &self.projects[i].repo {
            Some(rp) => match &rp.head {
                Head::Branch(name) => Ok(name.clone()),
                Head::Detached => Err(
                    Error::with_context(ErrorKind::Unexpected, "failed to get repository head"),
                ),
            },
            None => Err(Error::with_context(ErrorKind::OpenFailed, "failed to open repository")),
        }
    }

    /// The repository's remote-tracking references, in their configured
    /// order: one entry per configured ref, no duplicates, no omissions;
    /// the empty sequence when no remote is configured.
    pub fn git_remote_branches(&self, project_id: ProjectId) -> (r: Result<
        Vec<RemoteRefname>,
        Error,
    >)
        requires
            self.wf(),
        ensures
            !self.has_project(project_id)
                ==> (r matches Err(e) && e.kind == ErrorKind::NotFound),
            self.has_project(project_id) && self.record_of(project_id).repo is None
                ==> (r matches Err(e) && e.kind == ErrorKind::OpenFailed),
            self.has_project(project_id)
                ==> (self.record_of(project_id).repo matches Some(rp)
                    ==> (r matches Ok(v) && {
                        &&& v@.len() == rp.remote_refs@.len()
                        &&& forall|k: int| 0 <= k < v@.len() ==> v@[k]@ == rp.remote_refs@[k]@
                        &&& forall|k: int, l: int| 0 <= k < l < v@.len() ==> v@[k]@ != v@[l]@
                    })),
    {
        let i = match self.find_index(project_id) {
            Some(i) => i,
            None => {
                return Err(Error::with_context(ErrorKind::NotFound, "project not found"));
            },
        };
        proof {
            assert(self.index_of(project_id) == i as int);
        }
        match &self.projects[i].repo {
            Some(rp) => Ok(clone_refs(&rp.remote_refs)),
            None => Err(Error::with_context(ErrorKind::OpenFailed, "failed to open repository")),
        }
    }

    /// Delete every known project's data, strictly one at a time and in
    /// listing order, stopping at the first failing deletion.
    ///
    /// The sequence is not atomic and nothing is rolled back: on failure,
    /// the projects before the failing one are deleted, the failing one and
    /// every later one are untouched, and the result reports how many were
    /// deleted, which project the sequence failed on, and the failure
    /// itself.
    pub fn delete_all_data(&mut self) -> (r: Result<usize, DeleteFailure>)
        requires
            old(self).wf(),
        ensures
            final(self).wf(),
            final(self).local_data_dir == old(self).local_data_dir,
            r matches Ok(n) ==> {
                &&& n == old(self).projects@.len()
                &&& forall|k: int|
                    0 <= k < old(self).projects@.len() ==> old(self).projects@[k].delete_ok
                &&& final(self).projects@.len() == 0
            },
            r matches Err(f) ==> {
                &&& 0 <= f.deleted < old(self).projects@.len()
                &&& forall|k: int| 0 <= k < f.deleted ==> old(self).projects@[k].delete_ok
                &&& !old(self).projects@[f.deleted as int].delete_ok
                &&& f.failed_id == old(self).projects@[f.deleted as int].project.id
                &&& f.error.kind == ErrorKind::Unexpected
                &&& final(self).projects@ == old(self).projects@.skip(f.deleted as int)
            },
    {
        let total = self.projects.len();
        let mut n: usize = 0;
        while self.projects.len() > 0
            invariant
                old(self).wf(),
                total == old(self).projects@.len(),
                n + self.projects@.len() == old(self).projects@.len(),
                self.projects@ == old(self).projects@.skip(n as int),
                forall|k: int| 0 <= k < n ==> old(self).projects@[k].delete_ok,
                self.local_data_dir == old(self).local_data_dir,
            decreases self.projects.len(),
        {
            if self.projects[0].delete_ok {
                self.projects.remove(0);
                proof {
                    assert(old(self).projects@.skip(n as int).remove(0) =~= old(
                        self,
                    ).projects@.skip(n as int + 1));
                }
                n = n + 1;
            } else {
                let failed_id = self.projects[0].project.id;
                proof {
                    lemma_suffix_keeps_wf(*old(self), *self, n as int);
                }
                return Err(
                    DeleteFailure {
                        deleted: n,
                        failed_id,
                        error: Error::with_context(
                            ErrorKind::Unexpected,
                            "failed to delete project",
                        ),
                    },
                );
            }
        }
        Ok(n)
    }

    /// Record that a previously conflicted path is resolved, mutating the
    /// project's conflict-tracking state.
    ///
    /// The path must currently be in the repository's conflict set. Marking
    /// a path that is not conflicted — in particular, marking the same path
    /// a second time — fails with `DomainError` and changes nothing: here
    /// resolution is single-shot, not a repeatable no-op.
    pub fn mark_resolved(&mut self, project_id: ProjectId, path: &str) -> (r: Result<(), Error>)
        requires
            old(self).wf(),
        ensures
            final(self).wf(),
            !old(self).has_project(project_id)
                ==> (r matches Err(e) && e.kind == ErrorKind::NotFound)
                    && *final(self) == *old(self),
            old(self).has_project(project_id) && old(self).record_of(project_id).repo is None
                ==> (r matches Err(e) && e.kind == ErrorKind::OpenFailed)
                    && *final(self) == *old(self),
            old(self).has_project(project_id)
                ==> (old(self).record_of(project_id).repo matches Some(rp) ==> {
                    if rp.has_conflict(path@) {
                        &&& r == Ok::<(), Error>(())
                        &&& only_repo_changed(
                            *old(self),
                            *final(self),
                            old(self).index_of(project_id),
                        )
                        &&& (final(self).projects@[old(self).index_of(project_id)].repo
                            matches Some(nrp) && rp.resolved(nrp, path@) && !nrp.has_conflict(
                            path@,
                        ))
                    } else {
                        (r matches Err(e) && e.kind == ErrorKind::DomainError)
                            && *final(self) == *old(self)
                    }
                }),
    {
        let i = match self.find_index(project_id) {
            Some(i) => i,
            None => {
                return Err(Error::with_context(ErrorKind::NotFound, "project not found"));
            },
        };
        proof {
            assert(self.index_of(project_id) == i as int);
        }
        let wanted: String = path.to_string();
        let j_opt = match &self.projects[i].repo {
            Some(rp) => find_conflict(&rp.conflicts, &wanted),
            None => {
                return Err(Error::with_context(ErrorKind::OpenFailed, "failed to open repository"));
            },
        };
        let j = match j_opt {
            Some(j) => j,
            None => {
                return Err(Error::with_context(ErrorKind::DomainError, "path is not conflicted"));
            },
        };
        let ghost pre = *self;
        let rec = &mut self.projects[i];
        match &mut rec.repo {
            Some(rp) => {
                rp.conflicts.remove(j);
            },
            None => {
                proof {
                    assert(false);
                }
            },
        }
        proof {
            let gi = i as int;
            let rp = pre.projects@[gi].repo->Some_0;
            let nrp = self.projects@[gi].repo->Some_0;
            assert(self.projects@ == pre.projects@.update(gi, self.projects@[gi]));
            assert(nrp.conflicts@ == rp.conflicts@.remove(j as int));
            assert(rp.resolved(nrp, path@));
            lemma_resolved_path_not_conflicted(rp, nrp, path@);
            lemma_resolved_preserves_wf(rp, nrp, path@);
            assert forall|k: int, l: int|
                0 <= k < l < self.projects@.len()
                    implies self.projects@[k].project.id != self.projects@[l].project.id by {
                assert(self.projects@[k].project == pre.projects@[k].project);
                assert(self.projects@[l].project == pre.projects@[l].project);
            }
            assert forall|k: int|
                0 <= k < self.projects@.len() implies (#[trigger] self.projects@[k].repo
                matches Some(q) ==> q.wf()) by {
                if k != gi {
                    assert(self.projects@[k] == pre.projects@[k]);
                }
            }
        }
        Ok(())
    }

    /// A non-destructive connectivity and authorization check against a
    /// remote: one push attempt, no retry.
    ///
    /// The branch name and the optional askpass capability (itself
    /// optionally scoped to a branch) are handed to the transport
    /// collaborator unmodified; they do not influence which failure kind is
    /// reported.
    pub fn git_test_push(
        &self,
        project_id: ProjectId,
        remote_name: &str,
        branch_name: &str,
        credentials: &Credentials,
        askpass: Option<Option<BranchId>>,
    ) -> (r: Result<(), Error>)
        requires
            self.wf(),
        ensures
            !self.has_project(project_id)
                ==> (r matches Err(e) && e.kind == ErrorKind::NotFound),
            self.has_project(project_id) && self.record_of(project_id).repo is None
                ==> (r matches Err(e) && e.kind == ErrorKind::OpenFailed),
            self.has_project(project_id)
                ==> (self.record_of(project_id).repo matches Some(rp)
                    ==> transport_result(rp, remote_name@, credentials.token, r)),
    {
        let _ = branch_name;
        let _ = askpass;
        let i = match self.find_index(project_id) {
            Some(i) => i,
            None => {
                return Err(Error::with_context(ErrorKind::NotFound, "project not found"));
            },
        };
        proof {
            assert(self.index_of(project_id) == i as int);
        }
        match &self.projects[i].repo {
            Some(rp) => attempt_transport(rp, remote_name, credentials),
            None => Err(Error::with_context(ErrorKind::OpenFailed, "failed to open repository")),
        }
    }

    /// A non-destructive connectivity and authorization check against a
    /// remote: one fetch attempt, no retry.
    ///
    /// The optional askpass string (a pre-supplied password rather than an
    /// interactive channel) is handed to the transport collaborator
    /// unmodified; it does not influence which failure kind is reported.
    pub fn git_test_fetch(
        &self,
        project_id: ProjectId,
        remote_name: &str,
        credentials: &Credentials,
        askpass: Option<String>,
    ) -> (r: Result<(), Error>)
        requires
            self.wf(),
        ensures
            !self.has_project(project_id)
                ==> (r matches Err(e) && e.kind == ErrorKind::NotFound),
            self.has_project(project_id) && self.record_of(project_id).repo is None
                ==> (r matches Err(e) && e.kind == ErrorKind::OpenFailed),
            self.has_project(project_id)
                ==> (self.record_of(project_id).repo matches Some(rp)
                    ==> transport_result(rp, remote_name@, credentials.token, r)),
    {
        let _ = askpass;
        let i = match self.find_index(project_id) {
            Some(i) => i,
            None => {
                return Err(Error::with_context(ErrorKind::NotFound, "project not found"));
            },
        };
        proof {
            assert(self.index_of(project_id) == i as int);
        }
        match &self.projects[i].repo {
            Some(rp) => attempt_transport(rp, remote_name, credentials),
            None => Err(Error::with_context(ErrorKind::OpenFailed, "failed to open repository")),
        }
    }
}

/// A directory whose listing is a suffix of a well-formed one is itself
/// well-formed.
proof fn lemma_suffix_keeps_wf(pre: App, post: App, n: int)
    requires
        pre.wf(),
        0 <= n <= pre.projects@.len(),
        post.projects@ == pre.projects@.skip(n),
    ensures
        post.wf(),
{
    assert forall|k: int, l: int|
        0 <= k < l < post.projects@.len()
            implies post.projects@[k].project.id != post.projects@[l].project.id by {
        assert(post.projects@[k] == pre.projects@[k + n]);
        assert(post.projects@[l] == pre.projects@[l + n]);
    }
    assert forall|k: int|
        0 <= k < post.projects@.len() implies (#[trigger] post.projects@[k].repo matches Some(q)
        ==> q.wf()) by {
        assert(post.projects@[k] == pre.projects@[k + n]);
    }
}

/// How a single-project mutation changes the directory: only the repository
/// state of the record at index `i` may differ between `pre` and `post`;
/// the record keeps its project metadata and deletion disposition, and
/// everything else in the facade is untouched.
pub open spec fn only_repo_changed(pre: App, post: App, i: int) -> bool {
    &&& post.local_data_dir == pre.local_data_dir
    &&& post.projects@.len() == pre.projects@.len()
    &&& forall|k: int|
        0 <= k < pre.projects@.len() && k != i ==> post.projects@[k] == pre.projects@[k]
    &&& post.projects@[i].project == pre.projects@[i].project
    &&& post.projects@[i].delete_ok == pre.projects@[i].delete_ok
}

/// Find the position of a conflict entry by path.
fn find_conflict(conflicts: &Vec<String>, path: &String) -> (r: Option<usize>)
    ensures
        match r {
            Some(j) => j < conflicts@.len() && conflicts@[j as int]@ == path@,
            None => forall|k: int| 0 <= k < conflicts@.len() ==> conflicts@[k]@ != path@,
        },
{
    let n = conflicts.len();
    let mut j: usize = 0;
    while j < n
        invariant
            n == conflicts@.len(),
            j <= n,
            forall|k: int| 0 <= k < j ==> conflicts@[k]@ != path@,
        decreases n - j,
    {
        if conflicts[j] == *path {
            return Some(j);
        }
        j = j + 1;
    }
    None
}

/// Find the position of a remote by name.
fn find_remote(rp: &Repository, remote_name: &String) -> (r: Option<usize>)
    ensures
        match r {
            Some(j) => j < rp.remotes@.len() && rp.remotes@[j as int].name@ == remote_name@,
            None => !rp.has_remote(remote_name@),
        },
{
    let n = rp.remotes.len();
    let mut j: usize = 0;
    while j < n
        invariant
            n == rp.remotes@.len(),
            j <= n,
            forall|k: int| 0 <= k < j ==> rp.remotes@[k].name@ != remote_name@,
        decreases n - j,
    {
        if rp.remotes[j].name == *remote_name {
            return Some(j);
        }
        j = j + 1;
    }
    None
}

/// Whether the remote accepts the given credential token.
fn remote_accepts(rm: &Remote, token: u64) -> (b: bool)
    ensures
        b == rm.accepts(token),
{
    let n = rm.accepted_tokens.len();
    let mut j: usize = 0;
    while j < n
        invariant
            n == rm.accepted_tokens@.len(),
            j <= n,
            forall|k: int| 0 <= k < j ==> rm.accepted_tokens@[k] != token,
        decreases n - j,
    {
        if rm.accepted_tokens[j] == token {
            return true;
        }
        j = j + 1;
    }
    false
}

/// One best-effort transport attempt against a named remote: surfaces the
/// transport collaborator's verdict without translating one kind into
/// another.
fn attempt_transport(rp: &Repository, remote_name: &str, credentials: &Credentials) -> (r: Result<
    (),
    Error,
>)
    requires
        rp.wf(),
    ensures
        transport_result(*rp, remote_name@, credentials.token, r),
{
    let wanted: String = remote_name.to_string();
    let j = match find_remote(rp, &wanted) {
        Some(j) => j,
        None => {
            return Err(Error::with_context(ErrorKind::DomainError, "remote is not configured"));
        },
    };
    proof {
        assert(rp.remote_index(remote_name@) == j as int);
    }
    let rm = &rp.remotes[j];
    if !rm.reachable {
        return Err(Error::with_context(ErrorKind::NetworkFailed, "failed to reach remote"));
    }
    if !remote_accepts(rm, credentials.token) {
        return Err(Error::with_context(ErrorKind::AuthFailed, "remote rejected credentials"));
    }
    Ok(())
}

/// Copy a list of remote-tracking references, entry for entry.
fn clone_refs(refs: &Vec<RemoteRefname>) -> (r: Vec<RemoteRefname>)
    ensures
        r@.len() == refs@.len(),
        forall|k: int| 0 <= k < refs@.len() ==> r@[k]@ == refs@[k]@,
{
    let mut out: Vec<RemoteRefname> = Vec::new();
    let n = refs.len();
    let mut k: usize = 0;
    while k < n
        invariant
            n == refs@.len(),
            k <= n,
            out@.len() == k,
            forall|l: int| 0 <= l < k ==> out@[l]@ == refs@[l]@,
        decreases n - k,
    {
        out.push(refs[k].clone());
        k = k + 1;
    }
    out
}

} // verus!

