//! Project identity: the opaque identifiers handled by the facade and the
//! project metadata the directory stores for each of them.

use vstd::prelude::*;

verus! {

/// Opaque, unique identifier of a registered project.
#[derive(Clone, Copy, PartialEq, Eq, Structural, Debug)]
pub struct ProjectId {
    pub value: u64,
}

/// Identifier of a local branch, used to scope an askpass channel to the
/// branch whose push is being tested; absent means "the current branch".
#[derive(Clone, Copy, PartialEq, Eq, Structural, Debug)]
pub struct BranchId {
    pub value: u64,
}

/// An opaque credential capability supplied by the caller for one push or
/// fetch attempt; the facade never stores it beyond the call.
#[derive(Clone, Copy, PartialEq, Eq, Structural, Debug)]
pub struct Credentials {
    pub token: u64,
}

/// Metadata of a registered project: its identity and the filesystem path
/// of its repository.
#[derive(Debug)]
pub struct Project {
    pub id: ProjectId,
    pub path: String,
}

} // verus!
