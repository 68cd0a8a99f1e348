//! Use case: search of clips by content (full-text, ranked). The search
//! itself is the repository's; this module decides whether to ask it.

use std::sync::Arc;
use vstd::prelude::*;

verus! {

/// Use case: search in a repository of clips.
pub struct SearchClips<Repo> {
    repo: Arc<Repo>,
}

impl<Repo> SearchClips<Repo> {
    /// The repository that the use case works on.
    pub closed spec fn repository(&self) -> Arc<Repo> {
        self.repo
    }

    /// The use case on the repository `repo`.
    pub fn new(repo: Arc<Repo>) -> (s: SearchClips<Repo>)
        ensures
            s.repository() == repo,
    {
        SearchClips { repo }
    }

    /// The repository that the use case works on.
    pub fn repo(&self) -> (r: &Arc<Repo>)
        ensures
            *r == self.repository(),
    {
        &self.repo
    }

    /// Whether a search with this limit asks the repository: a limit that
    /// is not positive gives no results without a search.
    pub fn queries_repository(&self, limit: i64) -> (b: bool)
        ensures
            b == (limit > 0),
    {
        limit > 0
    }
}

} // verus!
