//! What the persistence ports are asked: the filters of a listing.
//! (The ports themselves are asynchronous and live with the storage.)

use vstd::prelude::*;
use crate::domain::ids::Uuid;

verus! {

/// Filters and paging of a listing of clips.
#[derive(Debug, Clone)]
pub struct ListQuery {
    pub workspace_id: Option<Uuid>,
    pub content_type: Option<String>,
    pub favorite_only: bool,
    pub pinned_only: bool,
    pub search: Option<String>,
    pub limit: i64,
    pub offset: i64,
}

impl Default for ListQuery {
    /// No filter, the first 50 clips.
    fn default() -> (q: ListQuery)
        ensures
            q.workspace_id is None,
            q.content_type is None,
            !q.favorite_only,
            !q.pinned_only,
            q.search is None,
            q.limit == 50,
            q.offset == 0,
    {
        ListQuery {
            workspace_id: None,
            content_type: None,
            favorite_only: false,
            pinned_only: false,
            search: None,
            limit: 50,
            offset: 0,
        }
    }
}

} // verus!
