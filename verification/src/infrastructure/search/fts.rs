//! Full-text search (SQLite FTS5, ranked by BM25): what is asked of the index.

use vstd::prelude::*;
use crate::text::{trim, trimmed};

verus! {

/// The term to look up for a query: the query trimmed, or `None` for a
/// query that is empty once trimmed, which finds nothing without a lookup.
pub fn search_term(query: &str) -> (r: Option<&str>)
    ensures
        r is Some <==> trimmed(query@).len() > 0,
        r matches Some(t) ==> t@ == trimmed(query@),
{
    let term = trim(query);
    if term.is_empty() {
        None
    } else {
        Some(term)
    }
}

} // verus!
