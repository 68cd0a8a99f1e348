//! Workspaces as the `workspaces` table stores them.

use vstd::prelude::*;
use crate::domain::ids::{parse_id, uuid_parsed};
use crate::domain::models::Workspace;

verus! {

/// A row of `workspaces`: id, name, description, icon, created_at,
/// is_default (0 or 1).
pub type WorkspaceRow = (String, String, Option<String>, Option<String>, String, i64);

fn copy_text(s: &String) -> (c: String)
    ensures
        c@ == s@,
{
    s.clone()
}

fn copy_optional_text(s: &Option<String>) -> (c: Option<String>)
    ensures
        match (c, *s) {
            (Some(a), Some(b)) => a@ == b@,
            (None, None) => true,
            _ => false,
        },
{
    match s {
        Some(t) => Some(t.clone()),
        None => None,
    }
}

/// The workspace that a row holds. An id that is no UUID reads as the nil
/// UUID (0); any non-zero `is_default` reads as true.
pub fn row_to_workspace(row: &WorkspaceRow) -> (w: Workspace)
    ensures
        w.id == match uuid_parsed(row.0@) {
            Some(id) => id,
            None => 0,
        },
        w.name@ == row.1@,
        match (w.description, row.2) {
            (Some(a), Some(b)) => a@ == b@,
            (None, None) => true,
            _ => false,
        },
        match (w.icon, row.3) {
            (Some(a), Some(b)) => a@ == b@,
            (None, None) => true,
            _ => false,
        },
        w.created_at@ == row.4@,
        w.is_default == (row.5 != 0),
{
    let id = match parse_id(row.0.as_str()) {
        Some(id) => id,
        None => 0,
    };
    Workspace {
        id,
        name: copy_text(&row.1),
        description: copy_optional_text(&row.2),
        icon: copy_optional_text(&row.3),
        created_at: copy_text(&row.4),
        is_default: row.5 != 0,
    }
}

} // verus!
