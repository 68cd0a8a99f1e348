//! The commands that the frontend invokes: their parameters and answers, and
//! what each command computes around the use cases and repositories.

use vstd::prelude::*;
use crate::domain::ids::{parse_id, uuid_parsed, Uuid};
use crate::domain::repositories::ListQuery;

verus! {

/// Name and version of the application.
#[derive(Debug, Clone)]
pub struct AppInfo {
    pub name: String,
    pub version: String,
}

/// The name of the application's package.
pub const APP_NAME: &'static str = "memora";

/// The version of the application's package.
pub const APP_VERSION: &'static str = "0.1.0";

impl AppInfo {
    /// The name and version of this application.
    pub fn current() -> (a: AppInfo)
        ensures
            a.name@ == APP_NAME@,
            a.version@ == APP_VERSION@,
    {
        AppInfo { name: String::from_str(APP_NAME), version: String::from_str(APP_VERSION) }
    }
}

/// Health of the application for the diagnostics panel.
#[derive(Debug, Clone)]
pub struct HealthInfo {
    pub app: AppInfo,
    pub database_healthy: bool,
    pub clip_count: i64,
    pub workspace_count: i64,
}

impl HealthInfo {
    /// The health report once both counts were read: the database answered,
    /// so it is healthy.
    pub fn new(app: AppInfo, clip_count: i64, workspace_count: usize) -> (h: HealthInfo)
        requires
            workspace_count <= i64::MAX,
        ensures
            h.app == app,
            h.database_healthy,
            h.clip_count == clip_count,
            h.workspace_count == workspace_count,
    {
        HealthInfo {
            app,
            database_healthy: true,
            clip_count,
            workspace_count: workspace_count as i64,
        }
    }
}

/// Parameters of the listing of clips.
#[derive(Debug, Clone)]
pub struct ListClipsParams {
    pub workspace_id: Option<String>,
    pub content_type: Option<String>,
    pub favorite_only: bool,
    pub pinned_only: bool,
    pub limit: i64,
    pub offset: i64,
}

impl ListClipsParams {
    /// The query that the listing runs: a workspace id that is no UUID
    /// filters nothing; there is no text search.
    pub fn into_query(self) -> (q: ListQuery)
        ensures
            q.workspace_id == match self.workspace_id {
                Some(w) => uuid_parsed(w@),
                None => None,
            },
            q.content_type == self.content_type,
            q.favorite_only == self.favorite_only,
            q.pinned_only == self.pinned_only,
            q.search is None,
            q.limit == self.limit,
            q.offset == self.offset,
    {
        let workspace_id = match &self.workspace_id {
            Some(w) => parse_id(w.as_str()),
            None => None,
        };
        ListQuery {
            workspace_id,
            content_type: self.content_type,
            favorite_only: self.favorite_only,
            pinned_only: self.pinned_only,
            search: None,
            limit: self.limit,
            offset: self.offset,
        }
    }
}

/// The number of results of a search that names no limit.
pub const DEFAULT_SEARCH_LIMIT: i64 = 50;

/// Parameters of a full-text search.
#[derive(Debug, Clone)]
pub struct SearchParams {
    pub query: String,
    pub limit: Option<i64>,
}

impl SearchParams {
    /// The limit of the search: the one given, else 50.
    pub fn effective_limit(&self) -> (l: i64)
        ensures
            l == match self.limit {
                Some(l) => l,
                None => DEFAULT_SEARCH_LIMIT,
            },
    {
        match self.limit {
            Some(l) => l,
            None => DEFAULT_SEARCH_LIMIT,
        }
    }
}

/// Parameters of the creation of a workspace.
#[derive(Debug, Clone)]
pub struct CreateWorkspaceParams {
    pub name: String,
    pub description: Option<String>,
}

/// Parameters of the renaming of a workspace.
#[derive(Debug, Clone)]
pub struct RenameWorkspaceParams {
    pub id: String,
    pub name: String,
}

/// Parameters of the deletion of a workspace.
#[derive(Debug, Clone)]
pub struct DeleteWorkspaceParams {
    pub id: String,
}

/// The answer of a command to an id that is no UUID.
pub const INVALID_ID_MESSAGE: &'static str = "id inválido";

/// The workspace id that a command names, or the command's error for text
/// that is no UUID.
pub fn command_id(text: &str) -> (r: Result<Uuid, String>)
    ensures
        match uuid_parsed(text@) {
            Some(id) => r == Ok::<Uuid, String>(id),
            None => r matches Err(m) && m@ == INVALID_ID_MESSAGE@,
        },
{
    match parse_id(text) {
        Some(id) => Ok(id),
        None => Err(String::from_str(INVALID_ID_MESSAGE)),
    }
}

impl RenameWorkspaceParams {
    /// The id of the workspace to rename.
    pub fn workspace_id(&self) -> (r: Result<Uuid, String>)
        ensures
            match uuid_parsed(self.id@) {
                Some(id) => r == Ok::<Uuid, String>(id),
                None => r matches Err(m) && m@ == INVALID_ID_MESSAGE@,
            },
    {
        command_id(self.id.as_str())
    }
}

impl DeleteWorkspaceParams {
    /// The id of the workspace to delete.
    pub fn workspace_id(&self) -> (r: Result<Uuid, String>)
        ensures
            match uuid_parsed(self.id@) {
                Some(id) => r == Ok::<Uuid, String>(id),
                None => r matches Err(m) && m@ == INVALID_ID_MESSAGE@,
            },
    {
        command_id(self.id.as_str())
    }
}

} // verus!
