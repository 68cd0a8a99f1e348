//! Use case: management of workspaces. The steps that touch the repository
//! are the caller's; this module decides each of them.

use std::sync::Arc;
use vstd::prelude::*;
use crate::domain::errors::DomainError;
use crate::domain::ids::Uuid;
use crate::domain::models::Workspace;
use crate::text::{trim, trimmed};

verus! {

/// The message of the error for a name that is empty once trimmed.
pub const EMPTY_NAME_MESSAGE: &'static str = "el nombre está vacío";

/// The message of the conflict for a name already taken:
/// `ya existe un workspace llamado '<name>'`.
pub open spec fn name_taken_message(name: Seq<char>) -> Seq<char> {
    "ya existe un workspace llamado '"@ + name + "'"@
}

/// Use case: management of workspaces in a repository of workspaces.
pub struct WorkspaceService<Repo> {
    repo: Arc<Repo>,
}

impl<Repo> WorkspaceService<Repo> {
    /// The repository that the use case works on.
    pub closed spec fn repository(&self) -> Arc<Repo> {
        self.repo
    }

    /// The use case on the repository `repo`.
    pub fn new(repo: Arc<Repo>) -> (s: WorkspaceService<Repo>)
        ensures
            s.repository() == repo,
    {
        WorkspaceService { repo }
    }

    /// The repository that the use case works on.
    pub fn repo(&self) -> (r: &Arc<Repo>)
        ensures
            *r == self.repository(),
    {
        &self.repo
    }

    /// First step of `create`: the trimmed name, which must not be empty.
    pub fn validate_name(&self, name: &str) -> (r: Result<String, DomainError>)
        ensures
            r is Ok <==> trimmed(name@).len() > 0,
            r matches Ok(n) ==> n@ == trimmed(name@),
            r matches Err(e) ==> e matches DomainError::InvalidContent(m) && m@
                == EMPTY_NAME_MESSAGE@,
    {
        let name = trim(name);
        if name.is_empty() {
            return Err(DomainError::InvalidContent(String::from_str(EMPTY_NAME_MESSAGE)));
        }
        Ok(String::from_str(name))
    }

    /// Second step of `create`, once the repository has been asked for a
    /// workspace with that name: a taken name is a conflict; otherwise the
    /// new workspace (not the default one, without icon) is to be inserted.
    pub fn resolve_create(
        &self,
        name: String,
        existing: Option<Workspace>,
        description: Option<&str>,
        id: Uuid,
        now: String,
    ) -> (r: Result<Workspace, DomainError>)
        ensures
            r is Ok <==> existing is None,
            r matches Err(e) ==> e matches DomainError::Conflict(m) && m@ == name_taken_message(
                name@,
            ),
            r matches Ok(w) ==> {
                &&& w.id == id
                &&& w.name@ == name@
                &&& match description {
                    Some(d) => w.description matches Some(wd) && wd@ == d@,
                    None => w.description is None,
                }
                &&& w.icon is None
                &&& w.created_at@ == now@
                &&& !w.is_default
            },
    {
        if existing.is_some() {
            proof {
                reveal_strlit("ya existe un workspace llamado '");
                reveal_strlit("'");
            }
            let mut message = String::from_str("ya existe un workspace llamado '");
            message.append(name.as_str());
            message.append("'");
            return Err(DomainError::Conflict(message));
        }
        let description = match description {
            Some(d) => Some(String::from_str(d)),
            None => None,
        };
        Ok(Workspace { id, name, description, icon: None, created_at: now, is_default: false })
    }

    /// The step of `rename`, on the workspace that the repository found:
    /// the workspace with its name trimmed, which must not be empty; the
    /// other fields are kept.
    pub fn apply_rename(&self, workspace: Workspace, new_name: &str) -> (r: Result<Workspace, DomainError>)
        ensures
            r is Ok <==> trimmed(new_name@).len() > 0,
            r matches Ok(w) ==> {
                &&& w.name@ == trimmed(new_name@)
                &&& w.id == workspace.id
                &&& w.description == workspace.description
                &&& w.icon == workspace.icon
                &&& w.created_at == workspace.created_at
                &&& w.is_default == workspace.is_default
            },
            r matches Err(e) ==> e matches DomainError::InvalidContent(m) && m@
                == EMPTY_NAME_MESSAGE@,
    {
        let mut workspace = workspace;
        workspace.name = String::from_str(trim(new_name));
        if workspace.name.as_str().is_empty() {
            return Err(DomainError::InvalidContent(String::from_str(EMPTY_NAME_MESSAGE)));
        }
        Ok(workspace)
    }
}

} // verus!
