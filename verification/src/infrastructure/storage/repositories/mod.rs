pub mod clip_repo;
pub mod workspace_repo;

pub use clip_repo::{
    flag_statements, insert_statement, list_statement, ClipRow, SqlValue, Statement, CLIP_COLUMNS,
    INSERT_CLIP, SET_FAVORITE, SET_PINNED,
};
pub use workspace_repo::{row_to_workspace, WorkspaceRow};
