pub mod save_clip;
pub mod search_clips;
pub mod workspaces;
