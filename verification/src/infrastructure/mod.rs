pub mod commands;
pub mod events;
pub mod search;
pub mod storage;
