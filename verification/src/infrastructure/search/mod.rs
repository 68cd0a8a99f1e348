pub mod fts;
