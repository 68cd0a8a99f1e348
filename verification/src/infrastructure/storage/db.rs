//! The SQLite database: where it lives by default, and the row of a count.

use vstd::prelude::*;

verus! {

/// `std::path::Path`, carried opaquely.
#[verifier::external_type_specification]
#[verifier::external_body]
pub struct ExPath(std::path::Path);

/// `std::path::PathBuf`, carried opaquely.
#[verifier::external_type_specification]
#[verifier::external_body]
pub struct ExPathBuf(std::path::PathBuf);

/// The file name of the database inside the application's data directory.
pub const DATABASE_FILE_NAME: &'static str = "memora.db";

/// The path that `Path::join` gives for a base path and a relative name.
pub uninterp spec fn joined_path(base: &std::path::Path, name: Seq<char>) -> std::path::PathBuf;

/// `Path::join`: `name` appended to `base` as one more component. The joined
/// path is named, not stated: separators are the platform's.
#[verifier::external_body]
fn path_join(base: &std::path::Path, name: &str) -> (joined: std::path::PathBuf)
    ensures
        joined == joined_path(base, name@),
{
    base.join(name)
}

/// Default location of the database inside the application's data
/// directory: the file `memora.db` in it.
pub fn default_database_path(app_data_dir: &std::path::Path) -> (p: std::path::PathBuf)
    ensures
        p == joined_path(app_data_dir, DATABASE_FILE_NAME@),
{
    path_join(app_data_dir, DATABASE_FILE_NAME)
}

/// Row type of simple count queries.
#[derive(Debug)]
pub struct CountRow {
    pub count: i64,
}

} // verus!
