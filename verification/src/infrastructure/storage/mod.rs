pub mod db;
pub mod repositories;
