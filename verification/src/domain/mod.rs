pub mod errors;
pub mod ids;
pub mod models;
pub mod repositories;
pub mod value_objects;
