//! The database's own column types.

pub mod sql_types;
