//! Connection handle, statement execution and schema migration.

pub mod database;
pub mod response;
