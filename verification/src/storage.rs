//! Stored records and the rules for writing them.
pub mod database;
pub mod internal;
