//! Domain models.
pub mod user;
