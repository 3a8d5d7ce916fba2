//! Snapshots of the user's data, without session credentials: what belongs to one, when it can be
//! trusted, and how it is restored.
pub mod manifest;
pub mod restore;
