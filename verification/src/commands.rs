//! What the user interface asks for and what it is told.
pub mod backend;
pub mod error;
pub mod sync;
