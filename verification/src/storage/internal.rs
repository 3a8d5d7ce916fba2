//! Rows of the database and the plans that change them.
pub mod archive;
pub mod entities;
pub mod post;
pub mod transactional;
