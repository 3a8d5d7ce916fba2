//! What holds of the library as a whole: relations between what goes into an operation and what
//! comes of it, over all inputs and over several calls.
pub mod archive;
pub mod backup;
pub mod basics;
pub mod collection;
pub mod commands;
pub mod imports;
pub mod jobs;
pub mod media;
pub mod parts;
pub mod runs;
pub mod schedule;
pub mod service;
pub mod sidecar;
pub mod tasks;
pub mod workers;
