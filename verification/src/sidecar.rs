//! The collector sidecar: its line protocol, its supervision and the collection of its events.
pub mod collector;
pub mod protocol;
pub mod run;
pub mod supervisor;
