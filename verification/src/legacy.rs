//! Inspection of databases that earlier programs left behind, and their import.
pub mod fingerprint;
pub mod import;
pub mod publish;
pub mod source;
