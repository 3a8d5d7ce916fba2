//! The application engine: which work is admitted, what runs beside what, and how it all stops.
pub mod collection;
pub mod diagnostics;
pub mod engine;
pub mod notices;
pub mod shutdown;
pub mod task_manager;
