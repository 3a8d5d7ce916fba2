//! Local-first backup engine: task lifecycle, collector protocol, durable sync
//! execution, scheduling, media handling, legacy import and user backups.
pub mod commands;
pub mod config;
pub mod error;
pub mod hash;
pub mod json;
pub mod laws;
pub mod legacy;
pub mod media_downloader;
pub mod media_pipeline;
pub mod models;
pub mod paths;
pub mod rate_limit;
pub mod refresh_scheduler;
pub mod service;
pub mod sidecar;
pub mod sqlite_write;
pub mod storage;
pub mod sync_executor;
pub mod text;
pub mod user_backup;
pub mod web;
