//! Incremental, reversible synchronisation of a music library selection onto
//! a removable volume: manifest bookkeeping, reconciliation, the per-unit
//! download / process / write pipeline decisions and the progress protocol.

pub mod text;
pub mod seq_facts;
pub mod sanitize;
pub mod auth;
pub mod api;
pub mod manifest;
pub mod models;
pub mod reconcile;
pub mod storage;
pub mod m3u;
pub mod pipeline;
pub mod cover;
pub mod engine;
pub mod progress;
pub mod device;
pub mod tui_log;
