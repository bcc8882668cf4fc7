//! Telemetry aggregation for a live hardware monitor: fixed-length sliding
//! windows per metric stream, a stable ordering of hardware entities, and the
//! bridge that merges readings from an elevated helper process.
//!
//! The library holds the rules and the state. Polling the system, running
//! tools and talking to the worker process are the caller's part: the caller
//! hands in what it read as plain values and gets plain values back.

pub mod history;
pub mod stable_index;
pub mod monitor;
pub mod worker;
pub mod storage;
pub mod network;
pub mod cpu;
pub mod memory;
pub mod gpu;
pub mod system;
pub mod details;
pub mod settings;
pub mod utils;
pub mod text;
pub mod json;
