//! cargo-chrono: the verified core of a Cargo build performance observer.
//!
//! The crate turns Cargo's machine-readable build messages into typed build
//! events, decides what gets recorded, compares recorded builds, classifies
//! compile times against a statistical baseline and prepares the text that
//! the dashboard and the command line show.

pub mod time;
pub mod text;
pub mod model;
pub mod json;
pub mod scan;
pub mod parser;
pub mod anomaly;
pub mod isqrt;
pub mod persist;
pub mod order;
pub mod diff;
pub mod clock;
pub mod tui;
pub mod dashboard;
pub mod render;
pub mod cli;
pub mod broker;
