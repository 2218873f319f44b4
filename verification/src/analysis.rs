//! The analysis: walking the chosen folders, matching files against profiles
//! and flagging files that hide what they are.
pub mod suspicion;
pub mod config;
pub mod walker;
pub mod finding;
pub mod engine;
