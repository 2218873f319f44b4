//! Verified core of Foruster, a forensic acquisition tool: the storage model
//! (disks, partitions, volumes), file profiles, the classification rules of the
//! analysis and the text helpers they rest on.
pub mod foruster_core;
pub mod text;
pub mod tokens;
pub mod storage;
pub mod app_core;
pub mod analysis;
pub mod api;
pub mod desktop;
pub mod reporting;
pub mod layers;
pub mod profiling;
pub mod foruster_profiles;
