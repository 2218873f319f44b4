//! The operations the user interface calls: profiles, storage and the
//! progress of an analysis.
pub mod profile_api;
pub mod analysis_api;
pub mod storage_api;
