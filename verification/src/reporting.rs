//! The forensic report: digests of the files found and the text of each
//! section.
pub mod hashes;
pub mod report;
pub mod wrap;
