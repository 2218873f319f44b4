//! The application's own model: disks, files with their digests and
//! filesystem types.
pub mod disk;
pub mod file;
pub mod filesystem;

pub use crate::storage::identification_data::{IdentificationData, StorageBusType};
pub use disk::Disk;
pub use file::{FileEntry, HashFunction};
pub use filesystem::Filesystem;
