//! Storage model with drive letters and partition layouts: disks, partitions, volumes.
pub mod disk;
pub mod filesystem;
pub mod identification_data;
pub mod partition;
pub mod storage_bus_type;
pub mod volume;
