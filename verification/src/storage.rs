//! The storage layer: disks, their partitions and the volumes mounted on them,
//! and the rules that read them from the Linux kernel's reports.
pub mod disk;
pub mod filesystem;
pub mod identification_data;
pub mod partition;
pub mod volume;
pub mod driver;
pub mod mounts;
pub mod volume_table;
pub mod sysfs;
pub mod device_events;
pub mod windows_layout;
pub mod linux;
