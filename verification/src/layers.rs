//! Linking the logical layer (volumes) to the physical layer (disks and their
//! partitions), and decoding what Windows hands back about them.
pub mod link_layers;
pub mod utils;
pub mod volumes;
