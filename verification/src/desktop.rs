//! The rules behind the desktop screens: the results list, the folders to
//! analyze and the list of disks.
pub mod results;
pub mod paths;
pub mod disks;
