//! Profiles without a display style, and the built-in set of them.
pub mod profile;
