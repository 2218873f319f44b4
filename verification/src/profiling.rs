//! Analysis profiles: which files a profile selects, and how it is shown.
pub mod profile;
pub mod profile_style;
