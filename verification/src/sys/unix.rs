//! The backends of the Unix family.

pub mod linux;
pub mod macos;
