//! The platform-specific parts of the media controls.

pub mod apple;
pub mod mpris;
pub mod windows;
