//! Identifies and classifies the Windows build.

pub mod catalog;
pub mod os_identity;
