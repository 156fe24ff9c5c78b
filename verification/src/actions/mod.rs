//! Actions whose decisions do not depend on the operating system's answer.

pub mod window_layout;
