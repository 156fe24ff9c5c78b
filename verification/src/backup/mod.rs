//! Lossless, versioned backup primitives. Display text is never a restore source.

pub mod envelope;
pub mod fingerprint;
pub mod registry;
