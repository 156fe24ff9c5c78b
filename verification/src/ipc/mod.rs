//! Elevated-helper protocol boundary: wire types and their validation.

pub mod contract;
pub mod validation;
