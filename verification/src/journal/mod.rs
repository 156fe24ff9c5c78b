//! The change journal's vocabulary: states of transactions and items.

pub mod models;
