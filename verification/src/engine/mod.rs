//! Decisions of the change engine: health probes, recovery and rollback.

pub mod commit;
pub mod probe;
pub mod recovery;
pub mod token;
