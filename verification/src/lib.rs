//! Verified core of the PC customisation assistant: request validation for the
//! elevated helper, backup fingerprints, compatibility decisions, the journal's
//! state vocabulary and recovery decisions, display comparison, hot corners,
//! health reports, the profile store and the game-profile state machines.

pub mod text;
pub mod ipc;
pub mod ids;
pub mod error;
pub mod hot_corner;
pub mod display_profile;
pub mod action;
pub mod compatibility;
pub mod journal;
pub mod health_report;
pub mod backup;
pub mod engine;
pub mod game_profile;
pub mod window_layout;
pub mod actions;
pub mod display_rescue;
pub mod presentation;
pub mod config_snapshot;
pub mod bootstrap;
