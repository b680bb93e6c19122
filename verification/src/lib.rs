//! Verified core of WindowAutoLayout: configuration normalization, window
//! matching, monitor resolution, layout placement and restore decisions.
pub mod text;
pub mod models;
pub mod outside;
pub mod config;
pub mod monitors;
pub mod targets;
pub mod geometry;
pub mod processes;
pub mod matching;
pub mod placement;
pub mod errors;
pub mod restore;
pub mod selection;
pub mod app_restore;
pub mod restore_steps;
pub mod profile_restore;
pub mod hold_check;
pub mod capture;
pub mod config_file;
pub mod launcher;
pub mod runtime;
pub mod listing;
pub mod actions;
