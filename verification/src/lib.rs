//! A resumable, checksum-verified, chunked download engine.
//!
//! Every function in this crate is verified; the few calls into other crates
//! stand behind wrappers whose contracts are assumed and documented as such.

pub mod auth;
pub mod digest;
pub mod download_agent;
pub mod download_logic;
pub mod download_thread_control_flag;
pub mod error;
pub mod game_download;
pub mod library;
pub mod manifest;
pub mod progress_object;
pub mod remote;
pub mod rolling_progress_updates;
pub mod stored_manifest;
pub mod sums;
pub mod text;
