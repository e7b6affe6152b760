//! Verified core of a small desktop-assistant backend.
//!
//! The library holds the process-wide configuration state, the prompt and
//! request-body construction for a local language-model server, and the
//! request preparation and lenient response decoding for a remote
//! task-management API.  The embedding application performs the actual
//! network calls and hands the raw responses back to this crate.

pub mod agent;
pub mod json;
pub mod numbers;
pub mod state;
pub mod tasks;
