//! Coordination of inspection windows for a content-credential viewer: each window's
//! readiness handshake, its queued path and held-back errors, the choice between the startup
//! window and a new one, and the manifest report of an asset's bytes.

pub mod affinity;
pub mod editor;
pub mod file_ext;
pub mod inspect;
