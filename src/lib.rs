//! Host-side logic for discovering a single "control" plugin among the
//! dynamic libraries next to the host executable and driving it through
//! its attach, invoke and detach lifecycle.
//!
//! The loading of native code and the calls across the C boundary are made
//! by the embedding program; this crate decides, step by step, what that
//! program does next and what the run's outcome is.
pub mod discovery;
pub mod lifecycle;
pub mod lifecycle_model;
pub mod scan_model;
pub mod text;
