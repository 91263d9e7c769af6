//! Verified decision logic of the Terracotta multiplayer helper: room-code
//! normalisation, request URLs, download bookkeeping and the runtime state
//! machine that starts, probes and stops the helper process.

pub mod text;
pub mod error;
pub mod encoding;
pub mod room;
pub mod platform;
pub mod request;
pub mod download;
pub mod state;
pub mod runtime;
pub mod startup;
pub mod install;
