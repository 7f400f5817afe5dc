//! Single-client directory synchronization engine.
//!
//! The library models the protocol state of a Socket.IO-compatible sync
//! server: path filtering, size limits, chunked transfer with per-chunk
//! acknowledgements, echo suppression, and the session's single-client slot.
//! Network and file I/O stay outside; the functions here decide, and their
//! contracts say exactly what they decide.

pub mod b64;
pub mod broadcast;
pub mod config;
pub mod echo;
pub mod filter;
pub mod limits;
pub mod logview;
pub mod messages;
pub mod paths;
pub mod proto;
pub mod pump;
pub mod release;
pub mod session;
pub mod strmap;
pub mod strutil;
pub mod upload;
pub mod wire;

