//! Core of a frame-to-packet video pipeline: pixel-format negotiation,
//! frame conversion into the negotiated layout, monotonic presentation
//! timestamp assignment, timestamp rescaling between time bases, and the
//! exactly-once finalize lifecycle of an encode session.
//!
//! The bit-level encoder and the container writer are external collaborators;
//! this crate decides what is handed to them and in what order, over plain
//! values, and every decision carries a proved contract.

pub mod error;
pub mod format;
pub mod frame;
pub mod session;
pub mod time;
