//! A protocol bridge library: the verified core of a line-oriented,
//! MPD-style music-daemon front end that drives a single external media
//! session discovered at run time.
//!
//! The crate models the protocol engine as pure transitions over plain
//! values: byte buffers in, byte responses and actions out.  The
//! surrounding process (sockets, the backend session, the shared store)
//! performs I/O and hands events back to these functions.

pub mod controller;
pub mod engine;
pub mod error;
pub mod frame;
pub mod laws;
pub mod player;
pub mod responses;
pub mod store;
pub mod text;
