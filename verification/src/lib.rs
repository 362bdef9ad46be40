//! A connection adapter between a single-threaded, callback-driven TCP/IP
//! engine and asynchronous byte-stream callers.
//!
//! The engine itself, the tunnel device and the task scheduler stay outside:
//! this crate holds the decisions. Every operation is a step of a state
//! machine that takes what the engine or the caller reported and says what
//! the state becomes and what has to be done next.

pub mod connection;
pub mod laws;
pub mod model;
pub mod netif;
pub mod outcome;
pub mod serializer;
pub mod status;
pub mod text;
pub mod trace;
