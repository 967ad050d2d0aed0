//! Client-side transport layer for exchanging byte streams with a local
//! serial device or a remote host over SSH.
//!
//! The crate models each transport (serial, SSH) as an explicit state
//! machine whose transitions are verified: connection lifecycle, byte
//! counters, read/write outcome handling, and the trust-on-first-use
//! host-key verification protocol.  The blocking and asynchronous I/O
//! itself is performed by a thin unverified driver that feeds outcomes
//! into these machines.

pub mod actor;
pub mod connection;
pub mod error;
pub mod hostkey;
pub mod secrets;
pub mod serial;
pub mod settings;
pub mod ssh;
pub mod text;
pub mod theme;
