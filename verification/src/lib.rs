//! A peering engine for BGP-4: the wire codec of the protocol's messages and
//! the per-peer session state machine with its registry.
//!
//! Everything here works on plain values. Bytes come in and go out as
//! slices and vectors; sockets, timers and tasks belong to the caller.
pub mod messages;
pub mod rbgp;
