//! A minimal substrate for two ledger primitives: an append-only,
//! hash-linked record chain, and a point-to-point message-transport
//! capability with an in-process reference implementation.

pub mod chain;
pub mod local_transport;
pub mod transport;
