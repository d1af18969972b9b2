//! Client-side coordinator for optimistic, snapshot-isolated transactions
//! against a remote graph database.
//!
//! The crate performs no network traffic itself. Every operation of a
//! transaction is a decision: it inspects the local bookkeeping, says what has
//! to be sent to the server (if anything), and absorbs the server's reply when
//! the caller hands it back. The caller owns the connection and runs the round
//! trips in between.

pub mod context;
pub mod error;
pub mod laws;
pub mod message;
pub mod model;
pub mod txn;
