//! The messages exchanged with the server, reduced to what a transaction
//! reads or writes; every other field is carried along as it is.

use std::collections::HashMap;
use vstd::prelude::*;

use crate::context::TxnContext;

verus! {

/// A query, ready to be sent.
#[derive(Clone, Debug, PartialEq)]
pub struct Request {
    /// The text of the query.
    pub query: String,
    /// The values bound to the query's variables.
    pub vars: HashMap<String, String>,
    /// Whether the query belongs to a read-only transaction.
    pub read_only: bool,
    /// Whether the server may answer from a cached timestamp.
    pub best_effort: bool,
}

/// The server's answer to a query.
#[derive(Clone, Debug, PartialEq)]
pub struct Response {
    /// The context of the transaction after the query; the server owes it.
    pub txn: Option<TxnContext>,
    /// The result of the query, encoded by the server.
    pub json: Vec<u8>,
}

/// A mutation, as the caller writes it and as it is sent.
#[derive(Clone, Debug, PartialEq)]
pub struct Mutation {
    /// Data to add, as JSON.
    pub set_json: Vec<u8>,
    /// Data to remove, as JSON.
    pub delete_json: Vec<u8>,
    /// Data to add, as N-Quads.
    pub set_nquads: Vec<u8>,
    /// Data to remove, as N-Quads.
    pub del_nquads: Vec<u8>,
    /// The snapshot the mutation is applied at; the transaction fills it in.
    pub start_ts: u64,
    /// Whether the server is to commit right after applying the mutation.
    pub commit_now: bool,
}

/// The server's answer to a mutation.
#[derive(Clone, Debug, PartialEq)]
pub struct Assigned {
    /// The identifiers that the server allocated, by blank-node name.
    pub uids: HashMap<String, String>,
    /// The context of the transaction after the mutation; the server owes it.
    pub context: Option<TxnContext>,
}

} // verus!
