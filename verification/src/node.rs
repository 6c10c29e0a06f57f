//! What resolution asks of a node, and what a node can answer.
//!
//! The library never reaches a node itself. It names the one question that a
//! mode needs answered, and takes the answer as a value.

use vstd::prelude::*;
use crate::mode::ResolutionMode;
use crate::values::{Address, HashValue};

verus! {

/// A question to the node.
#[derive(Clone, Copy, Debug, PartialEq, Eq)]
pub enum NodeQuery {
    /// What is the latest blockhash?
    RecentBlockhash,
    /// What does the account at this address store?
    AccountData(Address),
}

/// The node's answer to one question.
#[derive(Debug, PartialEq, Eq)]
pub enum NodeReply {
    /// The latest blockhash.
    RecentBlockhash(HashValue),
    /// The bytes that the account stores.
    AccountData(Vec<u8>),
    /// There is no account at the address.
    AccountNotFound,
    /// The node could not be reached, or failed to answer.
    Unavailable,
}

impl ResolutionMode {
    /// The question that this mode needs answered: none for a value that the
    /// caller gave, and exactly one for every other mode.
    pub open spec fn query_spec(self) -> Option<NodeQuery> {
        match self {
            ResolutionMode::FixedHash(_) => None,
            ResolutionMode::DurableNonce(address) => Some(NodeQuery::AccountData(address)),
            ResolutionMode::LiveLookup => Some(NodeQuery::RecentBlockhash),
            ResolutionMode::FeeCalculatorFallback => Some(NodeQuery::RecentBlockhash),
        }
    }

    /// The question to put to the node before this mode can be resolved, or
    /// `None` where the node is not needed.
    pub fn query(&self) -> (query: Option<NodeQuery>)
        ensures
            query == self.query_spec(),
            query is None <==> *self is FixedHash,
    {
        match self {
            ResolutionMode::FixedHash(_) => None,
            ResolutionMode::DurableNonce(address) => Some(NodeQuery::AccountData(*address)),
            ResolutionMode::LiveLookup => Some(NodeQuery::RecentBlockhash),
            ResolutionMode::FeeCalculatorFallback => Some(NodeQuery::RecentBlockhash),
        }
    }
}

} // verus!
