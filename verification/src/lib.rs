//! Choosing and resolving the blockhash that a transaction carries.
//!
//! A transaction names a recent blockhash so that the network can turn away
//! stale or repeated submissions. The value comes from one of three places:
//! the caller hands it over, a nonce account stores it, or the node reports
//! its latest one. [`select`] decides which of the three applies to a set of
//! command-line values, and [`resolve`] turns that decision, together with
//! what the node answered, into the value itself.
//!
//! Nothing here talks to a node. [`ResolutionMode::query`] says what has to
//! be asked, the caller asks, and [`resolve`] takes the answer.

pub mod error;
pub mod laws;
pub mod mode;
pub mod node;
pub mod nonce;
pub mod resolve;
pub mod values;

pub use error::ResolutionError;
pub use mode::{new_from_matches, select, Matches, ResolutionMode};
pub use node::{NodeQuery, NodeReply};
pub use nonce::{durable_nonce, stored_value, NonceState};
pub use resolve::resolve;
pub use values::{Address, HashValue};
