//! What can go wrong while a blockhash is chosen or resolved.

use vstd::prelude::*;

verus! {

/// Why no blockhash could be had.
///
/// Every error ends the attempt it came from: nothing is retried, and no
/// value is ever put in the place of one that could not be had.
#[derive(Clone, Copy, Debug, PartialEq, Eq)]
pub enum ResolutionError {
    /// The command-line values contradict each other: signing offline was
    /// asked for, and no blockhash was given to sign with.
    InvalidModeCombination,
    /// No account exists at the address of the nonce account.
    AccountNotFound,
    /// The account exists, and what it stores is not the state of a nonce
    /// account that holds a value.
    InvalidAccountState,
    /// The node gave no answer.
    NetworkUnavailable,
}

impl ResolutionError {
    /// The text of [`ResolutionError::message`].
    pub open spec fn message_spec(self) -> Seq<char> {
        match self {
            ResolutionError::InvalidModeCombination => {
                "signing offline requires an explicit blockhash"@
            },
            ResolutionError::AccountNotFound => "the nonce account does not exist"@,
            ResolutionError::InvalidAccountState => {
                "the account does not hold the state of an initialized nonce account"@
            },
            ResolutionError::NetworkUnavailable => "the node did not answer"@,
        }
    }

    /// A sentence for the user that says what went wrong. For contradictory
    /// inputs it names the input that is missing.
    pub fn message(&self) -> (text: &'static str)
        ensures
            text@ == self.message_spec(),
    {
        match self {
            ResolutionError::InvalidModeCombination => {
                "signing offline requires an explicit blockhash"
            },
            ResolutionError::AccountNotFound => "the nonce account does not exist",
            ResolutionError::InvalidAccountState => {
                "the account does not hold the state of an initialized nonce account"
            },
            ResolutionError::NetworkUnavailable => "the node did not answer",
        }
    }

    /// Whether the error lies in the caller's inputs and was found before
    /// anything was asked of the node.
    pub fn is_usage_error(&self) -> (usage: bool)
        ensures
            usage <==> *self is InvalidModeCombination,
    {
        match self {
            ResolutionError::InvalidModeCombination => true,
            _ => false,
        }
    }
}

} // verus!
