//! The ways a blockhash can be had, and the choice among them.

use vstd::prelude::*;
use crate::error::ResolutionError;
use crate::values::{Address, HashValue};

verus! {

/// Where the blockhash of a transaction comes from.
#[derive(Clone, Copy, Debug, PartialEq, Eq)]
pub enum ResolutionMode {
    /// The caller gave the value. The node is never asked, online or offline.
    FixedHash(HashValue),
    /// The value is the one that the nonce account at this address stores
    /// now. The transaction has to advance that nonce.
    DurableNonce(Address),
    /// The value is the latest blockhash that the node reports.
    LiveLookup,
    /// The fee-calculator fallback of older call paths. It resolves exactly
    /// as [`ResolutionMode::LiveLookup`] does and is kept only until those
    /// paths are gone: [`select`] never chooses it.
    FeeCalculatorFallback,
}

impl ResolutionMode {
    /// The nonce account that the transaction has to advance, signed by that
    /// account's authority, before it is submitted: the account of a durable
    /// nonce, and none for every other mode.
    pub open spec fn nonce_to_advance_spec(self) -> Option<Address> {
        match self {
            ResolutionMode::DurableNonce(address) => Some(address),
            _ => None,
        }
    }

    /// The nonce account whose advance the caller owes, if this mode took its
    /// value from one.
    pub fn nonce_to_advance(&self) -> (account: Option<Address>)
        ensures
            account == self.nonce_to_advance_spec(),
            account is Some <==> *self is DurableNonce,
    {
        match self {
            ResolutionMode::DurableNonce(address) => Some(*address),
            _ => None,
        }
    }

    /// Whether this mode is kept only for older call paths and is due to go.
    pub fn is_deprecated(&self) -> (deprecated: bool)
        ensures
            deprecated <==> *self is FeeCalculatorFallback,
    {
        match self {
            ResolutionMode::FeeCalculatorFallback => true,
            _ => false,
        }
    }
}

/// The values that a parsed command line holds for the choice of a mode.
#[derive(Clone, Copy, Debug, PartialEq, Eq)]
pub struct Matches {
    /// The blockhash given on the command line, if one was.
    pub blockhash: Option<HashValue>,
    /// Whether the transaction is only to be signed, without any network
    /// access.
    pub sign_only: bool,
    /// The address of the nonce account given on the command line, if one
    /// was.
    pub nonce_account: Option<Address>,
}

/// The mode that belongs to each combination of the three inputs.
///
/// | `explicit_value` | `nonce_account` | `sign_only` | result |
/// |---|---|---|---|
/// | present | any | any | `FixedHash(explicit_value)` |
/// | absent | any | `true` | `InvalidModeCombination` |
/// | absent | present | `false` | `DurableNonce(nonce_account)` |
/// | absent | absent | `false` | `LiveLookup` |
pub open spec fn select_spec(
    explicit_value: Option<HashValue>,
    sign_only: bool,
    nonce_account: Option<Address>,
) -> Result<ResolutionMode, ResolutionError> {
    match (explicit_value, nonce_account) {
        (Some(value), _) => Ok(ResolutionMode::FixedHash(value)),
        (None, _) if sign_only => Err(ResolutionError::InvalidModeCombination),
        (None, Some(address)) => Ok(ResolutionMode::DurableNonce(address)),
        (None, None) => Ok(ResolutionMode::LiveLookup),
    }
}

/// Chooses the mode for the three inputs, or rejects them.
///
/// A value given by the caller settles the matter whatever else is set.
/// Without one, signing offline is impossible, since both other modes read
/// from the node; online, a nonce account takes precedence over the node's
/// latest blockhash.
pub fn select(
    explicit_value: Option<HashValue>,
    sign_only: bool,
    nonce_account: Option<Address>,
) -> (mode: Result<ResolutionMode, ResolutionError>)
    ensures
        mode == select_spec(explicit_value, sign_only, nonce_account),
        mode is Err <==> explicit_value is None && sign_only,
        mode is Err ==> mode == Err::<ResolutionMode, ResolutionError>(
            ResolutionError::InvalidModeCombination,
        ),
        mode is Ok ==> mode->Ok_0 != ResolutionMode::FeeCalculatorFallback,
{
    match explicit_value {
        Some(value) => Ok(ResolutionMode::FixedHash(value)),
        None => {
            if sign_only {
                Err(ResolutionError::InvalidModeCombination)
            } else {
                match nonce_account {
                    Some(address) => Ok(ResolutionMode::DurableNonce(address)),
                    None => Ok(ResolutionMode::LiveLookup),
                }
            }
        },
    }
}

/// Chooses the mode for the values of a parsed command line.
pub fn new_from_matches(matches: &Matches) -> (mode: Result<ResolutionMode, ResolutionError>)
    ensures
        mode == select_spec(matches.blockhash, matches.sign_only, matches.nonce_account),
{
    select(matches.blockhash, matches.sign_only, matches.nonce_account)
}

} // verus!
