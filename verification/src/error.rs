//! The failure taxonomy of the minter workflow.

use vstd::prelude::*;

verus! {

/// Every way an execute or query operation can fail.  A failed operation
/// never mutates the state: callers observe all-or-nothing semantics.
#[derive(Clone, Copy, Debug, PartialEq, Eq, Structural)]
pub enum MintError {
    /// The caller lacks the role (owner or minter) the operation demands.
    Unauthorized,
    /// Malformed or inconsistent configuration values at instantiation or
    /// at a configuration update.
    InvalidParameter,
    /// Minting has not been enabled or has not started.
    NotMintable,
    /// The contract is paused; minting operations are rejected.
    Paused,
    /// The address is not eligible during the whitelist-only window.
    NotWhitelisted,
    /// A per-address or per-window cap on mint requests was reached.
    MintLimitExceeded,
    /// The operation would push the supply counter past the maximum supply.
    SupplyExceeded,
    /// The requested token id already exists in the target collection; the
    /// token collaborator surfaces this, the core never produces it itself.
    DuplicateTokenId,
    /// A query index lies outside the request queue.
    NotFound,
    /// A withdrawal was attempted while the balance is zero.
    NothingToWithdraw,
}

impl MintError {
    /// A short human-readable description of the failure.
    pub fn message(&self) -> &'static str {
        match self {
            MintError::Unauthorized => "caller is not authorized for this operation",
            MintError::InvalidParameter => "invalid configuration parameter",
            MintError::NotMintable => "minting is not enabled or has not started",
            MintError::Paused => "the contract is paused",
            MintError::NotWhitelisted => "address is not whitelisted for minting",
            MintError::MintLimitExceeded => "mint request cap reached",
            MintError::SupplyExceeded => "maximum supply reached",
            MintError::DuplicateTokenId => "token id already exists",
            MintError::NotFound => "no entry at this index",
            MintError::NothingToWithdraw => "there are no funds to withdraw",
        }
    }
}

} // verus!
