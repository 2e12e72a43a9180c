//! The named failures that the gates and the engine report.
//!
//! Every failure aborts the whole operation with no persisted side effect;
//! none is a transient condition, so no variant carries retry information.
use vstd::prelude::*;

verus! {

/// Why an operation was rejected.
#[derive(Clone, Copy, Debug, PartialEq, Eq, Structural)]
pub enum ContractError {
    /// Caller lacks the required role or has no voting weight.
    Unauthorized,
    /// A token id is already taken by a finished mint.
    Claimed,
    /// The proposal's voting period is over.
    Expired,
    /// Per-wallet mint quota exhausted.
    WalletLimitExceeded,
    /// Global supply exhausted.
    SoldOut,
    /// Global free-mint quota exhausted.
    FreeLimitExceeded,
    /// Caller is not the designated minter.
    NotMinter,
    /// Caller is not one of the designated treasury parties.
    NotSigner,
    /// Withdrawal attempted before unanimous sign-off.
    NotAllSigned,
    /// No token record exists under the requested id.
    CannotGetExtension,
    /// The requested proposal does not exist: the host store has no record
    /// under that id.
    NotFound,
    /// A threshold was configured with a zero required weight.
    ZeroWeight,
    /// A threshold was configured with a requirement that no tally can meet.
    UnreachableWeight,
    /// A registry was instantiated from an empty voter list.
    NoVoters,
    /// The proposal is not open for voting.
    NotOpen,
    /// The proposal has not expired yet, so it cannot be closed.
    NotExpired,
    /// The requested expiration does not compare against the voting-period cap.
    WrongExpiration,
    /// The voter already holds a ballot on this proposal.
    AlreadyVoted,
    /// Only a passed, not yet executed proposal can be executed.
    WrongExecuteStatus,
    /// A completed or passed proposal cannot be closed.
    WrongCloseStatus,
}

impl ContractError {
    /// A short description, in place of a display implementation.
    pub fn message(&self) -> &str {
        match self {
            ContractError::Unauthorized => "Unauthorized",
            ContractError::Claimed => "token_id already claimed",
            ContractError::Expired => "Proposal voting period has expired",
            ContractError::WalletLimitExceeded => "Wallet balance limit exceeded",
            ContractError::SoldOut => "All tokens sold out",
            ContractError::FreeLimitExceeded => "Free Mint limit exceeded",
            ContractError::NotMinter => "Not a minter",
            ContractError::NotSigner => "Not a signer",
            ContractError::NotAllSigned => "Not all signed",
            ContractError::CannotGetExtension => "Cannot get extension",
            ContractError::NotFound => "Not found",
            ContractError::ZeroWeight => "Required weight cannot be zero",
            ContractError::UnreachableWeight => {
                "Not possible to reach required (passing) weight"
            },
            ContractError::NoVoters => "No voters",
            ContractError::NotOpen => "Proposal is not open",
            ContractError::NotExpired => "Proposal must expire before you can close it",
            ContractError::WrongExpiration => "Wrong expiration option",
            ContractError::AlreadyVoted => "Already voted on this proposal",
            ContractError::WrongExecuteStatus => {
                "Proposal must have passed and not yet been executed"
            },
            ContractError::WrongCloseStatus => "Cannot close completed or passed proposals",
        }
    }
}

} // verus!
