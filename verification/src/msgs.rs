//! The plain message and response shapes of the dispatch surface.
use vstd::prelude::*;

use crate::metadata::Extension;

verus! {

/// Marker for message payloads a host chain may attach to responses.
pub trait CustomMsg: Clone {

}

/// The host-specific message type of this contract: none.
#[derive(Clone, Debug)]
pub struct MyMsg {}

impl CustomMsg for MyMsg {

}

/// Nothing to migrate.
#[derive(Clone, Debug)]
pub struct MigrateMsg {}

/// A paid mint of one specific token.
#[derive(Clone, Debug)]
pub struct MintMsg {
    /// Unique id of the token.
    pub token_num: String,
    /// The owner of the newly minted token.
    pub owner: String,
    /// Where this token's metadata document lives.
    pub token_uri: Option<String>,
    /// Any custom extension used by this contract.
    pub extension: Extension,
}

/// A free mint to a given wallet; the token id is chosen sequentially.
#[derive(Clone, Debug)]
pub struct FreeMintMsg {
    /// The owner of the newly minted token.
    pub owner: String,
    /// Any custom extension used by this contract.
    pub extension: Extension,
}

/// Attach or replace the extension payload reserved under a token id.
#[derive(Clone, Debug)]
pub struct AddExtensionMsg {
    pub token_id: String,
    pub extension: Extension,
}

/// Who can mint these tokens.
#[derive(Clone, Debug)]
pub struct MinterResponse {
    pub minter: String,
}

/// Whether token URIs are revealed yet.
#[derive(Clone, Copy, Debug, PartialEq, Eq, Structural)]
pub struct IsOnRevealResponse {
    pub is_on_reveal: bool,
}

/// A token's URI.
#[derive(Clone, Debug)]
pub struct GetTokenUriResponse {
    pub token_uri: String,
}

/// How many tokens a wallet holds from the free-mint gate.
#[derive(Clone, Copy, Debug, PartialEq, Eq, Structural)]
pub struct GetBalanceResponse {
    pub balance: u64,
}

/// Whether a member is on the allowlist.
#[derive(Clone, Copy, Debug, PartialEq, Eq, Structural)]
pub struct IsOnWhitelistResponse {
    pub is_on_whitelist: bool,
}

/// Whether the presale window is still open.
#[derive(Clone, Copy, Debug, PartialEq, Eq, Structural)]
pub struct IsOnPresaleResponse {
    pub flag: bool,
}

/// A token's extension payload.
#[derive(Clone, Debug)]
pub struct GetExtensionResponse {
    pub extension: Extension,
}

} // verus!
