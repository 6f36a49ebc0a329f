//! The messages the host routes to the minter, the read-only query
//! responses, and the instruction descriptions that execute operations
//! hand back for the host's collaborators to carry out.

use crate::state::{view_opt_string, ConfigView, MintRequest};
use vstd::prelude::*;

verus! {

/// The instantiation parameters; one configuration record is built from
/// them.
pub struct InstantiateMsg {
    pub minter: String,
    pub nft_addr: String,
    pub nft_base_uri: String,
    pub nft_max_supply: u128,
    pub nft_price_amount: u128,
    pub owner: String,
    pub is_mintable: bool,
    pub mint_max: Option<u128>,
    pub mint_start_time: u64,
    pub nft_symbol: String,
    pub price_denom: String,
    pub royalty_payment_address: Option<String>,
    pub royalty_percentage: Option<u32>,
    pub whitelist_mint_max: Option<u128>,
    pub whitelist_mint_period: u64,
    pub whitelist_mint_price_amount: Option<u128>,
}

/// Pass-through token metadata for the token collaborator; this core
/// never reads it.
#[derive(Clone)]
pub struct Metadata {
    pub animation_url: Option<String>,
    pub attributes: Option<Vec<Attribute>>,
    pub description: Option<String>,
    pub external_url: Option<String>,
    pub image: Option<String>,
    pub name: Option<String>,
    pub royalty_payment_address: Option<String>,
    pub royalty_percentage: Option<u32>,
}

/// One trait of the pass-through metadata.
#[derive(Clone)]
pub struct Attribute {
    pub trait_type: String,
    pub value: String,
}

/// The state-mutating operations.  The caller identity and the current
/// timestamp are supplied by the host beside the message.
pub enum ExecuteMsg {
    /// Replace the configuration fields that are present; absent fields
    /// keep their values.  Owner only.
    UpdateConfig {
        minter: Option<String>,
        nft_addr: Option<String>,
        nft_base_uri: Option<String>,
        nft_max_supply: Option<u128>,
        nft_price_amount: Option<u128>,
        owner: Option<String>,
    },
    /// Add addresses to the whitelist; duplicates are ignored.  Minter
    /// only.
    Whitelist { addrs: Vec<String> },
    /// Confirm that minting may start.  Minter only.
    StartMint,
    /// Queue a mint request for `addr`.
    RequestMint { addr: String },
    /// Mint one token and consume the oldest pending request, if any.
    Mint { extension: Option<Metadata>, token_id: String, token_uri: Option<String> },
    /// Set the emergency stop.  Owner only.
    Pause,
    /// Clear the emergency stop.  Owner only.
    Unpause,
    /// Pay the collected balance out to the owner.  Owner only.
    WithdrawFund,
}

/// The read-only operations.
pub enum QueryMsg {
    Config,
    IsWhitelisted { addr: String },
    WhitelistSize,
    TokenRequestsCount,
    CurrentSupply,
    TokenRequestByIndex { index: u128 },
}

/// An instruction for the token collaborator: create one token.
#[derive(Clone)]
pub struct MintInstruction {
    /// The identity the token is created for: the oldest requester if a
    /// request was pending, the caller of the mint otherwise.
    pub recipient: String,
    pub token_id: String,
    pub token_uri: Option<String>,
    pub extension: Option<Metadata>,
}

/// An instruction for the ledger collaborator: transfer the collected
/// balance.
#[derive(Clone)]
pub struct WithdrawInstruction {
    /// The configured owner, the only identity funds are paid to.
    pub recipient: String,
    /// The whole balance at the time of the call.
    pub amount: u128,
    /// The configured price denomination.
    pub denom: String,
}

/// What a successful execute operation reports back to the host.
#[allow(inconsistent_fields)]
pub enum ExecuteEffect {
    /// The state change is the whole effect.
    Ack,
    /// A mint request was queued at this index.
    Requested { index: usize },
    /// One token is to be created by the token collaborator.
    Minted { instruction: MintInstruction },
    /// The balance is to be transferred by the ledger collaborator.
    Withdrawn { instruction: WithdrawInstruction },
}

/// The mirror of the configuration record handed out by the config
/// query.
#[derive(Clone)]
pub struct ConfigResponse {
    pub minter: String,
    pub nft_addr: String,
    pub nft_base_uri: String,
    pub nft_max_supply: u128,
    pub nft_price_amount: u128,
    pub owner: String,
    pub is_mintable: bool,
    pub mint_max: Option<u128>,
    pub mint_start_time: u64,
    pub nft_symbol: String,
    pub price_denom: String,
    pub royalty_payment_address: Option<String>,
    pub royalty_percentage: Option<u32>,
    pub whitelist_mint_max: Option<u128>,
    pub whitelist_mint_period: u64,
    pub whitelist_mint_price_amount: Option<u128>,
    pub paused: bool,
}

impl View for ConfigResponse {
    type V = ConfigView;

    open spec fn view(&self) -> ConfigView {
        ConfigView {
            minter: self.minter@,
            nft_addr: self.nft_addr@,
            nft_base_uri: self.nft_base_uri@,
            nft_max_supply: self.nft_max_supply,
            nft_price_amount: self.nft_price_amount,
            owner: self.owner@,
            is_mintable: self.is_mintable,
            mint_max: self.mint_max,
            mint_start_time: self.mint_start_time,
            nft_symbol: self.nft_symbol@,
            price_denom: self.price_denom@,
            royalty_payment_address: view_opt_string(self.royalty_payment_address),
            royalty_percentage: self.royalty_percentage,
            whitelist_mint_max: self.whitelist_mint_max,
            whitelist_mint_period: self.whitelist_mint_period,
            whitelist_mint_price_amount: self.whitelist_mint_price_amount,
            paused: self.paused,
        }
    }
}

pub struct IsWhitelistedResponse {
    pub is_whitelisted: bool,
}

pub struct WhitelistSizeResponse {
    pub whitelist_size: usize,
}

pub struct TokenRequestsCountResponse {
    pub token_requests_count: usize,
}

pub struct CurrentSupplyResponse {
    pub current_supply: u128,
}

pub struct TokenRequestByIndexResponse {
    pub token_request: MintRequest,
}

/// The answers of the query operations, one variant per query.
pub enum QueryResponse {
    Config(ConfigResponse),
    IsWhitelisted(IsWhitelistedResponse),
    WhitelistSize(WhitelistSizeResponse),
    TokenRequestsCount(TokenRequestsCountResponse),
    CurrentSupply(CurrentSupplyResponse),
    TokenRequestByIndex(TokenRequestByIndexResponse),
}

/// The spec-level model of a [`MintInstruction`].
#[verifier::ext_equal]
pub struct MintInstructionView {
    pub recipient: Seq<char>,
    pub token_id: Seq<char>,
    pub token_uri: Option<Seq<char>>,
}

impl View for MintInstruction {
    type V = MintInstructionView;

    open spec fn view(&self) -> MintInstructionView {
        MintInstructionView {
            recipient: self.recipient@,
            token_id: self.token_id@,
            token_uri: view_opt_string(self.token_uri),
        }
    }
}

/// The spec-level model of a [`WithdrawInstruction`].
#[verifier::ext_equal]
pub struct WithdrawInstructionView {
    pub recipient: Seq<char>,
    pub amount: u128,
    pub denom: Seq<char>,
}

impl View for WithdrawInstruction {
    type V = WithdrawInstructionView;

    open spec fn view(&self) -> WithdrawInstructionView {
        WithdrawInstructionView {
            recipient: self.recipient@,
            amount: self.amount,
            denom: self.denom@,
        }
    }
}

/// The spec-level model of an [`ExecuteEffect`].  The metadata extension
/// is pass-through and not modeled.
#[allow(inconsistent_fields)]
#[verifier::ext_equal]
pub enum EffectView {
    Ack,
    Requested { index: usize },
    Minted { instruction: MintInstructionView },
    Withdrawn { instruction: WithdrawInstructionView },
}

impl View for ExecuteEffect {
    type V = EffectView;

    open spec fn view(&self) -> EffectView {
        match self {
            ExecuteEffect::Ack => EffectView::Ack,
            ExecuteEffect::Requested { index } => EffectView::Requested { index: *index },
            ExecuteEffect::Minted { instruction } => (EffectView::Minted {
                instruction: instruction@,
            }),
            ExecuteEffect::Withdrawn { instruction } => (EffectView::Withdrawn {
                instruction: instruction@,
            }),
        }
    }
}

} // verus!
