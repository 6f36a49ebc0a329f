//! Access-controlled issuance workflow for a fixed-supply collectible token
//! line.
//!
//! The crate models the core of a minter contract: a single configuration
//! record, a whitelist of addresses allowed to mint early, a queue of pending
//! mint requests, and a monotonic supply counter that never exceeds the
//! configured maximum supply.  Every execute operation is a total function
//! from the current state, the caller identity, and the host-supplied
//! timestamp to a new state and a result; on failure the state is left
//! untouched.  Persistence, message serialization, and cross-contract calls
//! are the host's business: the library only consumes and produces plain
//! values and instruction descriptions.

pub mod contract;
pub mod error;
pub mod laws;
pub mod msg;
pub mod state;

pub use contract::{execute, init, query};
pub use error::MintError;
pub use msg::{
    Attribute, ConfigResponse, CurrentSupplyResponse, ExecuteEffect, ExecuteMsg, InstantiateMsg,
    IsWhitelistedResponse, Metadata, MintInstruction, QueryMsg, QueryResponse,
    TokenRequestByIndexResponse, TokenRequestsCountResponse, WhitelistSizeResponse,
    WithdrawInstruction,
};
pub use state::{check_wf, Config, MintRequest, MinterState, Whitelist};
