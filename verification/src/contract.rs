//! The execute and query operations of the minter.
//!
//! Each operation is specified by a transition function on the spec-level
//! state model: a total function from the old state and the call's
//! arguments to the new state and the result.  The executable handlers are
//! proved to implement their transition exactly, so every property of the
//! workflow can be read off, and proved about, the transitions alone.
//!
//! All-or-nothing semantics hold throughout: whenever a transition returns
//! an error, it returns the old state unchanged.

use crate::error::MintError;
use crate::msg::{
    ConfigResponse, CurrentSupplyResponse, EffectView, ExecuteEffect, ExecuteMsg, InstantiateMsg,
    IsWhitelistedResponse, Metadata, MintInstruction, MintInstructionView, QueryMsg,
    QueryResponse, TokenRequestByIndexResponse, TokenRequestsCountResponse,
    WhitelistSizeResponse, WithdrawInstruction, WithdrawInstructionView,
};
use crate::state::{
    contains_addr, distinct_addrs, state_wf, tally_bump, tally_increment, tally_lookup, tally_of,
    view_opt_string, view_strings, Config, ConfigView, MintRequest, MinterState, StateView,
    Whitelist,
};
use vstd::prelude::*;

verus! {

// ---------------------------------------------------------------------
// Instantiation
// ---------------------------------------------------------------------

/// Whether instantiation parameters are acceptable: both role identities
/// are present, at least one token may exist, and the end of the
/// whitelist window does not overflow the timestamp type.
pub open spec fn init_valid(msg: InstantiateMsg) -> bool {
    &&& msg.owner@.len() > 0
    &&& msg.minter@.len() > 0
    &&& msg.nft_max_supply >= 1
    &&& msg.mint_start_time + msg.whitelist_mint_period <= u64::MAX
}

/// The state a contract instance starts in: the configuration copied from
/// the instantiation parameters with `paused = false`, no whitelist
/// members, no pending requests, and a supply counter of zero.
pub open spec fn init_state_view(msg: InstantiateMsg) -> StateView {
    StateView {
        config: ConfigView {
            minter: msg.minter@,
            nft_addr: msg.nft_addr@,
            nft_base_uri: msg.nft_base_uri@,
            nft_max_supply: msg.nft_max_supply,
            nft_price_amount: msg.nft_price_amount,
            owner: msg.owner@,
            is_mintable: msg.is_mintable,
            mint_max: msg.mint_max,
            mint_start_time: msg.mint_start_time,
            nft_symbol: msg.nft_symbol@,
            price_denom: msg.price_denom@,
            royalty_payment_address: view_opt_string(msg.royalty_payment_address),
            royalty_percentage: msg.royalty_percentage,
            whitelist_mint_max: msg.whitelist_mint_max,
            whitelist_mint_period: msg.whitelist_mint_period,
            whitelist_mint_price_amount: msg.whitelist_mint_price_amount,
            paused: false,
        },
        whitelist: Seq::empty(),
        requests: Seq::empty(),
        supply: 0,
        whitelist_tally: Seq::empty(),
    }
}

/// Builds the singleton state from the instantiation parameters.
///
/// Returns `InvalidParameter` exactly when the parameters are rejected:
/// an empty owner or minter identity, a maximum supply of zero, or a
/// whitelist window whose end overflows the timestamp type.
pub fn init(msg: InstantiateMsg) -> (r: Result<MinterState, MintError>)
    ensures
        init_valid(msg) ==> r is Ok && r->Ok_0@ == init_state_view(msg) && state_wf(r->Ok_0@),
        !init_valid(msg) ==> r == Err::<MinterState, MintError>(MintError::InvalidParameter),
{
    if msg.owner.as_str().is_empty() || msg.minter.as_str().is_empty() {
        return Err(MintError::InvalidParameter);
    }
    if msg.nft_max_supply == 0 {
        return Err(MintError::InvalidParameter);
    }
    if msg.whitelist_mint_period > u64::MAX - msg.mint_start_time {
        return Err(MintError::InvalidParameter);
    }
    let state = MinterState {
        config: Config {
            minter: msg.minter,
            nft_addr: msg.nft_addr,
            nft_base_uri: msg.nft_base_uri,
            nft_max_supply: msg.nft_max_supply,
            nft_price_amount: msg.nft_price_amount,
            owner: msg.owner,
            is_mintable: msg.is_mintable,
            mint_max: msg.mint_max,
            mint_start_time: msg.mint_start_time,
            nft_symbol: msg.nft_symbol,
            price_denom: msg.price_denom,
            royalty_payment_address: msg.royalty_payment_address,
            royalty_percentage: msg.royalty_percentage,
            whitelist_mint_max: msg.whitelist_mint_max,
            whitelist_mint_period: msg.whitelist_mint_period,
            whitelist_mint_price_amount: msg.whitelist_mint_price_amount,
            paused: false,
        },
        whitelist: Whitelist::new(),
        requests: Vec::new(),
        supply: 0,
        whitelist_tally: Vec::new(),
    };
    assert(state@ =~~= init_state_view(msg));
    Ok(state)
}

// ---------------------------------------------------------------------
// Access control
// ---------------------------------------------------------------------

/// Whether `caller` holds the owner role.
pub open spec fn is_owner(c: ConfigView, caller: Seq<char>) -> bool {
    caller == c.owner
}

/// Whether `caller` holds the minter role.
pub open spec fn is_minter(c: ConfigView, caller: Seq<char>) -> bool {
    caller == c.minter
}

// ---------------------------------------------------------------------
// Pause control
// ---------------------------------------------------------------------

/// What pausing does: owner only; sets the emergency stop, idempotently.
pub open spec fn pause_transition(s: StateView, caller: Seq<char>) -> (StateView, Result<
    (),
    MintError,
>) {
    if !is_owner(s.config, caller) {
        (s, Err(MintError::Unauthorized))
    } else {
        ((StateView { config: (ConfigView { paused: true, ..s.config }), ..s }), Ok(()))
    }
}

/// What unpausing does: owner only; clears the emergency stop,
/// idempotently.
pub open spec fn unpause_transition(s: StateView, caller: Seq<char>) -> (StateView, Result<
    (),
    MintError,
>) {
    if !is_owner(s.config, caller) {
        (s, Err(MintError::Unauthorized))
    } else {
        ((StateView { config: (ConfigView { paused: false, ..s.config }), ..s }), Ok(()))
    }
}

/// Sets the emergency stop.  Only the owner may call; pausing an already
/// paused contract succeeds and changes nothing.
pub fn try_pause(state: &mut MinterState, caller: &String) -> (r: Result<(), MintError>)
    ensures
        final(state)@ == pause_transition(old(state)@, caller@).0,
        r == pause_transition(old(state)@, caller@).1,
        state_wf(old(state)@) ==> state_wf(final(state)@),
{
    if *caller != state.config.owner {
        return Err(MintError::Unauthorized);
    }
    state.config.paused = true;
    Ok(())
}

/// Clears the emergency stop.  Only the owner may call; unpausing an
/// already active contract succeeds and changes nothing.
pub fn try_unpause(state: &mut MinterState, caller: &String) -> (r: Result<(), MintError>)
    ensures
        final(state)@ == unpause_transition(old(state)@, caller@).0,
        r == unpause_transition(old(state)@, caller@).1,
        state_wf(old(state)@) ==> state_wf(final(state)@),
{
    if *caller != state.config.owner {
        return Err(MintError::Unauthorized);
    }
    state.config.paused = false;
    Ok(())
}

// ---------------------------------------------------------------------
// Fund withdrawal
// ---------------------------------------------------------------------

/// What a withdrawal does: owner only; with a zero balance it fails, else
/// it leaves the state as it is and instructs the ledger to pay the whole
/// balance, in the configured denomination, to the owner.
pub open spec fn withdraw_transition(s: StateView, caller: Seq<char>, balance: u128) -> (
    StateView,
    Result<WithdrawInstructionView, MintError>,
) {
    if !is_owner(s.config, caller) {
        (s, Err(MintError::Unauthorized))
    } else if balance == 0 {
        (s, Err(MintError::NothingToWithdraw))
    } else {
        (
            s,
            Ok(
                (WithdrawInstructionView {
                    recipient: s.config.owner,
                    amount: balance,
                    denom: s.config.price_denom,
                }),
            ),
        )
    }
}

/// Pays the collected balance out to the owner.  The host supplies the
/// contract's current balance and carries out the returned instruction.
pub fn try_withdraw_fund(state: &mut MinterState, caller: &String, balance: u128) -> (r: Result<
    WithdrawInstruction,
    MintError,
>)
    ensures
        final(state)@ == withdraw_transition(old(state)@, caller@, balance).0,
        (match r {
            Ok(w) => withdraw_transition(old(state)@, caller@, balance).1 == Ok::<
                WithdrawInstructionView,
                MintError,
            >(w@),
            Err(e) => withdraw_transition(old(state)@, caller@, balance).1 == Err::<
                WithdrawInstructionView,
                MintError,
            >(e),
        }),
        state_wf(old(state)@) ==> state_wf(final(state)@),
{
    if *caller != state.config.owner {
        return Err(MintError::Unauthorized);
    }
    if balance == 0 {
        return Err(MintError::NothingToWithdraw);
    }
    Ok(
        WithdrawInstruction {
            recipient: state.config.owner.clone(),
            amount: balance,
            denom: state.config.price_denom.clone(),
        },
    )
}

// ---------------------------------------------------------------------
// Start of minting
// ---------------------------------------------------------------------

/// What starting the mint does: minter only; it confirms that minting is
/// enabled and that the start time has been reached, and changes nothing.
pub open spec fn start_mint_transition(s: StateView, caller: Seq<char>, now: u64) -> (
    StateView,
    Result<(), MintError>,
) {
    if !is_minter(s.config, caller) {
        (s, Err(MintError::Unauthorized))
    } else if !s.config.is_mintable || now < s.config.mint_start_time {
        (s, Err(MintError::NotMintable))
    } else {
        (s, Ok(()))
    }
}

/// Confirms that minting may start: minting must be enabled and the start
/// time reached.  Only the minter may call.
pub fn try_start_mint(state: &mut MinterState, caller: &String, now: u64) -> (r: Result<
    (),
    MintError,
>)
    ensures
        final(state)@ == start_mint_transition(old(state)@, caller@, now).0,
        r == start_mint_transition(old(state)@, caller@, now).1,
        state_wf(old(state)@) ==> state_wf(final(state)@),
{
    if *caller != state.config.minter {
        return Err(MintError::Unauthorized);
    }
    if !state.config.is_mintable || now < state.config.mint_start_time {
        return Err(MintError::NotMintable);
    }
    Ok(())
}

// ---------------------------------------------------------------------
// Configuration update
// ---------------------------------------------------------------------

/// The configuration with each present patch field substituted; absent
/// fields keep their values.  Only these six fields can ever change after
/// instantiation.
pub open spec fn patched_config(
    c: ConfigView,
    minter: Option<Seq<char>>,
    nft_addr: Option<Seq<char>>,
    nft_base_uri: Option<Seq<char>>,
    nft_max_supply: Option<u128>,
    nft_price_amount: Option<u128>,
    owner: Option<Seq<char>>,
) -> ConfigView {
    ConfigView {
        minter: if minter is Some {
            minter->0
        } else {
            c.minter
        },
        nft_addr: if nft_addr is Some {
            nft_addr->0
        } else {
            c.nft_addr
        },
        nft_base_uri: if nft_base_uri is Some {
            nft_base_uri->0
        } else {
            c.nft_base_uri
        },
        nft_max_supply: if nft_max_supply is Some {
            nft_max_supply->0
        } else {
            c.nft_max_supply
        },
        nft_price_amount: if nft_price_amount is Some {
            nft_price_amount->0
        } else {
            c.nft_price_amount
        },
        owner: if owner is Some {
            owner->0
        } else {
            c.owner
        },
        ..c
    }
}

/// Whether the patched configuration is consistent with the state: the
/// role identities stay non-empty, and the new maximum supply still
/// covers what is already minted or reserved by pending requests.
pub open spec fn patch_valid(s: StateView, c: ConfigView) -> bool {
    &&& c.owner.len() > 0
    &&& c.minter.len() > 0
    &&& c.nft_max_supply >= 1
    &&& s.supply + s.requests.len() <= c.nft_max_supply
}

/// What a configuration update does: owner only; present patch fields
/// replace their configuration fields, and an inconsistent patch is
/// rejected whole.
pub open spec fn update_config_transition(
    s: StateView,
    caller: Seq<char>,
    minter: Option<Seq<char>>,
    nft_addr: Option<Seq<char>>,
    nft_base_uri: Option<Seq<char>>,
    nft_max_supply: Option<u128>,
    nft_price_amount: Option<u128>,
    owner: Option<Seq<char>>,
) -> (StateView, Result<(), MintError>) {
    let c2 = patched_config(
        s.config,
        minter,
        nft_addr,
        nft_base_uri,
        nft_max_supply,
        nft_price_amount,
        owner,
    );
    if !is_owner(s.config, caller) {
        (s, Err(MintError::Unauthorized))
    } else if !patch_valid(s, c2) {
        (s, Err(MintError::InvalidParameter))
    } else {
        ((StateView { config: c2, ..s }), Ok(()))
    }
}

/// Replaces the configuration fields that are present in the patch.
///
/// Only the owner may call.  The patch is rejected whole, with
/// `InvalidParameter`, if it would empty a role identity, set the
/// maximum supply to zero, or set it below what is already minted or
/// reserved by pending requests.
pub fn try_update_config(
    state: &mut MinterState,
    caller: &String,
    minter: Option<String>,
    nft_addr: Option<String>,
    nft_base_uri: Option<String>,
    nft_max_supply: Option<u128>,
    nft_price_amount: Option<u128>,
    owner: Option<String>,
) -> (r: Result<(), MintError>)
    ensures
        final(state)@ == update_config_transition(
            old(state)@,
            caller@,
            view_opt_string(minter),
            view_opt_string(nft_addr),
            view_opt_string(nft_base_uri),
            nft_max_supply,
            nft_price_amount,
            view_opt_string(owner),
        ).0,
        r == update_config_transition(
            old(state)@,
            caller@,
            view_opt_string(minter),
            view_opt_string(nft_addr),
            view_opt_string(nft_base_uri),
            nft_max_supply,
            nft_price_amount,
            view_opt_string(owner),
        ).1,
        state_wf(old(state)@) ==> state_wf(final(state)@),
{
    if *caller != state.config.owner {
        return Err(MintError::Unauthorized);
    }
    let owner_empty = match &owner {
        Some(o) => o.as_str().is_empty(),
        None => state.config.owner.as_str().is_empty(),
    };
    let minter_empty = match &minter {
        Some(m) => m.as_str().is_empty(),
        None => state.config.minter.as_str().is_empty(),
    };
    let new_max: u128 = match nft_max_supply {
        Some(m) => m,
        None => state.config.nft_max_supply,
    };
    if owner_empty || minter_empty || new_max == 0 {
        return Err(MintError::InvalidParameter);
    }
    if state.supply > new_max || (state.requests.len() as u128) > new_max - state.supply {
        return Err(MintError::InvalidParameter);
    }
    if let Some(m) = minter {
        state.config.minter = m;
    }
    if let Some(a) = nft_addr {
        state.config.nft_addr = a;
    }
    if let Some(u) = nft_base_uri {
        state.config.nft_base_uri = u;
    }
    if let Some(m) = nft_max_supply {
        state.config.nft_max_supply = m;
    }
    if let Some(p) = nft_price_amount {
        state.config.nft_price_amount = p;
    }
    if let Some(o) = owner {
        state.config.owner = o;
    }
    proof {
        assert(state@ =~~= update_config_transition(
            old(state)@,
            caller@,
            view_opt_string(minter),
            view_opt_string(nft_addr),
            view_opt_string(nft_base_uri),
            nft_max_supply,
            nft_price_amount,
            view_opt_string(owner),
        ).0);
    }
    Ok(())
}

// ---------------------------------------------------------------------
// Whitelist management
// ---------------------------------------------------------------------

/// The whitelist after offering one address: unchanged when the address
/// is already a member, appended otherwise.
pub open spec fn whitelist_add_one(wl: Seq<Seq<char>>, a: Seq<char>) -> Seq<Seq<char>> {
    if contains_addr(wl, a) {
        wl
    } else {
        wl.push(a)
    }
}

/// The whitelist after offering every address of `addrs` in order.
pub open spec fn whitelist_add_all(wl: Seq<Seq<char>>, addrs: Seq<Seq<char>>) -> Seq<Seq<char>>
    decreases addrs.len(),
{
    if addrs.len() == 0 {
        wl
    } else {
        whitelist_add_one(whitelist_add_all(wl, addrs.drop_last()), addrs.last())
    }
}

/// What adding to the whitelist does: minter only; each given address is
/// added once, those already present are silently ignored.
pub open spec fn whitelist_transition(s: StateView, caller: Seq<char>, addrs: Seq<Seq<char>>) -> (
    StateView,
    Result<(), MintError>,
) {
    if !is_minter(s.config, caller) {
        (s, Err(MintError::Unauthorized))
    } else {
        ((StateView { whitelist: whitelist_add_all(s.whitelist, addrs), ..s }), Ok(()))
    }
}

/// Adds each given address to the whitelist; duplicates, given or already
/// present, are silently ignored.  Only the minter may call.
#[verifier::loop_isolation(false)]
pub fn try_whitelist(state: &mut MinterState, caller: &String, addrs: Vec<String>) -> (r: Result<
    (),
    MintError,
>)
    requires
        state_wf(old(state)@),
    ensures
        state_wf(final(state)@),
        final(state)@ == whitelist_transition(old(state)@, caller@, view_strings(addrs@)).0,
        r == whitelist_transition(old(state)@, caller@, view_strings(addrs@)).1,
{
    if *caller != state.config.minter {
        return Err(MintError::Unauthorized);
    }
    let ghost addrs_v = view_strings(addrs@);
    let n = addrs.len();
    let mut i: usize = 0;
    while i < n
        invariant
            i <= n,
            state@.whitelist == whitelist_add_all(old(state)@.whitelist, addrs_v.take(i as int)),
            distinct_addrs(state@.whitelist),
            state@.config == old(state)@.config,
            state@.requests == old(state)@.requests,
            state@.supply == old(state)@.supply,
            state@.whitelist_tally == old(state)@.whitelist_tally,
        decreases n - i,
    {
        let a = addrs[i].clone();
        proof {
            assert(a@ == addrs_v[i as int]);
            assert(addrs_v.take(i + 1).drop_last() =~= addrs_v.take(i as int));
            assert(addrs_v.take(i + 1).last() == addrs_v[i as int]);
        }
        state.whitelist.add_address(a);
        i = i + 1;
    }
    proof {
        assert(addrs_v.take(n as int) =~= addrs_v);
        assert(state@ =~~= whitelist_transition(old(state)@, caller@, addrs_v).0);
    }
    Ok(())
}

// ---------------------------------------------------------------------
// Mint requests
// ---------------------------------------------------------------------

/// Whether `now` lies in the whitelist-only window, which runs from the
/// start of time until `mint_start_time + whitelist_mint_period`.
pub open spec fn in_whitelist_window(c: ConfigView, now: u64) -> bool {
    now < c.mint_start_time + c.whitelist_mint_period
}

/// What a mint request does.  In order: a paused contract rejects it;
/// so does one where minting is disabled.  During the whitelist window
/// the address must be a member, and, when `whitelist_mint_max` is
/// configured, must still be under its per-address cap.  When `mint_max`
/// is configured the queue must still have room under it.  The request
/// then reserves a supply slot: it is rejected when the supply counter
/// plus the pending requests would reach past the maximum supply.  On
/// success the request is appended and its queue index returned, and a
/// request made during the whitelist window under a configured cap is
/// counted against its address.
pub open spec fn request_mint_transition(s: StateView, addr: Seq<char>, now: u64) -> (
    StateView,
    Result<int, MintError>,
) {
    if s.config.paused {
        (s, Err(MintError::Paused))
    } else if !s.config.is_mintable {
        (s, Err(MintError::NotMintable))
    } else if in_whitelist_window(s.config, now) && !contains_addr(s.whitelist, addr) {
        (s, Err(MintError::NotWhitelisted))
    } else if in_whitelist_window(s.config, now) && s.config.whitelist_mint_max is Some
        && tally_of(s.whitelist_tally, addr) >= s.config.whitelist_mint_max->0 {
        (s, Err(MintError::MintLimitExceeded))
    } else if s.config.mint_max is Some && s.requests.len() >= s.config.mint_max->0 {
        (s, Err(MintError::MintLimitExceeded))
    } else if s.supply + s.requests.len() >= s.config.nft_max_supply {
        (s, Err(MintError::SupplyExceeded))
    } else {
        (
            (StateView {
                requests: s.requests.push(addr),
                whitelist_tally: if in_whitelist_window(s.config, now)
                    && s.config.whitelist_mint_max is Some {
                    tally_bump(s.whitelist_tally, addr)
                } else {
                    s.whitelist_tally
                },
                ..s
            }),
            Ok(s.requests.len() as int),
        )
    }
}

/// Queues a mint request for `addr` and returns its index in the queue.
///
/// `now` is the host-supplied timestamp of the call.  See
/// [`request_mint_transition`] for the order of the checks.
pub fn try_request_mint(state: &mut MinterState, addr: String, now: u64) -> (r: Result<
    usize,
    MintError,
>)
    requires
        state_wf(old(state)@),
    ensures
        state_wf(final(state)@),
        final(state)@ == request_mint_transition(old(state)@, addr@, now).0,
        (match r {
            Ok(i) => request_mint_transition(old(state)@, addr@, now).1 == Ok::<int, MintError>(
                i as int,
            ),
            Err(e) => request_mint_transition(old(state)@, addr@, now).1 == Err::<int, MintError>(
                e,
            ),
        }),
{
    if state.config.paused {
        return Err(MintError::Paused);
    }
    if !state.config.is_mintable {
        return Err(MintError::NotMintable);
    }
    let in_window = (now as u128) < (state.config.mint_start_time as u128) + (
    state.config.whitelist_mint_period as u128);
    assert(in_window == in_whitelist_window(state@.config, now));
    let mut count_against_cap = false;
    if in_window {
        if !state.whitelist.is_whitelisted(&addr) {
            return Err(MintError::NotWhitelisted);
        }
        if let Some(cap) = state.config.whitelist_mint_max {
            let done = tally_lookup(&state.whitelist_tally, &addr);
            if done >= cap {
                return Err(MintError::MintLimitExceeded);
            }
            count_against_cap = true;
        }
    }
    if let Some(room) = state.config.mint_max {
        if (state.requests.len() as u128) >= room {
            return Err(MintError::MintLimitExceeded);
        }
    }
    if (state.requests.len() as u128) >= state.config.nft_max_supply - state.supply {
        return Err(MintError::SupplyExceeded);
    }
    let index = state.requests.len();
    if count_against_cap {
        tally_increment(&mut state.whitelist_tally, &addr);
    }
    let ghost mid = state@;
    state.requests.push(MintRequest { addr });
    proof {
        assert(state@.requests =~= mid.requests.push(addr@));
        assert(state@ =~~= request_mint_transition(old(state)@, addr@, now).0);
    }
    Ok(index)
}

// ---------------------------------------------------------------------
// Minting
// ---------------------------------------------------------------------

/// What a mint does.  A paused contract rejects it; so does one where
/// minting is disabled.  It is rejected with `SupplyExceeded`, and the
/// supply counter left untouched, as soon as the counter has reached the
/// maximum supply.  On success the counter rises by exactly one, the
/// oldest pending request, if any, is consumed, and the returned
/// instruction tells the token collaborator to create the token for that
/// request's address — or for the caller when no request was pending.
pub open spec fn mint_transition(
    s: StateView,
    caller: Seq<char>,
    token_id: Seq<char>,
    token_uri: Option<Seq<char>>,
) -> (StateView, Result<MintInstructionView, MintError>) {
    if s.config.paused {
        (s, Err(MintError::Paused))
    } else if !s.config.is_mintable {
        (s, Err(MintError::NotMintable))
    } else if s.supply >= s.config.nft_max_supply {
        (s, Err(MintError::SupplyExceeded))
    } else {
        (
            (StateView {
                supply: (s.supply + 1) as u128,
                requests: if s.requests.len() > 0 {
                    s.requests.remove(0)
                } else {
                    s.requests
                },
                ..s
            }),
            Ok(
                (MintInstructionView {
                    recipient: if s.requests.len() > 0 {
                        s.requests[0]
                    } else {
                        caller
                    },
                    token_id,
                    token_uri,
                }),
            ),
        )
    }
}

/// Mints one token: raises the supply counter, consumes the oldest
/// pending request if one exists, and returns the instruction for the
/// token collaborator.  The metadata extension is passed through to the
/// instruction unread.
pub fn try_mint(
    state: &mut MinterState,
    caller: &String,
    extension: Option<Metadata>,
    token_id: String,
    token_uri: Option<String>,
) -> (r: Result<MintInstruction, MintError>)
    ensures
        final(state)@ == mint_transition(old(state)@, caller@, token_id@, view_opt_string(
            token_uri,
        )).0,
        (match r {
            Ok(m) => mint_transition(old(state)@, caller@, token_id@, view_opt_string(token_uri)).1
                == Ok::<MintInstructionView, MintError>(m@),
            Err(e) => mint_transition(old(state)@, caller@, token_id@, view_opt_string(token_uri)).1
                == Err::<MintInstructionView, MintError>(e),
        }),
        state_wf(old(state)@) ==> state_wf(final(state)@),
{
    if state.config.paused {
        return Err(MintError::Paused);
    }
    if !state.config.is_mintable {
        return Err(MintError::NotMintable);
    }
    if state.supply >= state.config.nft_max_supply {
        return Err(MintError::SupplyExceeded);
    }
    state.supply = state.supply + 1;
    let ghost mid = state@;
    let recipient = if state.requests.len() > 0 {
        let first = state.requests.remove(0);
        proof {
            assert(state@.requests =~= mid.requests.remove(0));
        }
        first.addr
    } else {
        caller.clone()
    };
    proof {
        assert(state@ =~~= mint_transition(old(state)@, caller@, token_id@, view_opt_string(
            token_uri,
        )).0);
    }
    Ok(MintInstruction { recipient, token_id, token_uri, extension })
}

// ---------------------------------------------------------------------
// Queries
// ---------------------------------------------------------------------

/// Clones an optional identity.
fn clone_opt_string(o: &Option<String>) -> (r: Option<String>)
    ensures
        view_opt_string(r) == view_opt_string(*o),
{
    match o {
        Some(s) => Some(s.clone()),
        None => None,
    }
}

/// Reads the configuration, paused flag included.
pub fn query_config(state: &MinterState) -> (r: ConfigResponse)
    ensures
        r@ == state@.config,
{
    let r = ConfigResponse {
        minter: state.config.minter.clone(),
        nft_addr: state.config.nft_addr.clone(),
        nft_base_uri: state.config.nft_base_uri.clone(),
        nft_max_supply: state.config.nft_max_supply,
        nft_price_amount: state.config.nft_price_amount,
        owner: state.config.owner.clone(),
        is_mintable: state.config.is_mintable,
        mint_max: state.config.mint_max,
        mint_start_time: state.config.mint_start_time,
        nft_symbol: state.config.nft_symbol.clone(),
        price_denom: state.config.price_denom.clone(),
        royalty_payment_address: clone_opt_string(&state.config.royalty_payment_address),
        royalty_percentage: state.config.royalty_percentage,
        whitelist_mint_max: state.config.whitelist_mint_max,
        whitelist_mint_period: state.config.whitelist_mint_period,
        whitelist_mint_price_amount: state.config.whitelist_mint_price_amount,
        paused: state.config.paused,
    };
    proof {
        assert(r@ =~~= state@.config);
    }
    r
}

/// Reads whether `addr` is on the whitelist.
pub fn query_is_whitelisted(state: &MinterState, addr: &String) -> (r: IsWhitelistedResponse)
    ensures
        r.is_whitelisted == contains_addr(state@.whitelist, addr@),
{
    IsWhitelistedResponse { is_whitelisted: state.whitelist.is_whitelisted(addr) }
}

/// Reads the number of whitelisted addresses.
pub fn query_whitelist_size(state: &MinterState) -> (r: WhitelistSizeResponse)
    ensures
        r.whitelist_size == state@.whitelist.len(),
{
    WhitelistSizeResponse { whitelist_size: state.whitelist.size() }
}

/// Reads the number of pending mint requests.
pub fn query_token_requests_count(state: &MinterState) -> (r: TokenRequestsCountResponse)
    ensures
        r.token_requests_count == state@.requests.len(),
{
    TokenRequestsCountResponse { token_requests_count: state.requests.len() }
}

/// Reads the supply counter.
pub fn query_current_supply(state: &MinterState) -> (r: CurrentSupplyResponse)
    ensures
        r.current_supply == state@.supply,
{
    CurrentSupplyResponse { current_supply: state.supply }
}

/// Reads the pending request at `index`; fails with `NotFound` exactly
/// when the index lies outside the queue.
pub fn query_token_request_by_index(state: &MinterState, index: u128) -> (r: Result<
    TokenRequestByIndexResponse,
    MintError,
>)
    ensures
        index < state@.requests.len() ==> (match r {
            Ok(t) => t.token_request@ == state@.requests[index as int],
            Err(_) => false,
        }),
        index >= state@.requests.len() ==> r == Err::<TokenRequestByIndexResponse, MintError>(
            MintError::NotFound,
        ),
{
    if index < state.requests.len() as u128 {
        let i = index as usize;
        let req = MintRequest { addr: state.requests[i].addr.clone() };
        Ok(TokenRequestByIndexResponse { token_request: req })
    } else {
        Err(MintError::NotFound)
    }
}

/// Routes one query operation to its reader.  Queries need no
/// authorization and never touch the state.
pub fn query(state: &MinterState, msg: QueryMsg) -> (r: Result<QueryResponse, MintError>)
    ensures
        (match msg {
            QueryMsg::Config => (match r {
                Ok(QueryResponse::Config(c)) => c@ == state@.config,
                _ => false,
            }),
            QueryMsg::IsWhitelisted { addr } => (match r {
                Ok(QueryResponse::IsWhitelisted(w)) => w.is_whitelisted == contains_addr(
                    state@.whitelist,
                    addr@,
                ),
                _ => false,
            }),
            QueryMsg::WhitelistSize => (match r {
                Ok(QueryResponse::WhitelistSize(w)) => w.whitelist_size == state@.whitelist.len(),
                _ => false,
            }),
            QueryMsg::TokenRequestsCount => (match r {
                Ok(QueryResponse::TokenRequestsCount(c)) => c.token_requests_count
                    == state@.requests.len(),
                _ => false,
            }),
            QueryMsg::CurrentSupply => (match r {
                Ok(QueryResponse::CurrentSupply(c)) => c.current_supply == state@.supply,
                _ => false,
            }),
            QueryMsg::TokenRequestByIndex { index } => (match r {
                Ok(QueryResponse::TokenRequestByIndex(t)) => index < state@.requests.len()
                    && t.token_request@ == state@.requests[index as int],
                Err(e) => index >= state@.requests.len() && e == MintError::NotFound,
                _ => false,
            }),
        }),
{
    match msg {
        QueryMsg::Config => Ok(QueryResponse::Config(query_config(state))),
        QueryMsg::IsWhitelisted { addr } => Ok(
            QueryResponse::IsWhitelisted(query_is_whitelisted(state, &addr)),
        ),
        QueryMsg::WhitelistSize => Ok(QueryResponse::WhitelistSize(query_whitelist_size(state))),
        QueryMsg::TokenRequestsCount => Ok(
            QueryResponse::TokenRequestsCount(query_token_requests_count(state)),
        ),
        QueryMsg::CurrentSupply => Ok(QueryResponse::CurrentSupply(query_current_supply(state))),
        QueryMsg::TokenRequestByIndex { index } => (match query_token_request_by_index(
            state,
            index,
        ) {
            Ok(t) => Ok(QueryResponse::TokenRequestByIndex(t)),
            Err(e) => Err(e),
        }),
    }
}

// ---------------------------------------------------------------------
// The execute dispatcher
// ---------------------------------------------------------------------

/// Routes one execute operation to its handler and wraps its outcome as
/// an effect.
///
/// `caller` is the authenticated identity the host attached to the call,
/// `now` its timestamp, and `balance` the contract's current balance,
/// which only a withdrawal reads.  The state changes exactly as the
/// matching transition function says; on an error it does not change at
/// all.
pub fn execute(
    state: &mut MinterState,
    caller: &String,
    now: u64,
    balance: u128,
    msg: ExecuteMsg,
) -> (r: Result<ExecuteEffect, MintError>)
    requires
        state_wf(old(state)@),
    ensures
        state_wf(final(state)@),
        (match msg {
            ExecuteMsg::UpdateConfig {
                minter,
                nft_addr,
                nft_base_uri,
                nft_max_supply,
                nft_price_amount,
                owner,
            } => {
                let t = update_config_transition(
                    old(state)@,
                    caller@,
                    view_opt_string(minter),
                    view_opt_string(nft_addr),
                    view_opt_string(nft_base_uri),
                    nft_max_supply,
                    nft_price_amount,
                    view_opt_string(owner),
                );
                final(state)@ == t.0 && (match r {
                    Ok(e) => t.1 is Ok && e@ == EffectView::Ack,
                    Err(x) => t.1 == Err::<(), MintError>(x),
                })
            },
            ExecuteMsg::Whitelist { addrs } => {
                let t = whitelist_transition(old(state)@, caller@, view_strings(addrs@));
                final(state)@ == t.0 && (match r {
                    Ok(e) => t.1 is Ok && e@ == EffectView::Ack,
                    Err(x) => t.1 == Err::<(), MintError>(x),
                })
            },
            ExecuteMsg::StartMint => {
                let t = start_mint_transition(old(state)@, caller@, now);
                final(state)@ == t.0 && (match r {
                    Ok(e) => t.1 is Ok && e@ == EffectView::Ack,
                    Err(x) => t.1 == Err::<(), MintError>(x),
                })
            },
            ExecuteMsg::RequestMint { addr } => {
                let t = request_mint_transition(old(state)@, addr@, now);
                final(state)@ == t.0 && (match r {
                    Ok(ExecuteEffect::Requested { index }) => t.1 == Ok::<int, MintError>(
                        index as int,
                    ),
                    Err(x) => t.1 == Err::<int, MintError>(x),
                    _ => false,
                })
            },
            ExecuteMsg::Mint { extension, token_id, token_uri } => {
                let t = mint_transition(old(state)@, caller@, token_id@, view_opt_string(
                    token_uri,
                ));
                final(state)@ == t.0 && (match r {
                    Ok(ExecuteEffect::Minted { instruction }) => t.1 == Ok::<
                        MintInstructionView,
                        MintError,
                    >(instruction@),
                    Err(x) => t.1 == Err::<MintInstructionView, MintError>(x),
                    _ => false,
                })
            },
            ExecuteMsg::Pause => {
                let t = pause_transition(old(state)@, caller@);
                final(state)@ == t.0 && (match r {
                    Ok(e) => t.1 is Ok && e@ == EffectView::Ack,
                    Err(x) => t.1 == Err::<(), MintError>(x),
                })
            },
            ExecuteMsg::Unpause => {
                let t = unpause_transition(old(state)@, caller@);
                final(state)@ == t.0 && (match r {
                    Ok(e) => t.1 is Ok && e@ == EffectView::Ack,
                    Err(x) => t.1 == Err::<(), MintError>(x),
                })
            },
            ExecuteMsg::WithdrawFund => {
                let t = withdraw_transition(old(state)@, caller@, balance);
                final(state)@ == t.0 && (match r {
                    Ok(ExecuteEffect::Withdrawn { instruction }) => t.1 == Ok::<
                        WithdrawInstructionView,
                        MintError,
                    >(instruction@),
                    Err(x) => t.1 == Err::<WithdrawInstructionView, MintError>(x),
                    _ => false,
                })
            },
        }),
{
    match msg {
        ExecuteMsg::UpdateConfig {
            minter,
            nft_addr,
            nft_base_uri,
            nft_max_supply,
            nft_price_amount,
            owner,
        } => (match try_update_config(
            state,
            caller,
            minter,
            nft_addr,
            nft_base_uri,
            nft_max_supply,
            nft_price_amount,
            owner,
        ) {
            Ok(_) => Ok(ExecuteEffect::Ack),
            Err(e) => Err(e),
        }),
        ExecuteMsg::Whitelist { addrs } => (match try_whitelist(state, caller, addrs) {
            Ok(_) => Ok(ExecuteEffect::Ack),
            Err(e) => Err(e),
        }),
        ExecuteMsg::StartMint => (match try_start_mint(state, caller, now) {
            Ok(_) => Ok(ExecuteEffect::Ack),
            Err(e) => Err(e),
        }),
        ExecuteMsg::RequestMint { addr } => (match try_request_mint(state, addr, now) {
            Ok(index) => Ok(ExecuteEffect::Requested { index }),
            Err(e) => Err(e),
        }),
        ExecuteMsg::Mint { extension, token_id, token_uri } => (match try_mint(
            state,
            caller,
            extension,
            token_id,
            token_uri,
        ) {
            Ok(instruction) => Ok(ExecuteEffect::Minted { instruction }),
            Err(e) => Err(e),
        }),
        ExecuteMsg::Pause => (match try_pause(state, caller) {
            Ok(_) => Ok(ExecuteEffect::Ack),
            Err(e) => Err(e),
        }),
        ExecuteMsg::Unpause => (match try_unpause(state, caller) {
            Ok(_) => Ok(ExecuteEffect::Ack),
            Err(e) => Err(e),
        }),
        ExecuteMsg::WithdrawFund => (match try_withdraw_fund(state, caller, balance) {
            Ok(instruction) => Ok(ExecuteEffect::Withdrawn { instruction }),
            Err(e) => Err(e),
        }),
    }
}

} // verus!
