//! The laws of the minter workflow, each proved once and for all over the
//! spec-level transition functions that the executable handlers are
//! verified to implement.

use crate::contract::{
    mint_transition, pause_transition, request_mint_transition, start_mint_transition,
    unpause_transition, update_config_transition, whitelist_add_all, whitelist_add_one,
    whitelist_transition, withdraw_transition,
};
use crate::error::MintError;
use crate::msg::MintInstructionView;
use crate::state::{contains_addr, state_wf, StateView};
use vstd::prelude::*;

verus! {

/// Law: one mint never pushes the supply counter past the maximum
/// supply.  A mint attempted at the ceiling fails with `SupplyExceeded`,
/// and any failed mint leaves the whole state unchanged.
pub proof fn lemma_mint_supply_bounded(
    s: StateView,
    caller: Seq<char>,
    token_id: Seq<char>,
    token_uri: Option<Seq<char>>,
)
    requires
        state_wf(s),
    ensures
        ({
            let t = mint_transition(s, caller, token_id, token_uri);
            &&& t.0.supply <= t.0.config.nft_max_supply
            &&& state_wf(t.0)
            &&& (!s.config.paused && s.config.is_mintable && s.supply >= s.config.nft_max_supply
                ==> t.1 == Err::<MintInstructionView, MintError>(MintError::SupplyExceeded))
            &&& (t.1 is Err ==> t.0 == s)
        }),
{
    let t = mint_transition(s, caller, token_id, token_uri);
    if !s.config.paused && s.config.is_mintable && s.supply < s.config.nft_max_supply {
        if s.requests.len() > 0 {
            assert(t.0.requests.len() == s.requests.len() - 1);
        }
        assert(state_wf(t.0));
    }
}

/// One mint call of a sequence: the arguments the caller hands a mint.
pub struct MintCallView {
    pub caller: Seq<char>,
    pub token_id: Seq<char>,
    pub token_uri: Option<Seq<char>>,
}

/// The state after a whole sequence of mint calls, applied oldest first;
/// failed calls leave the state as they found it.
pub open spec fn apply_mints(s: StateView, calls: Seq<MintCallView>) -> StateView
    decreases calls.len(),
{
    if calls.len() == 0 {
        s
    } else {
        apply_mints(
            mint_transition(s, calls[0].caller, calls[0].token_id, calls[0].token_uri).0,
            calls.drop_first(),
        )
    }
}

/// Law: under every sequence of mint calls, however long and in whatever
/// state they fail or succeed, the supply counter stays at or below the
/// maximum supply.
pub proof fn lemma_mint_sequence_supply_bounded(s: StateView, calls: Seq<MintCallView>)
    requires
        state_wf(s),
    ensures
        state_wf(apply_mints(s, calls)),
        apply_mints(s, calls).supply <= apply_mints(s, calls).config.nft_max_supply,
    decreases calls.len(),
{
    if calls.len() > 0 {
        lemma_mint_supply_bounded(s, calls[0].caller, calls[0].token_id, calls[0].token_uri);
        lemma_mint_sequence_supply_bounded(
            mint_transition(s, calls[0].caller, calls[0].token_id, calls[0].token_uri).0,
            calls.drop_first(),
        );
    }
}

/// Law: every owner-only operation — configuration update, pause,
/// unpause, fund withdrawal — fails with `Unauthorized` for any caller
/// other than the owner, and leaves the state unchanged.
pub proof fn lemma_owner_only_operations(
    s: StateView,
    caller: Seq<char>,
    minter: Option<Seq<char>>,
    nft_addr: Option<Seq<char>>,
    nft_base_uri: Option<Seq<char>>,
    nft_max_supply: Option<u128>,
    nft_price_amount: Option<u128>,
    owner: Option<Seq<char>>,
    balance: u128,
)
    requires
        caller != s.config.owner,
    ensures
        update_config_transition(
            s,
            caller,
            minter,
            nft_addr,
            nft_base_uri,
            nft_max_supply,
            nft_price_amount,
            owner,
        ).0 == s,
        update_config_transition(
            s,
            caller,
            minter,
            nft_addr,
            nft_base_uri,
            nft_max_supply,
            nft_price_amount,
            owner,
        ).1 == Err::<(), MintError>(MintError::Unauthorized),
        pause_transition(s, caller) == (s, Err::<(), MintError>(MintError::Unauthorized)),
        unpause_transition(s, caller) == (s, Err::<(), MintError>(MintError::Unauthorized)),
        withdraw_transition(s, caller, balance).0 == s,
        withdraw_transition(s, caller, balance).1 is Err,
        withdraw_transition(s, caller, balance).1->Err_0 == MintError::Unauthorized,
{
}

/// Law: every minter-only operation — whitelist management and the start
/// of minting — fails with `Unauthorized` for any caller other than the
/// minter, and leaves the state unchanged.
pub proof fn lemma_minter_only_operations(
    s: StateView,
    caller: Seq<char>,
    addrs: Seq<Seq<char>>,
    now: u64,
)
    requires
        caller != s.config.minter,
    ensures
        whitelist_transition(s, caller, addrs) == (s, Err::<(), MintError>(
            MintError::Unauthorized,
        )),
        start_mint_transition(s, caller, now) == (s, Err::<(), MintError>(
            MintError::Unauthorized,
        )),
{
}

/// Law: whitelisting is idempotent.  Offering the same address a second
/// time changes nothing: the whitelist, and with it its size, is exactly
/// what the first call left.
pub proof fn lemma_whitelist_idempotent(s: StateView, caller: Seq<char>, a: Seq<char>)
    requires
        caller == s.config.minter,
    ensures
        ({
            let s1 = whitelist_transition(s, caller, seq![a]).0;
            let s2 = whitelist_transition(s1, caller, seq![a]).0;
            &&& s2 == s1
            &&& s2.whitelist.len() == s1.whitelist.len()
        }),
{
    let s1 = whitelist_transition(s, caller, seq![a]).0;
    let s2 = whitelist_transition(s1, caller, seq![a]).0;
    let single = seq![a];
    assert(single.len() == 1);
    assert(single.last() == a);
    assert(single.drop_last() =~= Seq::<Seq<char>>::empty());
    assert(whitelist_add_all(s.whitelist, single.drop_last()) == s.whitelist);
    assert(whitelist_add_all(s1.whitelist, single.drop_last()) == s1.whitelist);
    assert(whitelist_add_all(s.whitelist, single) == whitelist_add_one(s.whitelist, a));
    assert(whitelist_add_all(s1.whitelist, single) == whitelist_add_one(s1.whitelist, a));
    assert(contains_addr(s1.whitelist, a)) by {
        if !contains_addr(s.whitelist, a) {
            assert(s1.whitelist == s.whitelist.push(a));
            assert(s1.whitelist[s.whitelist.len() as int] == a);
        }
    }
    assert(s2 =~~= s1);
}

/// Law: a configuration update that sets only the owner makes exactly
/// the owner change: the update is accepted, the configuration read back
/// carries the new owner, and every other configuration field and every
/// other part of the state keep their prior values.
pub proof fn lemma_update_config_round_trip(s: StateView, caller: Seq<char>, x: Seq<char>)
    requires
        state_wf(s),
        caller == s.config.owner,
        x.len() > 0,
    ensures
        ({
            let t = update_config_transition(s, caller, None, None, None, None, None, Some(x));
            &&& t.1 == Ok::<(), MintError>(())
            &&& t.0.config.owner == x
            &&& t.0.config.minter == s.config.minter
            &&& t.0.config.nft_addr == s.config.nft_addr
            &&& t.0.config.nft_base_uri == s.config.nft_base_uri
            &&& t.0.config.nft_max_supply == s.config.nft_max_supply
            &&& t.0.config.nft_price_amount == s.config.nft_price_amount
            &&& t.0.config.is_mintable == s.config.is_mintable
            &&& t.0.config.mint_max == s.config.mint_max
            &&& t.0.config.mint_start_time == s.config.mint_start_time
            &&& t.0.config.nft_symbol == s.config.nft_symbol
            &&& t.0.config.price_denom == s.config.price_denom
            &&& t.0.config.royalty_payment_address == s.config.royalty_payment_address
            &&& t.0.config.royalty_percentage == s.config.royalty_percentage
            &&& t.0.config.whitelist_mint_max == s.config.whitelist_mint_max
            &&& t.0.config.whitelist_mint_period == s.config.whitelist_mint_period
            &&& t.0.config.whitelist_mint_price_amount == s.config.whitelist_mint_price_amount
            &&& t.0.config.paused == s.config.paused
            &&& t.0.whitelist == s.whitelist
            &&& t.0.requests == s.requests
            &&& t.0.supply == s.supply
            &&& t.0.whitelist_tally == s.whitelist_tally
        }),
{
}

/// Law: pausing gates minting.  After a pause both a mint request and a
/// mint fail with `Paused` and change nothing, and an unpause by the
/// owner restores a previously unpaused state exactly.
pub proof fn lemma_pause_gating(
    s: StateView,
    addr: Seq<char>,
    caller: Seq<char>,
    token_id: Seq<char>,
    token_uri: Option<Seq<char>>,
    now: u64,
)
    ensures
        ({
            let p = pause_transition(s, s.config.owner).0;
            &&& p.config.paused
            &&& request_mint_transition(p, addr, now).0 == p
            &&& request_mint_transition(p, addr, now).1 == Err::<int, MintError>(MintError::Paused)
            &&& mint_transition(p, caller, token_id, token_uri).0 == p
            &&& mint_transition(p, caller, token_id, token_uri).1 == Err::<
                MintInstructionView,
                MintError,
            >(MintError::Paused)
            &&& (!s.config.paused ==> unpause_transition(p, s.config.owner).0 == s)
        }),
{
    let p = pause_transition(s, s.config.owner).0;
    if !s.config.paused {
        assert(unpause_transition(p, s.config.owner).0 =~~= s);
    }
}

/// Law: the whitelist window gates by membership alone.  While the
/// window is open, a request from an address off the whitelist fails
/// with `NotWhitelisted` and changes nothing; the same request once the
/// window has passed is accepted, provided minting is enabled and the
/// queue and the supply still have room.
pub proof fn lemma_whitelist_window_gating(s: StateView, addr: Seq<char>, t_in: u64, t_out: u64)
    requires
        state_wf(s),
        !s.config.paused,
        s.config.is_mintable,
        t_in < s.config.mint_start_time + s.config.whitelist_mint_period,
        t_out >= s.config.mint_start_time + s.config.whitelist_mint_period,
        !contains_addr(s.whitelist, addr),
        s.config.mint_max is Some ==> s.requests.len() < s.config.mint_max->0,
        s.supply + s.requests.len() < s.config.nft_max_supply,
    ensures
        request_mint_transition(s, addr, t_in).0 == s,
        request_mint_transition(s, addr, t_in).1 == Err::<int, MintError>(
            MintError::NotWhitelisted,
        ),
        request_mint_transition(s, addr, t_out).1 == Ok::<int, MintError>(
            s.requests.len() as int,
        ),
{
}

} // verus!
