//! Authorization, instantiation validation, fund withdrawal, and the
//! read-only queries.

use furya_bunker_minter::contract::{
    init, query_config, query_is_whitelisted, query_token_request_by_index,
    query_whitelist_size, try_pause, try_start_mint, try_unpause, try_update_config,
    try_whitelist, try_withdraw_fund, try_request_mint,
};
use furya_bunker_minter::{
    ExecuteEffect, ExecuteMsg, InstantiateMsg, MintError, MinterState, QueryMsg, QueryResponse,
    check_wf, execute, query,
};

fn base_msg(owner: &str) -> InstantiateMsg {
    InstantiateMsg {
        minter: String::from("minter"),
        nft_addr: String::from("nft_address"),
        nft_base_uri: String::from("base_uri"),
        nft_max_supply: 1000,
        nft_price_amount: 100,
        owner: String::from(owner),
        is_mintable: true,
        mint_max: Some(100),
        mint_start_time: 0,
        nft_symbol: String::from("NFT"),
        price_denom: String::from("uusd"),
        royalty_payment_address: Some(String::from("royalty_address")),
        royalty_percentage: Some(10),
        whitelist_mint_max: Some(50),
        whitelist_mint_period: 1000,
        whitelist_mint_price_amount: Some(50),
    }
}

fn init_state(owner: &str) -> MinterState {
    init(base_msg(owner)).expect("instantiation should succeed")
}

#[test]
fn owner_only_operations_reject_others() {
    let stranger = String::from("stranger");
    let mut state = init_state("owner");

    let res = try_update_config(
        &mut state,
        &stranger,
        None,
        None,
        None,
        Some(1),
        None,
        None,
    );
    assert!(matches!(res, Err(MintError::Unauthorized)));
    assert!(matches!(try_pause(&mut state, &stranger), Err(MintError::Unauthorized)));
    assert!(matches!(try_unpause(&mut state, &stranger), Err(MintError::Unauthorized)));
    assert!(matches!(
        try_withdraw_fund(&mut state, &stranger, 100),
        Err(MintError::Unauthorized)
    ));
    // The minter is no owner either.
    let minter = String::from("minter");
    assert!(matches!(try_pause(&mut state, &minter), Err(MintError::Unauthorized)));
    // Nothing changed along the way.
    assert_eq!(query_config(&state).nft_max_supply, 1000);
    assert_eq!(query_config(&state).paused, false);
}

#[test]
fn minter_only_operations_reject_others() {
    let owner = String::from("owner");
    let mut state = init_state("owner");

    let res = try_whitelist(&mut state, &owner, vec![String::from("a")]);
    assert!(matches!(res, Err(MintError::Unauthorized)));
    assert!(matches!(try_start_mint(&mut state, &owner, 0), Err(MintError::Unauthorized)));
    assert_eq!(query_whitelist_size(&state).whitelist_size, 0);
}

#[test]
fn whitelist_add_is_idempotent() {
    let minter = String::from("minter");
    let mut state = init_state("owner");

    try_whitelist(&mut state, &minter, vec![String::from("member")]).unwrap();
    let size_after_first = query_whitelist_size(&state).whitelist_size;
    try_whitelist(&mut state, &minter, vec![String::from("member")]).unwrap();
    assert_eq!(query_whitelist_size(&state).whitelist_size, size_after_first);
    assert_eq!(size_after_first, 1);
}

#[test]
fn update_config_owner_round_trip() {
    let owner = String::from("owner");
    let mut state = init_state("owner");

    let msg = ExecuteMsg::UpdateConfig {
        minter: None,
        nft_addr: None,
        nft_base_uri: None,
        nft_max_supply: None,
        nft_price_amount: None,
        owner: Some(String::from("X")),
    };
    execute(&mut state, &owner, 0, 0, msg).unwrap();

    match query(&state, QueryMsg::Config).unwrap() {
        QueryResponse::Config(c) => {
            assert_eq!(c.owner, "X");
            // Unspecified fields keep their prior values.
            assert_eq!(c.minter, "minter");
            assert_eq!(c.nft_max_supply, 1000);
            assert_eq!(c.nft_base_uri, "base_uri");
        }
        _ => panic!("the config query answers with a config"),
    }
}

#[test]
fn instantiation_rejects_bad_parameters() {
    let mut msg = base_msg("owner");
    msg.nft_max_supply = 0;
    assert!(matches!(init(msg), Err(MintError::InvalidParameter)));

    let mut msg = base_msg("");
    msg.nft_max_supply = 10;
    assert!(matches!(init(msg), Err(MintError::InvalidParameter)));

    let mut msg = base_msg("owner");
    msg.minter = String::new();
    assert!(matches!(init(msg), Err(MintError::InvalidParameter)));

    let mut msg = base_msg("owner");
    msg.mint_start_time = u64::MAX;
    msg.whitelist_mint_period = 1;
    assert!(matches!(init(msg), Err(MintError::InvalidParameter)));
}

#[test]
fn update_config_rejects_inconsistent_patch() {
    let owner = String::from("owner");
    let mut state = init_state("owner");
    let now: u64 = 2000;

    // Two pending requests reserve two supply slots; the maximum supply
    // cannot drop below them.
    try_request_mint(&mut state, String::from("a"), now).unwrap();
    try_request_mint(&mut state, String::from("b"), now).unwrap();
    let res = try_update_config(&mut state, &owner, None, None, None, Some(1), None, None);
    assert!(matches!(res, Err(MintError::InvalidParameter)));

    let res = try_update_config(&mut state, &owner, None, None, None, Some(0), None, None);
    assert!(matches!(res, Err(MintError::InvalidParameter)));

    let res =
        try_update_config(&mut state, &owner, Some(String::new()), None, None, None, None, None);
    assert!(matches!(res, Err(MintError::InvalidParameter)));

    // A consistent patch is accepted.
    let res = try_update_config(&mut state, &owner, None, None, None, Some(2), None, None);
    assert!(res.is_ok());
    assert_eq!(query_config(&state).nft_max_supply, 2);
}

#[test]
fn start_mint_checks_flag_and_time() {
    let minter = String::from("minter");
    let mut msg = base_msg("owner");
    msg.mint_start_time = 500;
    let mut state = init(msg).unwrap();

    assert!(matches!(try_start_mint(&mut state, &minter, 499), Err(MintError::NotMintable)));
    assert!(try_start_mint(&mut state, &minter, 500).is_ok());

    let mut msg = base_msg("owner");
    msg.is_mintable = false;
    let mut state = init(msg).unwrap();
    assert!(matches!(try_start_mint(&mut state, &minter, 2000), Err(MintError::NotMintable)));
    assert!(matches!(
        try_request_mint(&mut state, String::from("a"), 2000),
        Err(MintError::NotMintable)
    ));
}

#[test]
fn withdraw_fund_pays_the_owner() {
    let owner = String::from("owner");
    let mut state = init_state("owner");

    let res = try_withdraw_fund(&mut state, &owner, 0);
    assert!(matches!(res, Err(MintError::NothingToWithdraw)));

    let instruction = try_withdraw_fund(&mut state, &owner, 250).unwrap();
    assert_eq!(instruction.recipient, "owner");
    assert_eq!(instruction.amount, 250);
    assert_eq!(instruction.denom, "uusd");
}

#[test]
fn token_request_by_index_bounds() {
    let mut state = init_state("owner");
    let now: u64 = 2000;
    try_request_mint(&mut state, String::from("first"), now).unwrap();
    try_request_mint(&mut state, String::from("second"), now).unwrap();

    let found = query_token_request_by_index(&state, 1).unwrap();
    assert_eq!(found.token_request.addr, "second");

    // An index past a queue of length two is not found.
    let missing = query_token_request_by_index(&state, 5);
    assert!(matches!(missing, Err(MintError::NotFound)));
}

#[test]
fn queries_answer_through_the_dispatcher() {
    let minter = String::from("minter");
    let mut state = init_state("owner");
    try_whitelist(&mut state, &minter, vec![String::from("member")]).unwrap();
    try_request_mint(&mut state, String::from("member"), 10).unwrap();

    match query(&state, QueryMsg::IsWhitelisted { addr: String::from("member") }).unwrap() {
        QueryResponse::IsWhitelisted(w) => assert!(w.is_whitelisted),
        _ => panic!("wrong answer kind"),
    }
    match query(&state, QueryMsg::IsWhitelisted { addr: String::from("other") }).unwrap() {
        QueryResponse::IsWhitelisted(w) => assert!(!w.is_whitelisted),
        _ => panic!("wrong answer kind"),
    }
    match query(&state, QueryMsg::WhitelistSize).unwrap() {
        QueryResponse::WhitelistSize(w) => assert_eq!(w.whitelist_size, 1),
        _ => panic!("wrong answer kind"),
    }
    match query(&state, QueryMsg::TokenRequestsCount).unwrap() {
        QueryResponse::TokenRequestsCount(c) => assert_eq!(c.token_requests_count, 1),
        _ => panic!("wrong answer kind"),
    }
    match query(&state, QueryMsg::CurrentSupply).unwrap() {
        QueryResponse::CurrentSupply(c) => assert_eq!(c.current_supply, 0),
        _ => panic!("wrong answer kind"),
    }
    match query(&state, QueryMsg::TokenRequestByIndex { index: 0 }).unwrap() {
        QueryResponse::TokenRequestByIndex(t) => assert_eq!(t.token_request.addr, "member"),
        _ => panic!("wrong answer kind"),
    }
    assert!(matches!(
        query(&state, QueryMsg::TokenRequestByIndex { index: 9 }),
        Err(MintError::NotFound)
    ));
}

#[test]
fn freshly_built_states_are_well_formed() {
    let mut state = init_state("owner");
    assert!(check_wf(&state));
    let owner = String::from("owner");
    execute(&mut state, &owner, 0, 0, ExecuteMsg::Pause).unwrap();
    assert!(check_wf(&state));
    // A state whose counter outruns its ceiling is rejected.
    state.supply = 5000;
    assert!(!check_wf(&state));
}

#[test]
fn execute_reports_effects_per_operation() {
    let owner = String::from("owner");
    let minter = String::from("minter");
    let mut state = init_state("owner");
    let now: u64 = 2000;

    let res = execute(
        &mut state,
        &minter,
        now,
        0,
        ExecuteMsg::RequestMint { addr: String::from("someone") },
    );
    assert!(matches!(res, Ok(ExecuteEffect::Requested { index: 0 })));

    let res = execute(
        &mut state,
        &minter,
        now,
        0,
        ExecuteMsg::Mint { extension: None, token_id: String::from("7"), token_uri: None },
    );
    match res {
        Ok(ExecuteEffect::Minted { instruction }) => {
            assert_eq!(instruction.token_id, "7");
            assert_eq!(instruction.recipient, "someone");
        }
        _ => panic!("a mint reports the instruction for the token collaborator"),
    }

    let res = execute(&mut state, &owner, now, 30, ExecuteMsg::WithdrawFund);
    match res {
        Ok(ExecuteEffect::Withdrawn { instruction }) => {
            assert_eq!(instruction.amount, 30);
            assert_eq!(instruction.recipient, "owner");
        }
        _ => panic!("a withdrawal reports the instruction for the ledger"),
    }
}

#[test]
fn error_messages_name_the_failure() {
    assert!(MintError::Unauthorized.message().contains("authorized"));
    assert!(MintError::SupplyExceeded.message().contains("supply"));
    assert!(MintError::NothingToWithdraw.message().contains("withdraw"));
}
