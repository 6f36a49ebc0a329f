//! The mint workflow end to end: instantiation, configuration updates,
//! whitelisting, the request/mint pipeline, and pause control.

use furya_bunker_minter::contract::{
    init, query_config, query_current_supply, query_token_requests_count, try_mint, try_pause,
    try_request_mint, try_unpause, try_whitelist,
};
use furya_bunker_minter::{
    ExecuteEffect, ExecuteMsg, InstantiateMsg, MintError, MinterState, Whitelist, execute,
};

fn base_msg(owner: &str) -> InstantiateMsg {
    InstantiateMsg {
        minter: String::from("minter"),
        nft_addr: String::from("nft_address"),
        nft_base_uri: String::from("base_uri"),
        nft_max_supply: 1000,
        nft_price_amount: 100,
        owner: String::from(owner),
        is_mintable: true,
        mint_max: Some(100),
        mint_start_time: 0,
        nft_symbol: String::from("NFT"),
        price_denom: String::from("uusd"),
        royalty_payment_address: Some(String::from("royalty_address")),
        royalty_percentage: Some(10),
        whitelist_mint_max: Some(50),
        whitelist_mint_period: 1000,
        whitelist_mint_price_amount: Some(50),
    }
}

fn init_state(owner: &str) -> MinterState {
    init(base_msg(owner)).expect("instantiation should succeed")
}

#[test]
fn integration_tests_proper_initialization() {
    let res = init(base_msg("owner"));
    assert!(res.is_ok());
}

#[test]
fn integration_tests_update_config() {
    let caller = String::from("caller");
    let mut state = init_state("caller");

    let update_config_msg = ExecuteMsg::UpdateConfig {
        minter: Some(String::from("new_minter")),
        nft_addr: Some(String::from("new_nft_address")),
        nft_base_uri: Some(String::from("new_base_uri")),
        nft_max_supply: Some(2000),
        nft_price_amount: Some(200),
        owner: Some(String::from("new_owner")),
    };
    let res = execute(&mut state, &caller, 0, 0, update_config_msg);
    assert!(matches!(res, Ok(ExecuteEffect::Ack)));

    let config = query_config(&state);
    assert_eq!(config.minter, "new_minter");
    assert_eq!(config.nft_addr, "new_nft_address");
    assert_eq!(config.nft_base_uri, "new_base_uri");
    assert_eq!(config.nft_max_supply, 2000);
    assert_eq!(config.nft_price_amount, 200);
    assert_eq!(config.owner, "new_owner");
    assert_eq!(config.is_mintable, true);
    assert_eq!(config.mint_max, Some(100));
    assert_eq!(config.mint_start_time, 0);
    assert_eq!(config.nft_symbol, "NFT");
    assert_eq!(config.price_denom, "uusd");
    assert_eq!(config.royalty_payment_address, Some(String::from("royalty_address")));
    assert_eq!(config.royalty_percentage, Some(10));
    assert_eq!(config.whitelist_mint_max, Some(50));
    assert_eq!(config.whitelist_mint_period, 1000);
    assert_eq!(config.whitelist_mint_price_amount, Some(50));
    assert_eq!(config.paused, false);
}

#[test]
fn test_whitelist() {
    let mut whitelist = Whitelist::new();

    let addr1 = String::from("addr1");
    let addr2 = String::from("addr2");

    assert!(!whitelist.is_whitelisted(&addr1));

    whitelist.add_address(addr1.clone());
    assert!(whitelist.is_whitelisted(&addr1));
    assert!(!whitelist.is_whitelisted(&addr2));
}

#[test]
fn unit_proper_initialization() {
    let state = init_state("creator");
    let config = query_config(&state);
    assert_eq!(config.is_mintable, true);
    assert_eq!(config.mint_start_time, 0);
}

#[test]
fn unit_update_config() {
    let creator = String::from("creator");
    let mut state = init_state("creator");

    let update_msg = ExecuteMsg::UpdateConfig {
        minter: Some(String::from("newminter")),
        nft_addr: Some(String::from("newnftaddr")),
        nft_base_uri: Some(String::from("https://newexample.com/nft/")),
        nft_max_supply: Some(1500),
        nft_price_amount: Some(150),
        owner: Some(String::from("newowner")),
    };
    let res = execute(&mut state, &creator, 0, 0, update_msg);
    assert!(res.is_ok());

    let config = query_config(&state);
    assert_eq!(config.minter, "newminter");
    assert_eq!(config.nft_addr, "newnftaddr");
    assert_eq!(config.nft_base_uri, "https://newexample.com/nft/");
    assert_eq!(config.nft_max_supply, 1500);
    assert_eq!(config.nft_price_amount, 150);
    assert_eq!(config.owner, "newowner");
}

#[test]
fn request_and_execute_mint() {
    let minter = String::from("minter");
    let mut state = init_state("creator");
    // Past the whitelist window (it closes at 1000), so any address may
    // request.
    let now: u64 = 2000;

    let res = try_request_mint(&mut state, String::from("requestor"), now);
    assert!(matches!(res, Ok(0)));
    assert_eq!(query_token_requests_count(&state).token_requests_count, 1);

    let mint = try_mint(
        &mut state,
        &minter,
        None,
        String::from("1"),
        Some(String::from("https://example.com/token/1")),
    )
    .expect("the mint should succeed");
    assert_eq!(mint.token_id, "1");
    assert_eq!(mint.recipient, "requestor");

    assert_eq!(query_token_requests_count(&state).token_requests_count, 0);
}

#[test]
fn pause_and_unpause() {
    let owner = String::from("owner");
    let mut state = init_state("owner");

    try_pause(&mut state, &owner).expect("the owner may pause");
    assert_eq!(query_config(&state).paused, true);

    try_unpause(&mut state, &owner).expect("the owner may unpause");
    assert_eq!(query_config(&state).paused, false);
}

#[test]
fn supply_cap_mints_once_then_rejects() {
    let minter = String::from("minter");
    let mut msg = base_msg("owner");
    msg.nft_max_supply = 1;
    let mut state = init(msg).unwrap();

    let first = try_mint(&mut state, &minter, None, String::from("1"), None);
    assert!(first.is_ok());
    assert_eq!(query_current_supply(&state).current_supply, 1);

    let second = try_mint(&mut state, &minter, None, String::from("2"), None);
    assert!(matches!(second, Err(MintError::SupplyExceeded)));
    assert_eq!(query_current_supply(&state).current_supply, 1);
}

#[test]
fn pause_gates_request_and_mint() {
    let owner = String::from("owner");
    let minter = String::from("minter");
    let mut state = init_state("owner");
    let now: u64 = 2000;

    try_pause(&mut state, &owner).unwrap();
    let req = try_request_mint(&mut state, String::from("someone"), now);
    assert!(matches!(req, Err(MintError::Paused)));
    let mint = try_mint(&mut state, &minter, None, String::from("1"), None);
    assert!(matches!(mint, Err(MintError::Paused)));

    try_unpause(&mut state, &owner).unwrap();
    let req = try_request_mint(&mut state, String::from("someone"), now);
    assert!(matches!(req, Ok(0)));
    let mint = try_mint(&mut state, &minter, None, String::from("1"), None);
    assert!(mint.is_ok());
}

#[test]
fn whitelist_window_boundary() {
    let minter = String::from("minter");
    let mut msg = base_msg("owner");
    msg.mint_start_time = 1000;
    msg.whitelist_mint_period = 100;
    let mut state = init(msg).unwrap();
    try_whitelist(&mut state, &minter, vec![String::from("member")]).unwrap();

    // One tick before the window closes: a non-member is turned away, a
    // member is served.
    let req = try_request_mint(&mut state, String::from("outsider"), 1099);
    assert!(matches!(req, Err(MintError::NotWhitelisted)));
    let req = try_request_mint(&mut state, String::from("member"), 1099);
    assert!(matches!(req, Ok(0)));

    // One tick after the window closed: the same outsider is served.
    let req = try_request_mint(&mut state, String::from("outsider"), 1101);
    assert!(matches!(req, Ok(1)));
}

#[test]
fn whitelist_per_address_cap() {
    let minter = String::from("minter");
    let mut msg = base_msg("owner");
    msg.whitelist_mint_max = Some(1);
    let mut state = init(msg).unwrap();
    try_whitelist(&mut state, &minter, vec![String::from("member")]).unwrap();

    // Inside the window (it closes at 1000) the member may request once.
    let req = try_request_mint(&mut state, String::from("member"), 10);
    assert!(matches!(req, Ok(0)));
    let req = try_request_mint(&mut state, String::from("member"), 20);
    assert!(matches!(req, Err(MintError::MintLimitExceeded)));
}

#[test]
fn queue_cap_limits_pending_requests() {
    let mut msg = base_msg("owner");
    msg.mint_max = Some(1);
    let mut state = init(msg).unwrap();
    let now: u64 = 2000;

    let req = try_request_mint(&mut state, String::from("first"), now);
    assert!(matches!(req, Ok(0)));
    let req = try_request_mint(&mut state, String::from("second"), now);
    assert!(matches!(req, Err(MintError::MintLimitExceeded)));
}

#[test]
fn request_reserves_supply_slot() {
    let mut msg = base_msg("owner");
    msg.nft_max_supply = 2;
    msg.mint_max = None;
    let mut state = init(msg).unwrap();
    let now: u64 = 2000;

    assert!(try_request_mint(&mut state, String::from("a"), now).is_ok());
    assert!(try_request_mint(&mut state, String::from("b"), now).is_ok());
    let third = try_request_mint(&mut state, String::from("c"), now);
    assert!(matches!(third, Err(MintError::SupplyExceeded)));
}

#[test]
fn mint_consumes_requests_oldest_first() {
    let minter = String::from("minter");
    let mut state = init_state("owner");
    let now: u64 = 2000;

    try_request_mint(&mut state, String::from("first"), now).unwrap();
    try_request_mint(&mut state, String::from("second"), now).unwrap();

    let one = try_mint(&mut state, &minter, None, String::from("1"), None).unwrap();
    assert_eq!(one.recipient, "first");
    let two = try_mint(&mut state, &minter, None, String::from("2"), None).unwrap();
    assert_eq!(two.recipient, "second");

    // With the queue drained, the token goes to the caller itself.
    let three = try_mint(&mut state, &minter, None, String::from("3"), None).unwrap();
    assert_eq!(three.recipient, "minter");
}
