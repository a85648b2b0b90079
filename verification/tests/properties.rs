use std::collections::VecDeque;

use hop_router::authorize::{validate_received_from_an_allowed_address,
    validate_received_token};
use hop_router::constants::BLOCK_SIZE;
use hop_router::contract::{finalize_route, handle_first_hop, handle_hop, hop_ready, init};
use hop_router::cosmos::HostMsg;
use hop_router::error::RouterError;
use hop_router::msg::{build_finalize_route, build_receive_continuation, InitMsg, RoutePayload,
    Snip20};
use hop_router::state::{read_route_state, store_route_state, Coin, Env, Hop, Route, RouteState,
    SecretContract, Token};
use hop_router::wire::{push_dec, push_json_string, space_pad};

use secret_cosmwasm_std::{to_binary, Binary, Coin as SdkCoin, CosmosMsg, HumanAddr, Uint128,
    WasmMsg};
use secret_toolkit::snip20;

fn router_env(sender: &str, sent: &[(u128, &str)]) -> Env {
    Env {
        message_sender: sender.to_string(),
        sent_funds: sent
            .iter()
            .map(|(amount, denom)| Coin { denom: denom.to_string(), amount: *amount })
            .collect(),
        contract_address: "cosmos2contract".to_string(),
        contract_code_hash: "".to_string(),
    }
}

fn sscrt() -> SecretContract {
    SecretContract {
        address: "mock-sscrt-address".to_string(),
        contract_hash: "mock-sscrt-contract-hash".to_string(),
    }
}

fn pair() -> SecretContract {
    SecretContract {
        address: "pair-contract-address".to_string(),
        contract_hash: "pair-contract-contract-hash".to_string(),
    }
}

fn plain_snip20_hop(contract: Option<SecretContract>) -> Hop {
    Hop {
        from_token: Token::Snip20(sscrt()),
        smart_contract: contract,
        redeem_denom: None,
        migrate_to_token: None,
        shade_protocol_router_path: None,
    }
}

fn native_first_hop() -> Hop {
    Hop {
        from_token: Token::Native(sscrt()),
        smart_contract: Some(pair()),
        redeem_denom: Some("uatom".to_string()),
        migrate_to_token: None,
        shade_protocol_router_path: None,
    }
}

fn two_hop_route(to: &str) -> Route {
    let mut hops: VecDeque<Hop> = VecDeque::new();
    hops.push_back(native_first_hop());
    hops.push_back(plain_snip20_hop(Some(pair())));
    Route {
        hops,
        estimated_amount: 10_000_000,
        minimum_acceptable_amount: 1_000_000,
        to: to.to_string(),
    }
}

// === WIRE FRAMING AGAINST THE SDK'S OWN SERIALIZER ===

#[test]
fn test_json_string_escaping_matches_sdk() {
    let samples = [
        "hello",
        "",
        "with \"quotes\" and \\backslashes\\",
        "controls \u{01} \u{08} \u{09} \u{0a} \u{0c} \u{0d} \u{1f} end",
        "unicode \u{e4}hm \u{2713} \u{1f600}",
        "cosmos2contract",
    ];
    for s in samples {
        let mut ours: Vec<u8> = Vec::new();
        push_json_string(&mut ours, s);
        let sdk = to_binary(s).unwrap().0;
        assert_eq!(ours, sdk, "escaping of {:?}", s);
    }
}

#[test]
fn test_decimal_rendering_matches_sdk() {
    let samples: [u128; 6] = [0, 7, 10, 555, 10_000_000, u128::MAX];
    for n in samples {
        let mut ours: Vec<u8> = vec![0x22];
        push_dec(&mut ours, n);
        ours.push(0x22);
        let sdk = to_binary(&Uint128(n)).unwrap().0;
        assert_eq!(ours, sdk, "rendering of {}", n);
    }
}

#[test]
fn test_space_pad_matches_toolkit() {
    for len in [0usize, 1, 28, 255, 256, 257] {
        let mut ours: Vec<u8> = std::iter::repeat(0xAB).take(len).collect();
        let mut toolkit: Vec<u8> = ours.clone();
        space_pad(&mut ours, 256);
        secret_toolkit::utils::space_pad(&mut toolkit, 256);
        assert_eq!(ours, toolkit, "padding of length {}", len);
    }
}

#[test]
fn test_self_call_payloads() {
    assert_eq!(build_finalize_route(), b"{\"finalize_route\":{}}".to_vec());
    assert_eq!(
        build_receive_continuation("router-addr", 41),
        b"{\"receive\":{\"from\":\"router-addr\",\"msg\":null,\"amount\":\"41\"}}".to_vec()
    );
}

#[test]
fn test_deposit_message_pads_payload() {
    let coin = Coin { denom: "uscrt".to_string(), amount: 9 };
    let msg = Snip20::Deposit { padding: None }.to_cosmos_msg(
        BLOCK_SIZE,
        "hash".to_string(),
        "token-addr".to_string(),
        Some(coin),
    );
    let mut payload = b"{\"deposit\":{\"padding\":null}}".to_vec();
    secret_toolkit::utils::space_pad(&mut payload, BLOCK_SIZE);
    assert_eq!(
        msg,
        HostMsg(CosmosMsg::Wasm(WasmMsg::Execute {
            contract_addr: HumanAddr("token-addr".to_string()),
            callback_code_hash: "hash".to_string(),
            msg: Binary(payload),
            send: vec![SdkCoin { denom: "uscrt".to_string(), amount: Uint128(9) }],
        }))
    );
    // A zero block size falls back to no padding at all.
    let msg = Snip20::Deposit { padding: None }.to_cosmos_msg(
        0,
        "hash".to_string(),
        "token-addr".to_string(),
        None,
    );
    assert_eq!(
        msg,
        HostMsg(CosmosMsg::Wasm(WasmMsg::Execute {
            contract_addr: HumanAddr("token-addr".to_string()),
            callback_code_hash: "hash".to_string(),
            msg: Binary(b"{\"deposit\":{\"padding\":null}}".to_vec()),
            send: vec![],
        }))
    );
}

// === ROUTE LIFE CYCLE ===

#[test]
fn test_route_lifecycle_runs_every_hop_then_finalizes() {
    let user = "gary";
    let env = init_env_and_first_deposit();
    let config = init(&router_env("btn.group", &[]), InitMsg {});
    let mut store: Option<RouteState> = None;

    // No route is in flight before the first hop.
    assert!(read_route_state(&store).is_none());

    // First hop: native deposit of 2_000_000 uatom.
    let response = handle_first_hop(
        &env,
        &mut store,
        user.to_string(),
        RoutePayload::Route(two_hop_route(user)),
        2_000_000,
    )
    .unwrap();
    // The finalization guard is the last message of the chain.
    assert_eq!(
        response.messages.last().unwrap(),
        &HostMsg(CosmosMsg::Wasm(WasmMsg::Execute {
            contract_addr: HumanAddr("cosmos2contract".to_string()),
            callback_code_hash: "".to_string(),
            msg: Binary(b"{\"finalize_route\":{}}".to_vec()),
            send: vec![],
        }))
    );
    let state = read_route_state(&store).unwrap();
    assert_eq!(state.current_hop, native_first_hop());
    assert_eq!(state.remaining_route.hops.len(), 1);

    // Finalizing while a hop is still pending fails and keeps the state.
    let self_env = router_env("cosmos2contract", &[]);
    let err = finalize_route(&self_env, &mut store).unwrap_err();
    assert!(matches!(err, RouterError::RouteIncomplete(_)));
    assert!(read_route_state(&store).is_some());

    // Second (last) hop: the wrapped token comes back from the router
    // itself, since the first hop redeemed through it.
    let hop_env = router_env(&sscrt().address, &[]);
    let response = handle_hop(
        &config,
        &hop_env,
        &mut store,
        "cosmos2contract".to_string(),
        5_000_000,
    )
    .unwrap();
    // Mid-band settlement: the whole amount goes to the user, no fee skim.
    assert_eq!(
        response.messages,
        vec![HostMsg(
            snip20::send_msg(
                HumanAddr(user.to_string()),
                Uint128(5_000_000),
                None,
                None,
                None,
                BLOCK_SIZE,
                sscrt().contract_hash,
                HumanAddr(sscrt().address),
            )
            .unwrap()
        )]
    );
    assert_eq!(read_route_state(&store).unwrap().remaining_route.hops.len(), 0);

    // Both hops advanced; now, and only now, finalization succeeds and
    // empties the slot.
    let response = finalize_route(&self_env, &mut store).unwrap();
    assert!(response.messages.is_empty());
    assert!(read_route_state(&store).is_none());
    assert_eq!(finalize_route(&self_env, &mut store).unwrap_err(), RouterError::NoRouteToFinalize);
}

fn init_env_and_first_deposit() -> Env {
    router_env("gary", &[(2_000_000, "uatom")])
}

#[test]
fn test_finalize_authorizes_before_state_lookup() {
    let outsider = router_env("gary", &[]);
    let mut store: Option<RouteState> = None;
    // Even with no route stored, an outside caller is rejected as such.
    assert_eq!(finalize_route(&outsider, &mut store).unwrap_err(), RouterError::Unauthorized);
    // Likewise with a fully drained route stored: the caller is checked
    // first, and the slot stays.
    store_route_state(
        &mut store,
        &RouteState {
            current_hop: native_first_hop(),
            remaining_route: Route {
                hops: VecDeque::new(),
                estimated_amount: 10,
                minimum_acceptable_amount: 1,
                to: "gary".to_string(),
            },
        },
    );
    assert_eq!(finalize_route(&outsider, &mut store).unwrap_err(), RouterError::Unauthorized);
    assert!(read_route_state(&store).is_some());
}

#[test]
fn test_first_hop_rejects_short_routes_for_any_token() {
    let env = router_env("gary", &[(1_000, "uatom")]);
    let mut store: Option<RouteState> = None;
    let cases: [VecDeque<Hop>; 3] = [
        VecDeque::new(),
        {
            let mut hops = VecDeque::new();
            hops.push_back(native_first_hop());
            hops
        },
        {
            let mut hops = VecDeque::new();
            hops.push_back(plain_snip20_hop(Some(pair())));
            hops
        },
    ];
    for hops in cases {
        let route = Route {
            hops,
            estimated_amount: 10,
            minimum_acceptable_amount: 1,
            to: "gary".to_string(),
        };
        let err = handle_first_hop(
            &env,
            &mut store,
            "gary".to_string(),
            RoutePayload::Route(route),
            1_000,
        )
        .unwrap_err();
        assert_eq!(err, RouterError::RouteTooShort);
        assert!(read_route_state(&store).is_none());
    }
}

#[test]
fn test_malformed_route_payload() {
    let env = router_env("gary", &[]);
    let mut store: Option<RouteState> = None;
    let err = handle_first_hop(&env, &mut store, "gary".to_string(), RoutePayload::Undecodable, 5)
        .unwrap_err();
    assert_eq!(err, RouterError::MalformedRoute);
    assert_eq!(err.message(), "route payload is malformed");
}

#[test]
fn test_first_hop_rejects_second_route_in_flight() {
    let env = init_env_and_first_deposit();
    let mut store: Option<RouteState> = None;
    handle_first_hop(
        &env,
        &mut store,
        "gary".to_string(),
        RoutePayload::Route(two_hop_route("gary")),
        2_000_000,
    )
    .unwrap();
    let mid_flight = read_route_state(&store).unwrap();

    let err = handle_first_hop(
        &env,
        &mut store,
        "gary".to_string(),
        RoutePayload::Route(two_hop_route("gary")),
        2_000_000,
    )
    .unwrap_err();
    assert_eq!(err, RouterError::RouteAlreadyActive);
    // The route in flight is untouched.
    assert_eq!(read_route_state(&store).unwrap(), mid_flight);
}

#[test]
fn test_hop_without_active_route() {
    let config = init(&router_env("btn.group", &[]), InitMsg {});
    let mut store: Option<RouteState> = None;
    let err = handle_hop(&config, &router_env("anyone", &[]), &mut store, "anyone".to_string(), 1)
        .unwrap_err();
    assert_eq!(err, RouterError::NoActiveRoute);
    assert_eq!(err.message(), "cannot find route");
}

// === SYNTHESIS ===

#[test]
fn test_redeem_branch_emits_exactly_redeem_and_self_receive() {
    let env = router_env("gary", &[]);
    let hop = Hop {
        from_token: Token::Snip20(sscrt()),
        smart_contract: None,
        redeem_denom: Some("udenom".to_string()),
        migrate_to_token: None,
        shade_protocol_router_path: None,
    };
    let messages = hop_router::contract::hop_messages(hop, 555, &env);
    assert_eq!(messages.len(), 2);
    assert_eq!(
        messages[0],
        HostMsg(
            snip20::redeem_msg(
                Uint128(555),
                Some("udenom".to_string()),
                None,
                BLOCK_SIZE,
                sscrt().contract_hash,
                HumanAddr(sscrt().address),
            )
            .unwrap()
        )
    );
    assert_eq!(
        messages[1],
        HostMsg(CosmosMsg::Wasm(WasmMsg::Execute {
            contract_addr: HumanAddr("cosmos2contract".to_string()),
            callback_code_hash: "".to_string(),
            msg: Binary(
                b"{\"receive\":{\"from\":\"cosmos2contract\",\"msg\":null,\"amount\":\"555\"}}"
                    .to_vec()
            ),
            send: vec![SdkCoin { denom: "udenom".to_string(), amount: Uint128(555) }],
        }))
    );
}

// === TOKEN VALIDATION ===

#[test]
fn test_native_amount_mismatch_is_rejected() {
    let amount: u128 = 700;
    // One coin attached, but one unit more than declared.
    let env = router_env("anyone", &[(amount + 1, "uatom")]);
    let err = validate_received_token(Token::Native(sscrt()), amount, &env).unwrap_err();
    assert_eq!(err, RouterError::WrongAssetOrAmount);
    // The exact amount passes.
    let env = router_env("anyone", &[(amount, "uatom")]);
    assert!(validate_received_token(Token::Native(sscrt()), amount, &env).is_ok());
    // Two coins attached fail even if one matches.
    let env = router_env("anyone", &[(amount, "uatom"), (1, "uscrt")]);
    let err = validate_received_token(Token::Native(sscrt()), amount, &env).unwrap_err();
    assert_eq!(err, RouterError::WrongAssetOrAmount);
    // A fungible transfer must be announced by the token contract itself.
    let env = router_env("not-the-token", &[]);
    let err = validate_received_token(Token::Snip20(sscrt()), amount, &env).unwrap_err();
    assert_eq!(err, RouterError::WrongAssetOrAmount);
}

#[test]
fn test_relay_from_unnamed_counterparty_is_rejected() {
    // A current hop that neither redeemed, nor migrated, nor names the
    // contract it swapped through vouches for nobody: no sender may deliver
    // fungible funds for the next hop.
    let env = router_env(&sscrt().address, &[]);
    for from in ["anyone", "cosmos2contract", ""] {
        let err = validate_received_from_an_allowed_address(
            plain_snip20_hop(None),
            plain_snip20_hop(Some(pair())),
            &env,
            from.to_string(),
        )
        .unwrap_err();
        assert_eq!(err, RouterError::UnauthorizedRelay);
    }
    // With the counterparty named, only that contract may deliver.
    assert!(validate_received_from_an_allowed_address(
        plain_snip20_hop(Some(pair())),
        plain_snip20_hop(Some(pair())),
        &env,
        pair().address,
    )
    .is_ok());
}

// === SETTLEMENT ===

fn last_hop_state(to: &str) -> RouteState {
    let mut hops: VecDeque<Hop> = VecDeque::new();
    hops.push_back(plain_snip20_hop(None));
    RouteState {
        current_hop: plain_snip20_hop(Some(pair())),
        remaining_route: Route {
            hops,
            estimated_amount: 10_000_000,
            minimum_acceptable_amount: 1_000_000,
            to: to.to_string(),
        },
    }
}

#[test]
fn test_settlement_below_minimum_fails() {
    let config = init(&router_env("btn.group", &[]), InitMsg {});
    let mut store: Option<RouteState> = None;
    store_route_state(&mut store, &last_hop_state("gary"));
    let env = router_env(&sscrt().address, &[]);
    let err =
        handle_hop(&config, &env, &mut store, pair().address, 500_000).unwrap_err();
    assert_eq!(err, RouterError::SlippageExceeded);
}

#[test]
fn test_settlement_above_estimate_skims_fee() {
    let config = init(&router_env("btn.group", &[]), InitMsg {});
    let mut store: Option<RouteState> = None;
    store_route_state(&mut store, &last_hop_state("gary"));
    let env = router_env(&sscrt().address, &[]);
    let response = handle_hop(&config, &env, &mut store, pair().address, 20_000_000).unwrap();
    // The recipient receives exactly the estimate; the excess above it,
    // also exactly the estimate here, goes to the fee sink.
    assert_eq!(
        response.messages,
        vec![
            HostMsg(
                snip20::transfer_msg(
                    HumanAddr("btn.group".to_string()),
                    Uint128(10_000_000),
                    None,
                    None,
                    BLOCK_SIZE,
                    sscrt().contract_hash,
                    HumanAddr(sscrt().address),
                )
                .unwrap()
            ),
            HostMsg(
                snip20::send_msg(
                    HumanAddr("gary".to_string()),
                    Uint128(10_000_000),
                    None,
                    None,
                    None,
                    BLOCK_SIZE,
                    sscrt().contract_hash,
                    HumanAddr(sscrt().address),
                )
                .unwrap()
            ),
        ]
    );
    assert_eq!(response.log[0].value, "10000000");
}

#[test]
fn test_settlement_within_band_pays_everything() {
    let config = init(&router_env("btn.group", &[]), InitMsg {});
    let mut store: Option<RouteState> = None;
    store_route_state(&mut store, &last_hop_state("gary"));
    let env = router_env(&sscrt().address, &[]);
    let response = handle_hop(&config, &env, &mut store, pair().address, 5_000_000).unwrap();
    // No fee message: the single message pays the full amount out.
    assert_eq!(
        response.messages,
        vec![HostMsg(
            snip20::send_msg(
                HumanAddr("gary".to_string()),
                Uint128(5_000_000),
                None,
                None,
                None,
                BLOCK_SIZE,
                sscrt().contract_hash,
                HumanAddr(sscrt().address),
            )
            .unwrap()
        )]
    );
    assert_eq!(response.log[0].value, "5000000");
}

// === STORAGE ===

#[test]
fn test_route_state_reread_is_identical() {
    let mut store: Option<RouteState> = None;
    store_route_state(&mut store, &last_hop_state("gary"));
    let first_read = read_route_state(&store);
    let second_read = read_route_state(&store);
    assert_eq!(first_read, second_read);
    assert_eq!(first_read.unwrap(), last_hop_state("gary"));
}

// === MISCELLANY ===

#[test]
fn test_init_sets_admin() {
    let config = init(&router_env("btn.group", &[]), InitMsg {});
    assert_eq!(config.admin, "btn.group");
}

#[test]
fn test_hop_ready() {
    assert!(hop_ready(&native_first_hop()));
    assert!(!hop_ready(&Hop {
        from_token: Token::Native(sscrt()),
        smart_contract: Some(pair()),
        redeem_denom: None,
        migrate_to_token: None,
        shade_protocol_router_path: None,
    }));
    assert!(hop_ready(&plain_snip20_hop(Some(pair()))));
    assert!(!hop_ready(&plain_snip20_hop(None)));
}
