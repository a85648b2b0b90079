//! The route state machine: route ingestion, hop-by-hop continuation,
//! settlement against the route's slippage bounds, and the finalization
//! guard that makes the whole chain atomic.

use vstd::prelude::*;

use crate::authorize::{allowed_relay_ok, authorize, received_token_ok, user_is_receiver_ok,
    validate_received_from_an_allowed_address, validate_received_token,
    validate_user_is_the_receiver};
use crate::constants::BLOCK_SIZE;
use crate::cosmos::{bank_send, bank_send_of, snip20_redeem, snip20_redeem_of,
    snip20_register_receive, snip20_register_receive_of, snip20_send, snip20_send_of,
    snip20_transfer, snip20_transfer_of, wasm_execute, wasm_execute_of, HostMsg};
use crate::error::{RouterError, RouterErrorV};
use crate::msg::{build_finalize_route, build_receive_continuation, finalize_route_payload,
    receive_continuation_payload, snip20_payload, snip20_swap_payload, shade_protocol_payload,
    HandleMsg, HandleResponse, HandleResponseV, InitMsg, LogAttribute, LogAttributeV, QueryMsg,
    RoutePayload, ShadeProtocol, ShadeProtocolV, Snip20, Snip20V, Snip20Swap, Snip20SwapV};
use crate::rescue_tokens::rescue_tokens_post;
use crate::state::{delete_route_state, read_route_state, slot_view, store_route_state, Coin, CoinV,
    Config, ConfigV, Env, EnvV, Hop, HopV, Route, RouteV, RouteState, RouteStateV, SecretContract,
    SecretContractV, Token, TokenV};
use crate::wire::{dec_chars, space_padded, u128_to_string};

verus! {

// ===========================================================================
// Specification
// ===========================================================================

/// The views of the results a handler can return.
pub open spec fn result_view(r: Result<HandleResponse, RouterError>) -> Result<
    HandleResponseV,
    RouterErrorV,
> {
    match r {
        Ok(resp) => Ok(resp@),
        Err(e) => Err(e@),
    }
}

/// The hops whose outbound messages can be synthesized: each synthesis
/// branch must name the contract it sends through, and a native hop must
/// name the denomination it wraps. The host-facing layer rejects hops
/// outside this set before calling in, where the router would otherwise
/// abort.
pub open spec fn hop_wf(hop: HopV) -> bool {
    match hop.from_token {
        TokenV::Snip20(_) => {
            if hop.shade_protocol_router_path is Some {
                hop.smart_contract is Some
            } else if hop.migrate_to_token is Some {
                hop.smart_contract is Some
            } else if hop.redeem_denom is Some {
                true
            } else {
                hop.smart_contract is Some
            }
        },
        TokenV::Native(_) => hop.redeem_denom is Some,
    }
}

/// The outbound messages of one hop. Exactly one branch fires, in priority
/// order: router-path delegation, migration, redeem, plain swap for a
/// fungible hop; a native hop wraps and forwards.
pub open spec fn hop_messages_spec(hop: HopV, amount: u128, env: EnvV) -> Seq<HostMsg>
    recommends
        hop_wf(hop),
{
    match hop.from_token {
        TokenV::Snip20(c) => match hop.shade_protocol_router_path {
            Some(path) => seq![
                snip20_send_of(
                    hop.smart_contract->0.address,
                    amount,
                    Some(shade_protocol_payload(ShadeProtocolV::SwapTokensForExact { path })),
                    BLOCK_SIZE,
                    c.contract_hash,
                    c.address,
                ),
            ],
            None => match hop.migrate_to_token {
                Some(mig) => seq![
                    snip20_send_of(
                        hop.smart_contract->0.address,
                        amount,
                        None,
                        BLOCK_SIZE,
                        c.contract_hash,
                        c.address,
                    ),
                    snip20_send_of(
                        env.contract_address,
                        amount,
                        None,
                        BLOCK_SIZE,
                        mig.contract_hash,
                        mig.address,
                    ),
                ],
                None => match hop.redeem_denom {
                    Some(denom) => seq![
                        snip20_redeem_of(
                            amount,
                            Some(denom),
                            BLOCK_SIZE,
                            c.contract_hash,
                            c.address,
                        ),
                        wasm_execute_of(
                            env.contract_address,
                            env.contract_code_hash,
                            receive_continuation_payload(env.contract_address, amount),
                            seq![CoinV { denom, amount }],
                        ),
                    ],
                    None => seq![
                        snip20_send_of(
                            hop.smart_contract->0.address,
                            amount,
                            Some(
                                snip20_swap_payload(
                                    Snip20SwapV::Swap {
                                        expected_return: None,
                                        to: Some(env.contract_address),
                                    },
                                ),
                            ),
                            BLOCK_SIZE,
                            c.contract_hash,
                            c.address,
                        ),
                    ],
                },
            },
        },
        TokenV::Native(c) => seq![
            wasm_execute_of(
                c.address,
                c.contract_hash,
                space_padded(snip20_payload(Snip20V::Deposit { padding: None }), BLOCK_SIZE as nat),
                seq![CoinV { denom: hop.redeem_denom->0, amount }],
            ),
            snip20_send_of(env.contract_address, amount, None, BLOCK_SIZE, c.contract_hash, c.address),
        ],
    }
}

/// The messages of the first hop, with the finalization guard appended as
/// the last instruction of the whole chain.
pub open spec fn first_hop_messages(first: HopV, amount: u128, env: EnvV) -> Seq<HostMsg> {
    hop_messages_spec(first, amount, env).push(
        wasm_execute_of(
            env.contract_address,
            env.contract_code_hash,
            finalize_route_payload(),
            Seq::empty(),
        ),
    )
}

/// The slot's contents while the hop at position `k` of `route` executes:
/// that hop is current, everything after it remains.
pub open spec fn state_at(route: RouteV, k: int) -> RouteStateV
    recommends
        0 <= k < route.hops.len(),
{
    RouteStateV {
        current_hop: route.hops[k],
        remaining_route: RouteV {
            hops: route.hops.skip(k + 1),
            estimated_amount: route.estimated_amount,
            minimum_acceptable_amount: route.minimum_acceptable_amount,
            to: route.to,
        },
    }
}

/// The route state persisted by a successful first hop: the first hop is
/// being executed and everything after it remains.
pub open spec fn stored_after_first(route: RouteV) -> RouteStateV
    recommends
        route.hops.len() >= 1,
{
    state_at(route, 0)
}

/// What [`handle_first_hop`] needs of its inputs: the first hop must be
/// synthesizable whenever the call would reach synthesis.
pub open spec fn handle_first_hop_req(
    old_slot: Option<RouteStateV>,
    env: EnvV,
    from: Seq<char>,
    payload: Option<RouteV>,
    amount: u128,
) -> bool {
    match payload {
        Some(route) => (route.hops.len() >= 2 && received_token_ok(
            route.hops[0].from_token,
            amount,
            env,
        ) && user_is_receiver_ok(route.hops[0].from_token, from, route.to, env.message_sender)
            && old_slot is None) ==> hop_wf(route.hops[0]),
        None => true,
    }
}

/// Everything [`handle_first_hop`] does, for every input: which error comes
/// back on which input, what is persisted, and which messages are emitted.
pub open spec fn handle_first_hop_post(
    env: EnvV,
    old_slot: Option<RouteStateV>,
    new_slot: Option<RouteStateV>,
    from: Seq<char>,
    payload: Option<RouteV>,
    amount: u128,
    r: Result<HandleResponseV, RouterErrorV>,
) -> bool {
    match payload {
        None => {
            &&& r == Err::<HandleResponseV, RouterErrorV>(RouterErrorV::MalformedRoute)
            &&& new_slot == old_slot
        },
        Some(route) => {
            if route.hops.len() < 2 {
                &&& r == Err::<HandleResponseV, RouterErrorV>(RouterErrorV::RouteTooShort)
                &&& new_slot == old_slot
            } else {
                let first = route.hops[0];
                if !received_token_ok(first.from_token, amount, env) {
                    &&& r == Err::<HandleResponseV, RouterErrorV>(RouterErrorV::WrongAssetOrAmount)
                    &&& new_slot == old_slot
                } else if !user_is_receiver_ok(first.from_token, from, route.to, env.message_sender) {
                    &&& r == Err::<HandleResponseV, RouterErrorV>(RouterErrorV::Unauthorized)
                    &&& new_slot == old_slot
                } else if old_slot is Some {
                    &&& r == Err::<HandleResponseV, RouterErrorV>(RouterErrorV::RouteAlreadyActive)
                    &&& new_slot == old_slot
                } else {
                    &&& new_slot == Some(stored_after_first(route))
                    &&& (r matches Ok(resp) && resp.messages == first_hop_messages(
                        first,
                        amount,
                        env,
                    ) && resp.log == Seq::<LogAttributeV>::empty())
                }
            }
        },
    }
}

/// The persisted state after consuming the front of the remaining route.
pub open spec fn hop_advanced(st: RouteStateV) -> RouteStateV
    recommends
        st.remaining_route.hops.len() > 0,
{
    RouteStateV {
        current_hop: st.remaining_route.hops[0],
        remaining_route: RouteV {
            hops: st.remaining_route.hops.skip(1),
            estimated_amount: st.remaining_route.estimated_amount,
            minimum_acceptable_amount: st.remaining_route.minimum_acceptable_amount,
            to: st.remaining_route.to,
        },
    }
}

/// The amount finally paid to the recipient: capped at the estimate.
pub open spec fn settled_amount(amount: u128, estimated_amount: u128) -> u128 {
    if amount > estimated_amount {
        estimated_amount
    } else {
        amount
    }
}

/// The settlement messages of the last hop: positive slippage above the
/// estimate goes to the admin first, then the capped remainder to the
/// recipient. The admin is the router's one fee sink, whatever token
/// settles. A native payout is denominated in what the previous hop
/// redeemed into.
pub open spec fn settlement_messages(
    next_hop: HopV,
    current_hop: HopV,
    amount: u128,
    estimated_amount: u128,
    to: Seq<char>,
    admin: Seq<char>,
    env: EnvV,
) -> Seq<HostMsg>
    recommends
        next_hop.from_token is Native ==> current_hop.redeem_denom is Some,
{
    let paid = settled_amount(amount, estimated_amount);
    let fee = if amount > estimated_amount {
        match next_hop.from_token {
            TokenV::Snip20(c) => seq![
                snip20_transfer_of(
                    admin,
                    (amount - estimated_amount) as u128,
                    BLOCK_SIZE,
                    c.contract_hash,
                    c.address,
                ),
            ],
            TokenV::Native(_) => seq![
                bank_send_of(
                    env.contract_address,
                    admin,
                    seq![
                        CoinV {
                            denom: current_hop.redeem_denom->0,
                            amount: (amount - estimated_amount) as u128,
                        },
                    ],
                ),
            ],
        }
    } else {
        Seq::<HostMsg>::empty()
    };
    let pay = match next_hop.from_token {
        TokenV::Snip20(c) => seq![
            snip20_send_of(to, paid, None, BLOCK_SIZE, c.contract_hash, c.address),
        ],
        TokenV::Native(_) => seq![
            bank_send_of(
                env.contract_address,
                to,
                seq![CoinV { denom: current_hop.redeem_denom->0, amount: paid }],
            ),
        ],
    };
    fee + pay
}

/// What [`handle_hop`] needs of its inputs: whenever the call would reach
/// synthesis or settlement, the hop in question must be synthesizable, and a
/// native settlement must know its denomination.
pub open spec fn handle_hop_req(
    old_slot: Option<RouteStateV>,
    env: EnvV,
    from: Seq<char>,
    amount: u128,
) -> bool {
    match old_slot {
        Some(st) => {
            let hops = st.remaining_route.hops;
            hops.len() > 0 ==> {
                let next = hops[0];
                (received_token_ok(next.from_token, amount, env) && allowed_relay_ok(
                    st.current_hop,
                    next,
                    env,
                    from,
                )) ==> if hops.len() == 1 {
                    (amount >= st.remaining_route.minimum_acceptable_amount && next.from_token
                        is Native) ==> st.current_hop.redeem_denom is Some
                } else {
                    hop_wf(next)
                }
            }
        },
        None => true,
    }
}

/// Everything [`handle_hop`] does, for every input: which error comes back
/// on which input, how the slot advances, and which messages are emitted.
pub open spec fn handle_hop_post(
    config: ConfigV,
    env: EnvV,
    old_slot: Option<RouteStateV>,
    new_slot: Option<RouteStateV>,
    from: Seq<char>,
    amount: u128,
    r: Result<HandleResponseV, RouterErrorV>,
) -> bool {
    match old_slot {
        None => {
            &&& r == Err::<HandleResponseV, RouterErrorV>(RouterErrorV::NoActiveRoute)
            &&& new_slot == old_slot
        },
        Some(st) => {
            let hops = st.remaining_route.hops;
            if hops.len() == 0 {
                &&& r == Err::<HandleResponseV, RouterErrorV>(RouterErrorV::RouteExhausted)
                &&& new_slot == old_slot
            } else {
                let next = hops[0];
                if !received_token_ok(next.from_token, amount, env) {
                    &&& r == Err::<HandleResponseV, RouterErrorV>(RouterErrorV::WrongAssetOrAmount)
                    &&& new_slot == old_slot
                } else if !allowed_relay_ok(st.current_hop, next, env, from) {
                    &&& r == Err::<HandleResponseV, RouterErrorV>(RouterErrorV::UnauthorizedRelay)
                    &&& new_slot == old_slot
                } else if hops.len() == 1 {
                    if amount < st.remaining_route.minimum_acceptable_amount {
                        &&& r == Err::<HandleResponseV, RouterErrorV>(RouterErrorV::SlippageExceeded)
                        &&& new_slot == old_slot
                    } else {
                        &&& new_slot == Some(hop_advanced(st))
                        &&& (r matches Ok(resp) && resp.messages == settlement_messages(
                            next,
                            st.current_hop,
                            amount,
                            st.remaining_route.estimated_amount,
                            st.remaining_route.to,
                            config.admin,
                            env,
                        ) && resp.log == seq![
                            LogAttributeV {
                                key: "return_amount"@,
                                value: dec_chars(
                                    settled_amount(
                                        amount,
                                        st.remaining_route.estimated_amount,
                                    ) as nat,
                                ),
                            },
                        ])
                    }
                } else {
                    &&& new_slot == Some(hop_advanced(st))
                    &&& (r matches Ok(resp) && resp.messages == hop_messages_spec(
                        next,
                        amount,
                        env,
                    ) && resp.log == Seq::<LogAttributeV>::empty())
                }
            }
        },
    }
}

// ===========================================================================
// Synthesis
// ===========================================================================

/// Whether `hop`'s outbound messages can be synthesized; the host-facing
/// layer checks this before handing a hop in.
pub fn hop_ready(hop: &Hop) -> (b: bool)
    ensures
        b == hop_wf(hop@),
{
    match &hop.from_token {
        Token::Snip20(_) => {
            if hop.shade_protocol_router_path.is_some() {
                hop.smart_contract.is_some()
            } else if hop.migrate_to_token.is_some() {
                hop.smart_contract.is_some()
            } else if hop.redeem_denom.is_some() {
                true
            } else {
                hop.smart_contract.is_some()
            }
        },
        Token::Native(_) => hop.redeem_denom.is_some(),
    }
}

/// Synthesizes the outbound messages of one hop, as [`hop_messages_spec`]
/// lays them out. Performs no storage mutation and cannot fail: every
/// message construction is total for the shapes built here.
pub fn hop_messages(hop: Hop, amount: u128, env: &Env) -> (v: Vec<HostMsg>)
    requires
        hop_wf(hop@),
    ensures
        v@ == hop_messages_spec(hop@, amount, env@),
{
    let ghost hopv = hop@;
    let mut messages: Vec<HostMsg> = Vec::new();
    let Hop { from_token, smart_contract, redeem_denom, migrate_to_token, shade_protocol_router_path } =
        hop;
    match from_token {
        Token::Snip20(c) => {
            if shade_protocol_router_path.is_some() {
                let path = shade_protocol_router_path.unwrap();
                let payload = ShadeProtocol::SwapTokensForExact { path }.to_payload();
                let sc = smart_contract.unwrap();
                messages.push(
                    snip20_send(&sc.address, amount, Some(payload), BLOCK_SIZE, &c.contract_hash, &c.address),
                );
            } else if migrate_to_token.is_some() {
                let sc = smart_contract.unwrap();
                let mig = migrate_to_token.unwrap();
                messages.push(
                    snip20_send(&sc.address, amount, None, BLOCK_SIZE, &c.contract_hash, &c.address),
                );
                messages.push(
                    snip20_send(&env.contract_address, amount, None, BLOCK_SIZE, &mig.contract_hash, &mig.address),
                );
            } else if redeem_denom.is_some() {
                let denom = redeem_denom.unwrap();
                messages.push(
                    snip20_redeem(amount, Some(denom.clone()), BLOCK_SIZE, &c.contract_hash, &c.address),
                );
                let payload = build_receive_continuation(env.contract_address.as_str(), amount);
                let mut send: Vec<Coin> = Vec::new();
                send.push(Coin { denom, amount });
                assert(send.deep_view() =~= seq![CoinV { denom: hopv.redeem_denom->0, amount }]);
                messages.push(
                    wasm_execute(&env.contract_address, &env.contract_code_hash, payload, send),
                );
            } else {
                let sc = smart_contract.unwrap();
                let payload = Snip20Swap::Swap {
                    expected_return: None,
                    to: Some(env.contract_address.clone()),
                }.to_payload();
                messages.push(
                    snip20_send(&sc.address, amount, Some(payload), BLOCK_SIZE, &c.contract_hash, &c.address),
                );
            }
        },
        Token::Native(c) => {
            let denom = redeem_denom.unwrap();
            let dep = Snip20::Deposit { padding: None }.to_cosmos_msg(
                BLOCK_SIZE,
                c.contract_hash.clone(),
                c.address.clone(),
                Some(Coin { denom, amount }),
            );
            messages.push(dep);
            messages.push(
                snip20_send(&env.contract_address, amount, None, BLOCK_SIZE, &c.contract_hash, &c.address),
            );
        },
    }
    assert(messages@ =~= hop_messages_spec(hopv, amount, env@));
    messages
}

// ===========================================================================
// Route ingestion
// ===========================================================================

/// Opens a new route from the first deposit: checks the route's shape,
/// validates the inbound transfer and its depositor, persists the route
/// state ("a route is in flight"), and returns the first hop's messages
/// with the finalization guard appended last. At most one route may be in
/// flight per contract instance, so a first hop that finds the slot
/// occupied fails rather than overwrite the route being executed.
pub fn handle_first_hop(
    env: &Env,
    store: &mut Option<RouteState>,
    from: String,
    payload: RoutePayload,
    amount: u128,
) -> (r: Result<HandleResponse, RouterError>)
    requires
        handle_first_hop_req(slot_view(*old(store)), env@, from@, payload@, amount),
    ensures
        handle_first_hop_post(
            env@,
            slot_view(*old(store)),
            slot_view(*final(store)),
            from@,
            payload@,
            amount,
            result_view(r),
        ),
{
    let ghost payloadv = payload@;
    let route = match payload {
        RoutePayload::Route(route) => route,
        RoutePayload::Undecodable => {
            return Err(RouterError::MalformedRoute);
        },
    };
    let ghost routev = route@;
    let Route { mut hops, estimated_amount, minimum_acceptable_amount, to } = route;
    // The settlement of the last hop checks the minimum acceptable amount,
    // so a second hop must exist.
    if hops.len() < 2 {
        return Err(RouterError::RouteTooShort);
    }
    let first_hop = hops.pop_front().unwrap();
    assert(first_hop@ == routev.hops[0]);
    assert(hops.deep_view() =~= routev.hops.skip(1));
    match validate_received_token(first_hop.from_token.clone(), amount, env) {
        Ok(_) => {},
        Err(e) => {
            return Err(e);
        },
    }
    match validate_user_is_the_receiver(
        first_hop.from_token.clone(),
        from,
        to.clone(),
        env.message_sender.clone(),
    ) {
        Ok(_) => {},
        Err(e) => {
            return Err(e);
        },
    }
    if store.is_some() {
        return Err(RouterError::RouteAlreadyActive);
    }
    store_route_state(
        store,
        &RouteState {
            current_hop: first_hop.clone(),
            remaining_route: Route { hops, estimated_amount, minimum_acceptable_amount, to },
        },
    );
    assert(slot_view(*store) == Some(stored_after_first(routev)));
    let mut messages = hop_messages(first_hop, amount, env);
    let guard_send: Vec<Coin> = Vec::new();
    assert(guard_send.deep_view() =~= Seq::<CoinV>::empty());
    messages.push(
        wasm_execute(&env.contract_address, &env.contract_code_hash, build_finalize_route(), guard_send),
    );
    assert(messages@ =~= first_hop_messages(routev.hops[0], amount, env@));
    let log: Vec<LogAttribute> = Vec::new();
    assert(log.deep_view() =~= Seq::<LogAttributeV>::empty());
    Ok(HandleResponse { messages, log })
}

// ===========================================================================
// Route continuation
// ===========================================================================

/// Continues the route in flight from an inbound transfer: validates the
/// transfer and its relayer against the persisted state, then either
/// synthesizes the next hop's messages, or — on the last hop — settles
/// against the route's bounds; either way the consumed hop becomes the
/// current one in the slot.
pub fn handle_hop(
    config: &Config,
    env: &Env,
    store: &mut Option<RouteState>,
    from: String,
    amount: u128,
) -> (r: Result<HandleResponse, RouterError>)
    requires
        handle_hop_req(slot_view(*old(store)), env@, from@, amount),
    ensures
        handle_hop_post(
            config@,
            env@,
            slot_view(*old(store)),
            slot_view(*final(store)),
            from@,
            amount,
            result_view(r),
        ),
{
    let state = match read_route_state(store) {
        Some(st) => st,
        None => {
            return Err(RouterError::NoActiveRoute);
        },
    };
    let ghost stv = state@;
    let RouteState { current_hop, remaining_route } = state;
    let Route { mut hops, estimated_amount, minimum_acceptable_amount, to } = remaining_route;
    let next_hop = match hops.pop_front() {
        Some(h) => h,
        None => {
            return Err(RouterError::RouteExhausted);
        },
    };
    assert(next_hop@ == stv.remaining_route.hops[0]);
    assert(hops.deep_view() =~= stv.remaining_route.hops.skip(1));
    match validate_received_token(next_hop.from_token.clone(), amount, env) {
        Ok(_) => {},
        Err(e) => {
            return Err(e);
        },
    }
    match validate_received_from_an_allowed_address(
        current_hop.clone(),
        next_hop.clone(),
        env,
        from,
    ) {
        Ok(_) => {},
        Err(e) => {
            return Err(e);
        },
    }

    let mut messages: Vec<HostMsg> = Vec::new();
    let mut log: Vec<LogAttribute> = Vec::new();
    if hops.len() == 0 {
        // This was the last hop: settle against the route's bounds.
        if amount < minimum_acceptable_amount {
            return Err(RouterError::SlippageExceeded);
        }
        let paid: u128 = if amount > estimated_amount {
            estimated_amount
        } else {
            amount
        };
        match &next_hop.from_token {
            Token::Snip20(c) => {
                if amount > estimated_amount {
                    let excess = amount - estimated_amount;
                    messages.push(
                        snip20_transfer(&config.admin, excess, BLOCK_SIZE, &c.contract_hash, &c.address),
                    );
                }
                messages.push(snip20_send(&to, paid, None, BLOCK_SIZE, &c.contract_hash, &c.address));
            },
            Token::Native(_) => {
                let denom = current_hop.redeem_denom.unwrap();
                if amount > estimated_amount {
                    let excess = amount - estimated_amount;
                    let mut fee_coins: Vec<Coin> = Vec::new();
                    fee_coins.push(Coin { denom: denom.clone(), amount: excess });
                    assert(fee_coins.deep_view() =~= seq![CoinV { denom: denom@, amount: excess }]);
                    messages.push(bank_send(&env.contract_address, &config.admin, fee_coins));
                }
                let mut pay_coins: Vec<Coin> = Vec::new();
                pay_coins.push(Coin { denom, amount: paid });
                assert(pay_coins.deep_view() =~= seq![
                    CoinV { denom: stv.current_hop.redeem_denom->0, amount: paid },
                ]);
                messages.push(bank_send(&env.contract_address, &to, pay_coins));
            },
        }
        assert(messages@ =~= settlement_messages(
            stv.remaining_route.hops[0],
            stv.current_hop,
            amount,
            stv.remaining_route.estimated_amount,
            stv.remaining_route.to,
            config@.admin,
            env@,
        ));
        log.push(LogAttribute { key: "return_amount".to_owned(), value: u128_to_string(paid) });
        assert(log.deep_view() =~= seq![
            LogAttributeV {
                key: "return_amount"@,
                value: dec_chars(settled_amount(amount, stv.remaining_route.estimated_amount) as nat),
            },
        ]);
    } else {
        messages = hop_messages(next_hop.clone(), amount, env);
        assert(log.deep_view() =~= Seq::<LogAttributeV>::empty());
    }
    store_route_state(
        store,
        &RouteState {
            current_hop: next_hop,
            remaining_route: Route { hops, estimated_amount, minimum_acceptable_amount, to },
        },
    );
    assert(slot_view(*store) == Some(hop_advanced(stv)));
    Ok(HandleResponse { messages, log })
}

// ===========================================================================
// Finalization guard
// ===========================================================================

/// Everything [`finalize_route`] does: only the router itself may call it
/// (checked before anything else, so an outside caller learns nothing about
/// the slot), it fails while hops remain (leaving the slot untouched), and
/// it is the sole operation that empties the slot.
pub open spec fn finalize_route_post(
    env: EnvV,
    old_slot: Option<RouteStateV>,
    new_slot: Option<RouteStateV>,
    r: Result<HandleResponseV, RouterErrorV>,
) -> bool {
    if env.message_sender != env.contract_address {
        &&& r == Err::<HandleResponseV, RouterErrorV>(RouterErrorV::Unauthorized)
        &&& new_slot == old_slot
    } else {
        match old_slot {
            None => {
                &&& r == Err::<HandleResponseV, RouterErrorV>(RouterErrorV::NoRouteToFinalize)
                &&& new_slot == old_slot
            },
            Some(st) => {
                if st.remaining_route.hops.len() > 0 {
                    &&& r == Err::<HandleResponseV, RouterErrorV>(
                        RouterErrorV::RouteIncomplete(st.remaining_route),
                    )
                    &&& new_slot == old_slot
                } else {
                    &&& r matches Ok(resp) && resp.messages == Seq::<HostMsg>::empty() && resp.log
                        == Seq::<LogAttributeV>::empty()
                    &&& new_slot is None
                }
            },
        }
    }
}

/// The self-call executed last in the chain: verifies that the route fully
/// drained and releases the "route in flight" slot; any failure here aborts
/// the whole transaction, rolling every prior step back. The caller is
/// authorized before the slot is even looked at.
pub fn finalize_route(env: &Env, store: &mut Option<RouteState>) -> (r: Result<
    HandleResponse,
    RouterError,
>)
    ensures
        finalize_route_post(env@, slot_view(*old(store)), slot_view(*final(store)), result_view(r)),
{
    match authorize(env.contract_address.clone(), env.message_sender.clone()) {
        Ok(_) => {},
        Err(e) => {
            return Err(e);
        },
    }
    let state = match read_route_state(store) {
        Some(st) => st,
        None => {
            return Err(RouterError::NoRouteToFinalize);
        },
    };
    if state.remaining_route.hops.len() > 0 {
        return Err(RouterError::RouteIncomplete(state.remaining_route));
    }
    delete_route_state(store);
    Ok(HandleResponse::default())
}

// ===========================================================================
// Token registration
// ===========================================================================

/// Everything [`register_tokens`] does: it always succeeds, with one
/// registration message per given token, each carrying the router's own
/// code hash, in order.
pub open spec fn register_tokens_post(
    env: EnvV,
    tokens: Seq<SecretContractV>,
    r: Result<HandleResponseV, RouterErrorV>,
) -> bool {
    r matches Ok(resp) && {
        &&& resp.messages.len() == tokens.len()
        &&& forall|i: int|
            0 <= i < tokens.len() ==> #[trigger] resp.messages[i] == snip20_register_receive_of(
                env.contract_code_hash,
                BLOCK_SIZE,
                tokens[i].contract_hash,
                tokens[i].address,
            )
        &&& resp.log == Seq::<LogAttributeV>::empty()
    }
}

/// Emits one receive-registration message per token, so that those token
/// contracts notify the router of transfers.
pub fn register_tokens(env: &Env, tokens: Vec<SecretContract>) -> (r: Result<
    HandleResponse,
    RouterError,
>)
    ensures
        register_tokens_post(env@, tokens.deep_view(), result_view(r)),
{
    let mut messages: Vec<HostMsg> = Vec::new();
    let mut i: usize = 0;
    while i < tokens.len()
        invariant
            i <= tokens@.len(),
            messages@.len() == i,
            forall|j: int|
                0 <= j < i ==> #[trigger] messages@[j] == snip20_register_receive_of(
                    env@.contract_code_hash,
                    BLOCK_SIZE,
                    tokens.deep_view()[j].contract_hash,
                    tokens.deep_view()[j].address,
                ),
        decreases tokens@.len() - i,
    {
        let t = &tokens[i];
        messages.push(
            snip20_register_receive(&env.contract_code_hash, BLOCK_SIZE, &t.contract_hash, &t.address),
        );
        i = i + 1;
    }
    let log: Vec<LogAttribute> = Vec::new();
    assert(log.deep_view() =~= Seq::<LogAttributeV>::empty());
    Ok(HandleResponse { messages, log })
}

// ===========================================================================
// Instantiation and queries
// ===========================================================================

/// Establishes the configuration: the instantiator becomes the admin.
pub fn init(env: &Env, msg: InitMsg) -> (config: Config)
    ensures
        config@.admin == env@.message_sender,
{
    let InitMsg {  } = msg;
    Config { admin: env.message_sender.clone() }
}

/// Answers a query; the only query returns the stored configuration.
pub fn query(config: &Config, msg: QueryMsg) -> (r: Config)
    ensures
        r@ == config@,
{
    match msg {
        QueryMsg::Config {  } => config.clone(),
    }
}

// ===========================================================================
// Dispatch
// ===========================================================================

/// What [`handle`] needs of its inputs: the preconditions of the two
/// receive paths; the other requests need nothing.
pub open spec fn handle_req(env: EnvV, old_slot: Option<RouteStateV>, msg: HandleMsg) -> bool {
    match msg {
        HandleMsg::Receive { from, msg: Some(p), amount } => handle_first_hop_req(
            old_slot,
            env,
            from@,
            p@,
            amount,
        ),
        HandleMsg::Receive { from, msg: None, amount } => handle_hop_req(
            old_slot,
            env,
            from@,
            amount,
        ),
        _ => true,
    }
}

/// Dispatches one executable request: a deposit notification with a payload
/// opens a route, one without continues the route in flight, and the
/// remaining requests finalize, register and rescue.
pub fn handle(
    config: &Config,
    env: &Env,
    store: &mut Option<RouteState>,
    msg: HandleMsg,
) -> (r: Result<HandleResponse, RouterError>)
    requires
        handle_req(env@, slot_view(*old(store)), msg),
    ensures
        ({
            let old_slot = slot_view(*old(store));
            let new_slot = slot_view(*final(store));
            let rv = result_view(r);
            match msg {
                HandleMsg::Receive { from, msg: Some(p), amount } => handle_first_hop_post(
                    env@,
                    old_slot,
                    new_slot,
                    from@,
                    p@,
                    amount,
                    rv,
                ),
                HandleMsg::Receive { from, msg: None, amount } => handle_hop_post(
                    config@,
                    env@,
                    old_slot,
                    new_slot,
                    from@,
                    amount,
                    rv,
                ),
                HandleMsg::FinalizeRoute {  } => finalize_route_post(env@, old_slot, new_slot, rv),
                HandleMsg::RegisterTokens { tokens } => register_tokens_post(
                    env@,
                    tokens.deep_view(),
                    rv,
                ) && new_slot == old_slot,
                HandleMsg::RescueTokens { amount, denom, token } => rescue_tokens_post(
                    config@,
                    env@,
                    amount,
                    denom.deep_view(),
                    token.deep_view(),
                    rv,
                ) && new_slot == old_slot,
            }
        }),
{
    match msg {
        HandleMsg::Receive { from, msg: Some(p), amount } => handle_first_hop(
            env,
            store,
            from,
            p,
            amount,
        ),
        HandleMsg::Receive { from, msg: None, amount } => handle_hop(config, env, store, from, amount),
        HandleMsg::FinalizeRoute {  } => finalize_route(env, store),
        HandleMsg::RegisterTokens { tokens } => register_tokens(env, tokens),
        HandleMsg::RescueTokens { amount, denom, token } => crate::rescue_tokens::rescue_tokens(
            config,
            env,
            amount,
            denom,
            token,
        ),
    }
}

// ===========================================================================
// Laws of the route's life cycle
// ===========================================================================

/// A route of N hops advances through exactly N slot positions: ingestion
/// persists position 0 (the first of the N hop advances), and a successful
/// continuation from position k persists position k+1 with one hop fewer
/// remaining, so the remainder drains only after all N advances.
pub proof fn lemma_route_advances(route: RouteV, k: int)
    requires
        2 <= route.hops.len(),
        0 <= k < route.hops.len() - 1,
    ensures
        state_at(route, k).remaining_route.hops.len() == route.hops.len() - 1 - k,
        hop_advanced(state_at(route, k)) == state_at(route, k + 1),
{
    assert(route.hops.skip(k + 1).skip(1) =~= route.hops.skip(k + 2));
    assert(route.hops.skip(k + 1)[0] == route.hops[k + 1]);
}

/// The finalization guard succeeds exactly once the route fully drained:
/// called by the router itself with the slot at position k of a route of N
/// hops, it succeeds iff k == N-1 — that is, iff all N hop advances have
/// happened — and only then empties the slot; otherwise it fails with the
/// still-pending remainder and leaves the slot untouched.
pub proof fn lemma_finalize_exactly_when_drained(
    route: RouteV,
    env: EnvV,
    k: int,
    new_slot: Option<RouteStateV>,
    r: Result<HandleResponseV, RouterErrorV>,
)
    requires
        2 <= route.hops.len(),
        0 <= k < route.hops.len(),
        env.message_sender == env.contract_address,
        finalize_route_post(env, Some(state_at(route, k)), new_slot, r),
    ensures
        r is Ok <==> k == route.hops.len() - 1,
        r is Ok ==> new_slot is None,
        r is Err ==> new_slot == Some(state_at(route, k)) && r == Err::<
            HandleResponseV,
            RouterErrorV,
        >(RouterErrorV::RouteIncomplete(state_at(route, k).remaining_route)),
{
    assert(route.hops.skip(k + 1).len() == route.hops.len() - k - 1);
}

} // verus!
