//! The validators that authenticate inbound transfers: that the right asset
//! and amount arrived, that it came from the legitimate counterparty, and
//! that the route pays out to the party who funded it.

use vstd::prelude::*;

use crate::error::RouterError;
use crate::state::{Env, EnvV, Hop, HopV, Token, TokenV};

verus! {

/// Succeeds exactly when `received` is the expected address.
pub fn authorize(expected: String, received: String) -> (r: Result<(), RouterError>)
    ensures
        r is Ok <==> expected@ == received@,
        r matches Err(e) ==> e == RouterError::Unauthorized,
{
    if expected != received {
        return Err(RouterError::Unauthorized);
    }
    Ok(())
}

/// Whether the inbound transfer really delivers `amount` of `token`: a
/// fungible token's own contract must be the sender of the notification,
/// and for the native currency exactly one coin of that amount must be
/// attached to the call.
pub open spec fn received_token_ok(token: TokenV, amount: u128, env: EnvV) -> bool {
    match token {
        TokenV::Snip20(c) => env.message_sender == c.address,
        TokenV::Native(_) => env.sent_funds.len() == 1 && env.sent_funds[0].amount == amount,
    }
}

/// Validates the inbound transfer against the expected token and amount;
/// runs before any state mutation and has no side effect.
pub fn validate_received_token(token: Token, amount: u128, env: &Env) -> (r: Result<
    (),
    RouterError,
>)
    ensures
        r is Ok <==> received_token_ok(token@, amount, env@),
        r matches Err(e) ==> e == RouterError::WrongAssetOrAmount,
{
    let token_valid: bool = match &token {
        Token::Snip20(c) => env.message_sender == c.address,
        Token::Native(_) => env.sent_funds.len() == 1 && env.sent_funds[0].amount == amount,
    };

    if !token_valid {
        return Err(RouterError::WrongAssetOrAmount);
    }

    Ok(())
}

/// Who may deliver the funds for `next_hop`, given how `current_hop` moved
/// them: a hop that redeemed or migrated hands the funds to the router
/// itself (the redeem branch re-enters through the router's own self-call,
/// so the router, not the hop's counterparty, is the sender), otherwise
/// they come back from the contract the hop swapped through — a hop that
/// names no such contract vouches for nobody; native funds only ever move
/// through the router itself.
pub open spec fn allowed_relay_ok(
    current_hop: HopV,
    next_hop: HopV,
    env: EnvV,
    from: Seq<char>,
) -> bool {
    match next_hop.from_token {
        TokenV::Snip20(_) => {
            if current_hop.redeem_denom is Some || current_hop.migrate_to_token is Some {
                env.contract_address == from
            } else {
                match current_hop.smart_contract {
                    Some(c) => c.address == from,
                    None => false,
                }
            }
        },
        TokenV::Native(_) => env.message_sender == env.contract_address,
    }
}

/// Authorizes that the party claiming to deliver funds for `next_hop` is
/// the legitimate counterparty of `current_hop`.
pub fn validate_received_from_an_allowed_address(
    current_hop: Hop,
    next_hop: Hop,
    env: &Env,
    from: String,
) -> (r: Result<(), RouterError>)
    ensures
        r is Ok <==> allowed_relay_ok(current_hop@, next_hop@, env@, from@),
        r matches Err(e) ==> e == RouterError::UnauthorizedRelay,
{
    let ok: bool = match &next_hop.from_token {
        Token::Snip20(_) => {
            if current_hop.redeem_denom.is_some() || current_hop.migrate_to_token.is_some() {
                env.contract_address == from
            } else {
                match &current_hop.smart_contract {
                    Some(c) => c.address == from,
                    None => false,
                }
            }
        },
        Token::Native(_) => env.message_sender == env.contract_address,
    };

    if !ok {
        return Err(RouterError::UnauthorizedRelay);
    }

    Ok(())
}

/// Whether the route pays out to the party who funded it: a fungible first
/// hop must declare the depositor itself as recipient, a native first hop
/// must be funded by the recipient directly.
pub open spec fn user_is_receiver_ok(
    token: TokenV,
    from: Seq<char>,
    to: Seq<char>,
    sender: Seq<char>,
) -> bool {
    match token {
        TokenV::Snip20(_) => from == to,
        TokenV::Native(_) => sender == to,
    }
}

/// Validates that the depositor of the first hop is the route's recipient.
pub fn validate_user_is_the_receiver(
    token: Token,
    from: String,
    to: String,
    sender: String,
) -> (r: Result<(), RouterError>)
    ensures
        r is Ok <==> user_is_receiver_ok(token@, from@, to@, sender@),
        r matches Err(e) ==> e == RouterError::Unauthorized,
{
    match token {
        Token::Snip20(_) => authorize(from, to),
        Token::Native(_) => authorize(sender, to),
    }
}

} // verus!
