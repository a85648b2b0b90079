//! The boundary to the host SDK: the outbound message type and wrappers
//! around the message constructors of `secret_cosmwasm_std` and
//! `secret_toolkit`. Each constructed message is named by an uninterpreted
//! spec function of the construction's arguments, so that callers can state
//! exactly which messages they emit without restating the wire encoding the
//! SDK owns.
//!
//! The toolkit constructors return a `Result`, but their only error path is
//! JSON serialization, and the SDK's serializer has no failing case for
//! these messages' shapes (structs and enums of strings, integers, options
//! and base64 payloads; a zero block size is clamped before the modulo).
//! The wrappers therefore return the message outright.

use vstd::prelude::*;

use crate::state::{Coin, CoinV};
use secret_cosmwasm_std::{BankMsg, Binary, CosmosMsg, Empty, HumanAddr, Uint128, WasmMsg};

verus! {

/// One outbound message for the host to execute, exactly as the SDK built
/// it. The message value is opaque here; which message a wrapper returns is
/// stated through the `*_of` spec functions below.
///
/// (Verus refuses a declaration of `CosmosMsg` itself: the enum's generics
/// carry a bound on an outside trait.)
#[verifier::external_body]
#[derive(Debug, PartialEq)]
pub struct HostMsg(pub CosmosMsg<Empty>);

/// The view of an optional raw payload.
pub open spec fn opt_bytes(m: Option<Vec<u8>>) -> Option<Seq<u8>> {
    match m {
        Some(v) => Some(v@),
        None => None,
    }
}

/// The SNIP-20 `Send` execute message that `secret_toolkit::snip20::send_msg`
/// builds from these arguments (with no memo and block padding).
pub uninterp spec fn snip20_send_of(
    recipient: Seq<char>,
    amount: u128,
    msg: Option<Seq<u8>>,
    block_size: usize,
    callback_code_hash: Seq<char>,
    contract_addr: Seq<char>,
) -> HostMsg;

/// The SNIP-20 `Redeem` execute message built by
/// `secret_toolkit::snip20::redeem_msg` from these arguments.
pub uninterp spec fn snip20_redeem_of(
    amount: u128,
    denom: Option<Seq<char>>,
    block_size: usize,
    callback_code_hash: Seq<char>,
    contract_addr: Seq<char>,
) -> HostMsg;

/// The SNIP-20 `Transfer` execute message built by
/// `secret_toolkit::snip20::transfer_msg` from these arguments.
pub uninterp spec fn snip20_transfer_of(
    recipient: Seq<char>,
    amount: u128,
    block_size: usize,
    callback_code_hash: Seq<char>,
    contract_addr: Seq<char>,
) -> HostMsg;

/// The SNIP-20 `RegisterReceive` execute message built by
/// `secret_toolkit::snip20::register_receive_msg` from these arguments.
pub uninterp spec fn snip20_register_receive_of(
    code_hash: Seq<char>,
    block_size: usize,
    callback_code_hash: Seq<char>,
    contract_addr: Seq<char>,
) -> HostMsg;

/// The wasm execute message carrying the raw payload `msg` and the attached
/// coins `send` to `contract_addr`.
pub uninterp spec fn wasm_execute_of(
    contract_addr: Seq<char>,
    callback_code_hash: Seq<char>,
    msg: Seq<u8>,
    send: Seq<CoinV>,
) -> HostMsg;

/// The native bank transfer of the coins `amount` from `from_address` to
/// `to_address`.
pub uninterp spec fn bank_send_of(
    from_address: Seq<char>,
    to_address: Seq<char>,
    amount: Seq<CoinV>,
) -> HostMsg;

/// Relies on `secret_toolkit::snip20::send_msg`: it builds the SNIP-20
/// `Send` execute message (serialized and padded by the toolkit) as a
/// function of its arguments alone; memo and explicit padding stay unset.
/// The serializer has no failing case for this message's shape, so the
/// construction cannot fail.
#[verifier::external_body]
pub(crate) fn snip20_send(
    recipient: &String,
    amount: u128,
    msg: Option<Vec<u8>>,
    block_size: usize,
    callback_code_hash: &String,
    contract_addr: &String,
) -> (r: HostMsg)
    ensures
        r == snip20_send_of(
            recipient@,
            amount,
            opt_bytes(msg),
            block_size,
            callback_code_hash@,
            contract_addr@,
        ),
{
    HostMsg(
        secret_toolkit::snip20::send_msg(
            HumanAddr(recipient.clone()),
            Uint128(amount),
            msg.map(Binary),
            None,
            None,
            block_size,
            callback_code_hash.clone(),
            HumanAddr(contract_addr.clone()),
        )
        .unwrap(),
    )
}

/// Relies on `secret_toolkit::snip20::redeem_msg`: it builds the SNIP-20
/// `Redeem` execute message as a function of its arguments alone. The
/// serializer has no failing case for this message's shape, so the
/// construction cannot fail.
#[verifier::external_body]
pub(crate) fn snip20_redeem(
    amount: u128,
    denom: Option<String>,
    block_size: usize,
    callback_code_hash: &String,
    contract_addr: &String,
) -> (r: HostMsg)
    ensures
        r == snip20_redeem_of(
            amount,
            denom.deep_view(),
            block_size,
            callback_code_hash@,
            contract_addr@,
        ),
{
    HostMsg(
        secret_toolkit::snip20::redeem_msg(
            Uint128(amount),
            denom,
            None,
            block_size,
            callback_code_hash.clone(),
            HumanAddr(contract_addr.clone()),
        )
        .unwrap(),
    )
}

/// Relies on `secret_toolkit::snip20::transfer_msg`: it builds the SNIP-20
/// `Transfer` execute message as a function of its arguments alone. The
/// serializer has no failing case for this message's shape, so the
/// construction cannot fail.
#[verifier::external_body]
pub(crate) fn snip20_transfer(
    recipient: &String,
    amount: u128,
    block_size: usize,
    callback_code_hash: &String,
    contract_addr: &String,
) -> (r: HostMsg)
    ensures
        r == snip20_transfer_of(
            recipient@,
            amount,
            block_size,
            callback_code_hash@,
            contract_addr@,
        ),
{
    HostMsg(
        secret_toolkit::snip20::transfer_msg(
            HumanAddr(recipient.clone()),
            Uint128(amount),
            None,
            None,
            block_size,
            callback_code_hash.clone(),
            HumanAddr(contract_addr.clone()),
        )
        .unwrap(),
    )
}

/// Relies on `secret_toolkit::snip20::register_receive_msg`: it builds the
/// SNIP-20 `RegisterReceive` execute message as a function of its arguments
/// alone. The serializer has no failing case for this message's shape, so
/// the construction cannot fail.
#[verifier::external_body]
pub(crate) fn snip20_register_receive(
    code_hash: &String,
    block_size: usize,
    callback_code_hash: &String,
    contract_addr: &String,
) -> (r: HostMsg)
    ensures
        r == snip20_register_receive_of(
            code_hash@,
            block_size,
            callback_code_hash@,
            contract_addr@,
        ),
{
    HostMsg(
        secret_toolkit::snip20::register_receive_msg(
            code_hash.clone(),
            None,
            block_size,
            callback_code_hash.clone(),
            HumanAddr(contract_addr.clone()),
        )
        .unwrap(),
    )
}

/// Relies on the `CosmosMsg::Wasm(WasmMsg::Execute { .. })` constructors of
/// `secret_cosmwasm_std`: the message value is a function of its arguments
/// alone.
#[verifier::external_body]
pub(crate) fn wasm_execute(
    contract_addr: &String,
    callback_code_hash: &String,
    msg: Vec<u8>,
    send: Vec<Coin>,
) -> (r: HostMsg)
    ensures
        r == wasm_execute_of(contract_addr@, callback_code_hash@, msg@, send.deep_view()),
{
    HostMsg(CosmosMsg::Wasm(WasmMsg::Execute {
        contract_addr: HumanAddr(contract_addr.clone()),
        callback_code_hash: callback_code_hash.clone(),
        msg: Binary(msg),
        send: send
            .into_iter()
            .map(|c| secret_cosmwasm_std::Coin { denom: c.denom, amount: Uint128(c.amount) })
            .collect(),
    }))
}

/// Relies on the `CosmosMsg::Bank(BankMsg::Send { .. })` constructors of
/// `secret_cosmwasm_std`: the message value is a function of its arguments
/// alone.
#[verifier::external_body]
pub(crate) fn bank_send(
    from_address: &String,
    to_address: &String,
    amount: Vec<Coin>,
) -> (r: HostMsg)
    ensures
        r == bank_send_of(from_address@, to_address@, amount.deep_view()),
{
    HostMsg(CosmosMsg::Bank(BankMsg::Send {
        from_address: HumanAddr(from_address.clone()),
        to_address: HumanAddr(to_address.clone()),
        amount: amount
            .into_iter()
            .map(|c| secret_cosmwasm_std::Coin { denom: c.denom, amount: Uint128(c.amount) })
            .collect(),
    }))
}

} // verus!
