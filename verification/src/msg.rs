//! The router's own message types: what callers send it, what it answers,
//! and the wire payloads it embeds in the messages it synthesizes.

use vstd::prelude::*;

use crate::cosmos::{wasm_execute, wasm_execute_of, HostMsg};
use crate::state::{Coin, CoinV, Route, RouteV, SecretContract, SecretContractForShadeProtocol,
    SecretContractForShadeProtocolV};
use crate::wire::{dec_bytes, json_string_bytes, push_dec, push_json_string, push_lit, space_pad,
    space_padded};
use vstd::utf8::encode_utf8;

verus! {

/// The instantiate message: the router takes no parameters at creation.
#[derive(Debug, PartialEq)]
pub struct InitMsg {}

/// What the opaque payload attached to a deposit notification parsed to: a
/// route descriptor, or bytes that did not decode to one.
#[derive(Debug, PartialEq)]
pub enum RoutePayload {
    Route(Route),
    Undecodable,
}

impl View for RoutePayload {
    type V = Option<RouteV>;

    open spec fn view(&self) -> Option<RouteV> {
        match self {
            RoutePayload::Route(r) => Some(r@),
            RoutePayload::Undecodable => None,
        }
    }
}

/// The executable requests the router dispatches on.
#[derive(Debug, PartialEq)]
pub enum HandleMsg {
    /// A token-deposit notification. A payload is attached exactly when this
    /// opens a new route; a continuation of the route in flight carries none.
    Receive { from: String, msg: Option<RoutePayload>, amount: u128 },
    /// The self-addressed guard executed last: it verifies that the route
    /// fully drained.
    FinalizeRoute {},
    /// Bootstraps the given token contracts so that they notify the router
    /// of transfers.
    RegisterTokens { tokens: Vec<SecretContract> },
    /// Admin-only recovery of funds held by the router.
    RescueTokens { amount: u128, denom: Option<String>, token: Option<SecretContract> },
}

/// The queries the router answers.
#[derive(Debug, PartialEq)]
pub enum QueryMsg {
    Config {},
}

/// One log attribute of a handler's response.
#[derive(Debug, PartialEq)]
pub struct LogAttribute {
    pub key: String,
    pub value: String,
}

pub struct LogAttributeV {
    pub key: Seq<char>,
    pub value: Seq<char>,
}

impl View for LogAttribute {
    type V = LogAttributeV;

    open spec fn view(&self) -> LogAttributeV {
        LogAttributeV { key: self.key@, value: self.value@ }
    }
}

impl DeepView for LogAttribute {
    type V = LogAttributeV;

    open spec fn deep_view(&self) -> LogAttributeV {
        self.view()
    }
}

/// What a handler returns to the host: the messages to execute next, in
/// order, and the log attributes to record.
#[derive(Debug, PartialEq)]
pub struct HandleResponse {
    pub messages: Vec<HostMsg>,
    pub log: Vec<LogAttribute>,
}

pub struct HandleResponseV {
    pub messages: Seq<HostMsg>,
    pub log: Seq<LogAttributeV>,
}

impl View for HandleResponse {
    type V = HandleResponseV;

    open spec fn view(&self) -> HandleResponseV {
        HandleResponseV { messages: self.messages@, log: self.log.deep_view() }
    }
}

impl Default for HandleResponse {
    /// A response with no messages and no log.
    fn default() -> (r: Self)
        ensures
            r@.messages == Seq::<HostMsg>::empty(),
            r@.log == Seq::<LogAttributeV>::empty(),
    {
        HandleResponse { messages: Vec::new(), log: Vec::new() }
    }
}

// ---------------------------------------------------------------------------
// Wire payloads
//
// These are the JSON bodies embedded in the messages the router synthesizes,
// exactly as the host SDK's canonical serializer writes them.
// ---------------------------------------------------------------------------

/// An optional amount on the wire: a quoted decimal, or `null`.
pub open spec fn json_opt_amount(a: Option<u128>) -> Seq<u8> {
    match a {
        Some(x) => seq![0x22u8] + dec_bytes(x as nat) + seq![0x22u8],
        None => encode_utf8("null"@),
    }
}

/// An optional string on the wire: a JSON string literal, or `null`.
pub open spec fn json_opt_string(s: Option<Seq<char>>) -> Seq<u8> {
    match s {
        Some(x) => json_string_bytes(x),
        None => encode_utf8("null"@),
    }
}

/// The coins attached to a message, at most one.
pub open spec fn coins_of(c: Option<CoinV>) -> Seq<CoinV> {
    match c {
        Some(cv) => seq![cv],
        None => Seq::empty(),
    }
}

/// The deposit request understood by a wrapping token contract.
#[derive(Debug, PartialEq)]
pub enum Snip20 {
    Deposit { padding: Option<String> },
}

pub enum Snip20V {
    Deposit { padding: Option<Seq<char>> },
}

impl View for Snip20 {
    type V = Snip20V;

    open spec fn view(&self) -> Snip20V {
        match self {
            Snip20::Deposit { padding } => Snip20V::Deposit { padding: padding.deep_view() },
        }
    }
}

/// The wire form of a [`Snip20`] message.
pub open spec fn snip20_payload(m: Snip20V) -> Seq<u8> {
    match m {
        Snip20V::Deposit { padding } => encode_utf8("{\"deposit\":{\"padding\":"@)
            + json_opt_string(padding) + encode_utf8("}}"@),
    }
}

impl Snip20 {
    /// The wire form of this message.
    pub fn to_payload(&self) -> (r: Vec<u8>)
        ensures
            r@ == snip20_payload(self@),
    {
        let mut out: Vec<u8> = Vec::new();
        push_lit(&mut out, "{\"deposit\":{\"padding\":");
        match self {
            Snip20::Deposit { padding } => {
                match padding {
                    Some(p) => push_json_string(&mut out, p.as_str()),
                    None => push_lit(&mut out, "null"),
                }
            },
        }
        push_lit(&mut out, "}}");
        assert(out@ =~= snip20_payload(self@));
        out
    }

    /// The execute message carrying this request to `contract_addr`, its
    /// payload padded to `block_size` (or to 1 if that is 0), with `coin`
    /// attached if given.
    pub fn to_cosmos_msg(
        &self,
        block_size: usize,
        callback_code_hash: String,
        contract_addr: String,
        coin: Option<Coin>,
    ) -> (m: HostMsg)
        ensures
            m == wasm_execute_of(
                contract_addr@,
                callback_code_hash@,
                space_padded(
                    snip20_payload(self@),
                    if block_size == 0 { 1nat } else { block_size as nat },
                ),
                coins_of(coin.deep_view()),
            ),
    {
        let bs: usize = if block_size == 0 { 1 } else { block_size };
        let mut payload = self.to_payload();
        space_pad(&mut payload, bs);
        let mut send: Vec<Coin> = Vec::new();
        match coin {
            Some(c) => { send.push(c); },
            None => {},
        }
        assert(send.deep_view() =~= coins_of(coin.deep_view()));
        wasm_execute(&contract_addr, &callback_code_hash, payload, send)
    }
}

/// The swap request understood by a pair contract: trade the attached funds
/// and pay the proceeds to `to`.
#[derive(Debug, PartialEq)]
pub enum Snip20Swap {
    Swap { expected_return: Option<u128>, to: Option<String> },
}

pub enum Snip20SwapV {
    Swap { expected_return: Option<u128>, to: Option<Seq<char>> },
}

impl View for Snip20Swap {
    type V = Snip20SwapV;

    open spec fn view(&self) -> Snip20SwapV {
        match self {
            Snip20Swap::Swap { expected_return, to } => Snip20SwapV::Swap {
                expected_return: *expected_return,
                to: to.deep_view(),
            },
        }
    }
}

/// The wire form of a [`Snip20Swap`] message.
pub open spec fn snip20_swap_payload(m: Snip20SwapV) -> Seq<u8> {
    match m {
        Snip20SwapV::Swap { expected_return, to } => encode_utf8(
            "{\"swap\":{\"expected_return\":"@,
        ) + json_opt_amount(expected_return) + encode_utf8(",\"to\":"@) + json_opt_string(to)
            + encode_utf8("}}"@),
    }
}

impl Snip20Swap {
    /// The wire form of this message.
    pub fn to_payload(&self) -> (r: Vec<u8>)
        ensures
            r@ == snip20_swap_payload(self@),
    {
        let mut out: Vec<u8> = Vec::new();
        push_lit(&mut out, "{\"swap\":{\"expected_return\":");
        match self {
            Snip20Swap::Swap { expected_return, to } => {
                match expected_return {
                    Some(x) => {
                        out.push(0x22);
                        push_dec(&mut out, *x);
                        out.push(0x22);
                    },
                    None => push_lit(&mut out, "null"),
                }
                push_lit(&mut out, ",\"to\":");
                match to {
                    Some(t) => push_json_string(&mut out, t.as_str()),
                    None => push_lit(&mut out, "null"),
                }
            },
        }
        push_lit(&mut out, "}}");
        assert(out@ =~= snip20_swap_payload(self@));
        out
    }
}

/// The multi-step swap request understood by a delegated router.
#[derive(Debug, PartialEq)]
pub enum ShadeProtocol {
    SwapTokensForExact { path: Vec<SecretContractForShadeProtocol> },
}

pub enum ShadeProtocolV {
    SwapTokensForExact { path: Seq<SecretContractForShadeProtocolV> },
}

impl View for ShadeProtocol {
    type V = ShadeProtocolV;

    open spec fn view(&self) -> ShadeProtocolV {
        match self {
            ShadeProtocol::SwapTokensForExact { path } => ShadeProtocolV::SwapTokensForExact {
                path: path.deep_view(),
            },
        }
    }
}

/// One path entry on the wire.
pub open spec fn shade_path_entry(c: SecretContractForShadeProtocolV) -> Seq<u8> {
    encode_utf8("{\"addr\":"@) + json_string_bytes(c.addr) + encode_utf8(",\"code_hash\":"@)
        + json_string_bytes(c.code_hash) + encode_utf8("}"@)
}

/// A comma-separated path on the wire.
pub open spec fn shade_path_entries(path: Seq<SecretContractForShadeProtocolV>) -> Seq<u8>
    decreases path.len(),
{
    if path.len() == 0 {
        Seq::empty()
    } else if path.len() == 1 {
        shade_path_entry(path[0])
    } else {
        shade_path_entries(path.drop_last()) + encode_utf8(","@) + shade_path_entry(path.last())
    }
}

/// The wire form of a [`ShadeProtocol`] message.
pub open spec fn shade_protocol_payload(m: ShadeProtocolV) -> Seq<u8> {
    match m {
        ShadeProtocolV::SwapTokensForExact { path } => encode_utf8(
            "{\"swap_tokens_for_exact\":{\"path\":["@,
        ) + shade_path_entries(path) + encode_utf8("]}}"@),
    }
}

fn push_shade_path_entry(out: &mut Vec<u8>, c: &SecretContractForShadeProtocol)
    ensures
        final(out)@ == old(out)@ + shade_path_entry(c@),
{
    push_lit(out, "{\"addr\":");
    push_json_string(out, c.addr.as_str());
    push_lit(out, ",\"code_hash\":");
    push_json_string(out, c.code_hash.as_str());
    push_lit(out, "}");
    assert(final(out)@ =~= old(out)@ + shade_path_entry(c@));
}

impl ShadeProtocol {
    /// The wire form of this message.
    pub fn to_payload(&self) -> (r: Vec<u8>)
        ensures
            r@ == shade_protocol_payload(self@),
    {
        let mut out: Vec<u8> = Vec::new();
        push_lit(&mut out, "{\"swap_tokens_for_exact\":{\"path\":[");
        let ghost prefix = out@;
        match self {
            ShadeProtocol::SwapTokensForExact { path } => {
                let mut i: usize = 0;
                while i < path.len()
                    invariant
                        i <= path@.len(),
                        out@ == prefix + shade_path_entries(path.deep_view().take(i as int)),
                    decreases path@.len() - i,
                {
                    if i > 0 {
                        push_lit(&mut out, ",");
                    }
                    push_shade_path_entry(&mut out, &path[i]);
                    i = i + 1;
                    proof {
                        let pv = path.deep_view();
                        assert(pv.take(i as int).drop_last() =~= pv.take(i as int - 1));
                        assert(pv.take(i as int).last() == pv[i as int - 1]);
                        assert(out@ =~= prefix + shade_path_entries(pv.take(i as int)));
                    }
                }
                assert(path.deep_view().take(path@.len() as int) =~= path.deep_view());
            },
        }
        push_lit(&mut out, "]}}");
        assert(out@ =~= shade_protocol_payload(self@));
        out
    }
}

/// The wire form of the self-addressed continuation the redeem branch
/// issues: a deposit notification from the router to itself, carrying no
/// further payload.
pub open spec fn receive_continuation_payload(from: Seq<char>, amount: u128) -> Seq<u8> {
    encode_utf8("{\"receive\":{\"from\":"@) + json_string_bytes(from) + encode_utf8(
        ",\"msg\":null,\"amount\":\""@,
    ) + dec_bytes(amount as nat) + encode_utf8("\"}}"@)
}

/// Builds [`receive_continuation_payload`].
pub fn build_receive_continuation(from: &str, amount: u128) -> (r: Vec<u8>)
    ensures
        r@ == receive_continuation_payload(from@, amount),
{
    let mut out: Vec<u8> = Vec::new();
    push_lit(&mut out, "{\"receive\":{\"from\":");
    push_json_string(&mut out, from);
    push_lit(&mut out, ",\"msg\":null,\"amount\":\"");
    push_dec(&mut out, amount);
    push_lit(&mut out, "\"}}");
    assert(out@ =~= receive_continuation_payload(from@, amount));
    out
}

/// The wire form of the finalization guard's self-call.
pub open spec fn finalize_route_payload() -> Seq<u8> {
    encode_utf8("{\"finalize_route\":{}}"@)
}

/// Builds [`finalize_route_payload`].
pub fn build_finalize_route() -> (r: Vec<u8>)
    ensures
        r@ == finalize_route_payload(),
{
    let mut out: Vec<u8> = Vec::new();
    push_lit(&mut out, "{\"finalize_route\":{}}");
    assert(out@ =~= finalize_route_payload());
    out
}

} // verus!
