use vstd::prelude::*;

use std::collections::VecDeque;

verus! {

// ---------------------------------------------------------------------------
// Spec-level mirrors
//
// Every data type of the router has a mathematical mirror whose fields are
// sequences and plain integers; all contracts are stated over these views.
// ---------------------------------------------------------------------------

pub struct SecretContractV {
    pub address: Seq<char>,
    pub contract_hash: Seq<char>,
}

pub struct SecretContractForShadeProtocolV {
    pub addr: Seq<char>,
    pub code_hash: Seq<char>,
}

pub enum TokenV {
    Snip20(SecretContractV),
    Native(SecretContractV),
}

pub struct HopV {
    pub from_token: TokenV,
    pub smart_contract: Option<SecretContractV>,
    pub redeem_denom: Option<Seq<char>>,
    pub migrate_to_token: Option<SecretContractV>,
    pub shade_protocol_router_path: Option<Seq<SecretContractForShadeProtocolV>>,
}

pub struct RouteV {
    pub hops: Seq<HopV>,
    pub estimated_amount: u128,
    pub minimum_acceptable_amount: u128,
    pub to: Seq<char>,
}

pub struct RouteStateV {
    pub current_hop: HopV,
    pub remaining_route: RouteV,
}

pub struct ConfigV {
    pub admin: Seq<char>,
}

pub struct CoinV {
    pub denom: Seq<char>,
    pub amount: u128,
}

pub struct EnvV {
    pub message_sender: Seq<char>,
    pub sent_funds: Seq<CoinV>,
    pub contract_address: Seq<char>,
    pub contract_code_hash: Seq<char>,
}

// ---------------------------------------------------------------------------
// Executable data types
// ---------------------------------------------------------------------------

/// A reference to an external contract: its address together with the
/// integrity hash of its code.
#[derive(Debug, PartialEq, Eq)]
pub struct SecretContract {
    pub address: String,
    pub contract_hash: String,
}

/// A contract reference in the form a delegated router path expects.
#[derive(Debug, PartialEq, Eq)]
pub struct SecretContractForShadeProtocol {
    pub addr: String,
    pub code_hash: String,
}

/// The asset a hop starts from: either a fungible token held by an external
/// contract, or the chain's native settlement currency (the contract
/// reference then names the token used to wrap it).
#[derive(Debug, PartialEq)]
pub enum Token {
    Snip20(SecretContract),
    Native(SecretContract),
}

/// One leg of a route. At most one of `redeem_denom`, `migrate_to_token` and
/// `shade_protocol_router_path` is meaningfully set; their presence selects
/// how outbound messages for the hop are synthesized.
#[derive(Debug, PartialEq)]
pub struct Hop {
    pub from_token: Token,
    pub smart_contract: Option<SecretContract>,
    pub redeem_denom: Option<String>,
    pub migrate_to_token: Option<SecretContract>,
    pub shade_protocol_router_path: Option<Vec<SecretContractForShadeProtocol>>,
}

/// The full plan of a swap: the ordered hops, the recipient of the final
/// amount, and the acceptable bounds on that amount.
#[derive(Debug, PartialEq)]
pub struct Route {
    pub hops: VecDeque<Hop>,
    pub estimated_amount: u128,
    pub minimum_acceptable_amount: u128,
    pub to: String,
}

/// The persisted progress of the route currently in flight: the hop being
/// executed and everything that remains after it.
#[derive(Debug, PartialEq)]
pub struct RouteState {
    pub current_hop: Hop,
    pub remaining_route: Route,
}

/// Static configuration established at instantiation.
#[derive(Debug, PartialEq)]
pub struct Config {
    pub admin: String,
}

/// An amount of the native currency of a given denomination.
#[derive(Debug, PartialEq)]
pub struct Coin {
    pub denom: String,
    pub amount: u128,
}

/// The call context a handler runs in: who sent the message, which native
/// coins were attached, and the router's own address and code hash.
#[derive(Debug, PartialEq)]
pub struct Env {
    pub message_sender: String,
    pub sent_funds: Vec<Coin>,
    pub contract_address: String,
    pub contract_code_hash: String,
}

// ---------------------------------------------------------------------------
// Views
// ---------------------------------------------------------------------------

impl View for SecretContract {
    type V = SecretContractV;

    open spec fn view(&self) -> SecretContractV {
        SecretContractV { address: self.address@, contract_hash: self.contract_hash@ }
    }
}

impl DeepView for SecretContract {
    type V = SecretContractV;

    open spec fn deep_view(&self) -> SecretContractV {
        self.view()
    }
}

impl View for SecretContractForShadeProtocol {
    type V = SecretContractForShadeProtocolV;

    open spec fn view(&self) -> SecretContractForShadeProtocolV {
        SecretContractForShadeProtocolV { addr: self.addr@, code_hash: self.code_hash@ }
    }
}

impl DeepView for SecretContractForShadeProtocol {
    type V = SecretContractForShadeProtocolV;

    open spec fn deep_view(&self) -> SecretContractForShadeProtocolV {
        self.view()
    }
}

impl View for Token {
    type V = TokenV;

    open spec fn view(&self) -> TokenV {
        match self {
            Token::Snip20(c) => TokenV::Snip20(c@),
            Token::Native(c) => TokenV::Native(c@),
        }
    }
}

impl DeepView for Token {
    type V = TokenV;

    open spec fn deep_view(&self) -> TokenV {
        self.view()
    }
}

impl View for Hop {
    type V = HopV;

    open spec fn view(&self) -> HopV {
        HopV {
            from_token: self.from_token@,
            smart_contract: self.smart_contract.deep_view(),
            redeem_denom: self.redeem_denom.deep_view(),
            migrate_to_token: self.migrate_to_token.deep_view(),
            shade_protocol_router_path: self.shade_protocol_router_path.deep_view(),
        }
    }
}

impl DeepView for Hop {
    type V = HopV;

    open spec fn deep_view(&self) -> HopV {
        self.view()
    }
}

impl View for Route {
    type V = RouteV;

    open spec fn view(&self) -> RouteV {
        RouteV {
            hops: self.hops.deep_view(),
            estimated_amount: self.estimated_amount,
            minimum_acceptable_amount: self.minimum_acceptable_amount,
            to: self.to@,
        }
    }
}

impl DeepView for Route {
    type V = RouteV;

    open spec fn deep_view(&self) -> RouteV {
        self.view()
    }
}

impl View for RouteState {
    type V = RouteStateV;

    open spec fn view(&self) -> RouteStateV {
        RouteStateV { current_hop: self.current_hop@, remaining_route: self.remaining_route@ }
    }
}

impl DeepView for RouteState {
    type V = RouteStateV;

    open spec fn deep_view(&self) -> RouteStateV {
        self.view()
    }
}

impl View for Config {
    type V = ConfigV;

    open spec fn view(&self) -> ConfigV {
        ConfigV { admin: self.admin@ }
    }
}

impl DeepView for Config {
    type V = ConfigV;

    open spec fn deep_view(&self) -> ConfigV {
        self.view()
    }
}

impl View for Coin {
    type V = CoinV;

    open spec fn view(&self) -> CoinV {
        CoinV { denom: self.denom@, amount: self.amount }
    }
}

impl DeepView for Coin {
    type V = CoinV;

    open spec fn deep_view(&self) -> CoinV {
        self.view()
    }
}

impl View for Env {
    type V = EnvV;

    open spec fn view(&self) -> EnvV {
        EnvV {
            message_sender: self.message_sender@,
            sent_funds: self.sent_funds.deep_view(),
            contract_address: self.contract_address@,
            contract_code_hash: self.contract_code_hash@,
        }
    }
}

impl DeepView for Env {
    type V = EnvV;

    open spec fn deep_view(&self) -> EnvV {
        self.view()
    }
}

/// The view of the route-state slot itself.
pub open spec fn slot_view(slot: Option<RouteState>) -> Option<RouteStateV> {
    match slot {
        Some(st) => Some(st@),
        None => None,
    }
}

// ---------------------------------------------------------------------------
// Clones
// ---------------------------------------------------------------------------

impl Clone for SecretContract {
    fn clone(&self) -> (r: Self)
        ensures
            r@ == self@,
    {
        SecretContract { address: self.address.clone(), contract_hash: self.contract_hash.clone() }
    }
}

impl Clone for SecretContractForShadeProtocol {
    fn clone(&self) -> (r: Self)
        ensures
            r@ == self@,
    {
        SecretContractForShadeProtocol { addr: self.addr.clone(), code_hash: self.code_hash.clone() }
    }
}

impl Clone for Token {
    fn clone(&self) -> (r: Self)
        ensures
            r@ == self@,
    {
        match self {
            Token::Snip20(c) => Token::Snip20(c.clone()),
            Token::Native(c) => Token::Native(c.clone()),
        }
    }
}

fn clone_shade_path(path: &Vec<SecretContractForShadeProtocol>) -> (r: Vec<
    SecretContractForShadeProtocol,
>)
    ensures
        r.deep_view() == path.deep_view(),
{
    let mut r: Vec<SecretContractForShadeProtocol> = Vec::new();
    let mut i: usize = 0;
    while i < path.len()
        invariant
            i <= path.len(),
            r.deep_view() =~= path.deep_view().take(i as int),
        decreases path.len() - i,
    {
        let c = path[i].clone();
        assert(c.deep_view() == path.deep_view()[i as int]);
        let ghost prev = r.deep_view();
        r.push(c);
        assert(r.deep_view() =~= prev.push(path.deep_view()[i as int]));
        i = i + 1;
        assert(r.deep_view() =~= path.deep_view().take(i as int));
    }
    assert(r.deep_view() =~= path.deep_view());
    r
}

impl Clone for Hop {
    fn clone(&self) -> (r: Self)
        ensures
            r@ == self@,
    {
        Hop {
            from_token: self.from_token.clone(),
            smart_contract: match &self.smart_contract {
                Some(c) => Some(c.clone()),
                None => None,
            },
            redeem_denom: match &self.redeem_denom {
                Some(d) => Some(d.clone()),
                None => None,
            },
            migrate_to_token: match &self.migrate_to_token {
                Some(c) => Some(c.clone()),
                None => None,
            },
            shade_protocol_router_path: match &self.shade_protocol_router_path {
                Some(p) => Some(clone_shade_path(p)),
                None => None,
            },
        }
    }
}

fn clone_hops(hops: &VecDeque<Hop>) -> (r: VecDeque<Hop>)
    ensures
        r.deep_view() == hops.deep_view(),
{
    let mut r: VecDeque<Hop> = VecDeque::new();
    let mut i: usize = 0;
    while i < hops.len()
        invariant
            i <= hops.len(),
            r.deep_view() =~= hops.deep_view().take(i as int),
        decreases hops.len() - i,
    {
        let c = hops[i].clone();
        assert(c.deep_view() == hops.deep_view()[i as int]);
        let ghost prev = r.deep_view();
        r.push_back(c);
        assert(r.deep_view() =~= prev.push(hops.deep_view()[i as int]));
        i = i + 1;
        assert(r.deep_view() =~= hops.deep_view().take(i as int));
    }
    assert(r.deep_view() =~= hops.deep_view());
    r
}

impl Clone for Route {
    fn clone(&self) -> (r: Self)
        ensures
            r@ == self@,
    {
        Route {
            hops: clone_hops(&self.hops),
            estimated_amount: self.estimated_amount,
            minimum_acceptable_amount: self.minimum_acceptable_amount,
            to: self.to.clone(),
        }
    }
}

impl Clone for RouteState {
    fn clone(&self) -> (r: Self)
        ensures
            r@ == self@,
    {
        RouteState {
            current_hop: self.current_hop.clone(),
            remaining_route: self.remaining_route.clone(),
        }
    }
}

impl Clone for Config {
    fn clone(&self) -> (r: Self)
        ensures
            r@ == self@,
    {
        Config { admin: self.admin.clone() }
    }
}

impl Clone for Coin {
    fn clone(&self) -> (r: Self)
        ensures
            r@ == self@,
    {
        Coin { denom: self.denom.clone(), amount: self.amount }
    }
}

// ---------------------------------------------------------------------------
// The route-state slot
//
// The host persists at most one route at a time in a single well-known slot;
// the handlers receive that slot as an injected handle. The slot holds a
// value exactly while a route is mid-execution.
// ---------------------------------------------------------------------------

/// Overwrites the slot with a copy of `data`.
pub fn store_route_state(store: &mut Option<RouteState>, data: &RouteState)
    ensures
        slot_view(*final(store)) == Some(data@),
{
    *store = Some(data.clone());
}

/// Returns a copy of the slot's contents without changing them: re-reading
/// an untouched slot always yields the same value.
pub fn read_route_state(store: &Option<RouteState>) -> (r: Option<RouteState>)
    ensures
        slot_view(r) == slot_view(*store),
{
    match store {
        Some(st) => Some(st.clone()),
        None => None,
    }
}

/// Empties the slot: no route is in flight afterwards.
pub fn delete_route_state(store: &mut Option<RouteState>)
    ensures
        slot_view(*final(store)) is None,
{
    *store = None;
}

} // verus!
