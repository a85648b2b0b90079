//! Admin-only recovery of funds held by the router.

use vstd::prelude::*;

use crate::authorize::authorize;
use crate::constants::BLOCK_SIZE;
use crate::contract::result_view;
use crate::cosmos::{bank_send, bank_send_of, snip20_transfer, snip20_transfer_of, HostMsg};
use crate::error::{RouterError, RouterErrorV};
use crate::msg::{HandleResponse, HandleResponseV, LogAttribute, LogAttributeV};
use crate::state::{Coin, CoinV, Config, ConfigV, Env, EnvV, SecretContract, SecretContractV};

verus! {

/// The recovery messages: the given amount of the named native coin, and of
/// the named token, each sent to the admin.
pub open spec fn rescue_messages(
    config: ConfigV,
    env: EnvV,
    amount: u128,
    denom: Option<Seq<char>>,
    token: Option<SecretContractV>,
) -> Seq<HostMsg> {
    (match denom {
        Some(d) => seq![
            bank_send_of(env.contract_address, config.admin, seq![CoinV { denom: d, amount }]),
        ],
        None => Seq::<HostMsg>::empty(),
    }) + (match token {
        Some(t) => seq![
            snip20_transfer_of(config.admin, amount, BLOCK_SIZE, t.contract_hash, t.address),
        ],
        None => Seq::<HostMsg>::empty(),
    })
}

/// Everything [`rescue_tokens`] does: only the admin may call it, and for
/// the admin it succeeds with exactly the recovery messages.
pub open spec fn rescue_tokens_post(
    config: ConfigV,
    env: EnvV,
    amount: u128,
    denom: Option<Seq<char>>,
    token: Option<SecretContractV>,
    r: Result<HandleResponseV, RouterErrorV>,
) -> bool {
    if env.message_sender != config.admin {
        r == Err::<HandleResponseV, RouterErrorV>(RouterErrorV::Unauthorized)
    } else {
        r matches Ok(resp) && {
            &&& resp.messages == rescue_messages(config, env, amount, denom, token)
            &&& resp.log == Seq::<LogAttributeV>::empty()
        }
    }
}

/// Sends the given amount of a native coin and/or a token held by the
/// router back to the admin.
pub fn rescue_tokens(
    config: &Config,
    env: &Env,
    amount: u128,
    denom: Option<String>,
    token: Option<SecretContract>,
) -> (r: Result<HandleResponse, RouterError>)
    ensures
        rescue_tokens_post(
            config@,
            env@,
            amount,
            denom.deep_view(),
            token.deep_view(),
            result_view(r),
        ),
{
    match authorize(config.admin.clone(), env.message_sender.clone()) {
        Ok(_) => {},
        Err(e) => {
            return Err(e);
        },
    }
    let mut messages: Vec<HostMsg> = Vec::new();
    match denom {
        Some(d) => {
            let ghost dv = d@;
            let mut coins: Vec<Coin> = Vec::new();
            coins.push(Coin { denom: d, amount });
            assert(coins.deep_view() =~= seq![CoinV { denom: dv, amount }]);
            messages.push(bank_send(&env.contract_address, &config.admin, coins));
        },
        None => {},
    }
    match &token {
        Some(t) => {
            messages.push(
                snip20_transfer(&config.admin, amount, BLOCK_SIZE, &t.contract_hash, &t.address),
            );
        },
        None => {},
    }
    assert(messages@ =~= rescue_messages(config@, env@, amount, denom.deep_view(), token.deep_view()));
    let log: Vec<LogAttribute> = Vec::new();
    assert(log.deep_view() =~= Seq::<LogAttributeV>::empty());
    Ok(HandleResponse { messages, log })
}

} // verus!
