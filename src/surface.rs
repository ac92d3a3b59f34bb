//! Decisions of the host-facing entry points that need no network: the
//! endpoint a login goes to, asset subscription, and the command table.
use vstd::prelude::*;

use crate::provider::{connect, profile_accounts};
use crate::session::{Session, SessionConfig};

verus! {

/// Base URL of the live brokerage endpoint.
pub open spec fn live_endpoint() -> Seq<char> {
    "https://api.tradier.com"@
}

/// Base URL of the sandbox endpoint.
pub open spec fn sandbox_endpoint() -> Seq<char> {
    "https://sandbox.tradier.com"@
}

/// The account kind that the host names for real-money trading.
pub open spec fn live_kind() -> Seq<char> {
    "Real"@
}

/// The endpoint for an account kind: the live one for real money, the
/// sandbox for any other kind.
pub open spec fn endpoint_for(kind: Seq<char>) -> Seq<char> {
    if kind == live_kind() { live_endpoint() } else { sandbox_endpoint() }
}

/// The configuration that a login with `token` on an account of `kind`
/// would leave behind.
pub fn login_config(kind: &str, token: &str) -> (r: SessionConfig)
    ensures
        r.base_url@ == endpoint_for(kind@),
        r.access_token@ == token@,
{
    let live = "Real".to_owned();
    proof {
        reveal_strlit("Real");
        reveal_strlit("https://api.tradier.com");
        reveal_strlit("https://sandbox.tradier.com");
    }
    let base_url = if kind.to_owned() == live {
        "https://api.tradier.com".to_owned()
    } else {
        "https://sandbox.tradier.com".to_owned()
    };
    SessionConfig { base_url, access_token: token.to_owned() }
}

/// Whether the provider accepts `config`: a login succeeds where the user
/// profile can be read with it.
pub fn verify_login(config: &SessionConfig) -> (r: bool) {
    match connect(config) {
        Ok(client) => profile_accounts(&client).is_ok(),
        Err(_) => false,
    }
}

/// Completes a login once the provider has answered: an accepted login
/// stores `config` and succeeds; a refused one fails and leaves the session
/// as it was.
pub fn apply_login(session: &mut Session, config: SessionConfig, accepted: bool) -> (r: bool)
    requires
        old(session).wf(),
    ensures
        final(session).wf(),
        r == accepted,
        final(session).subscriptions() == old(session).subscriptions(),
        accepted ==> final(session).config() == Some(config),
        !accepted ==> final(session).config() == old(session).config(),
{
    if accepted {
        session.set_session_config(config);
    }
    accepted
}

/// Why an asset call was not handled.
#[derive(Clone, Copy, Debug, PartialEq, Eq, Structural)]
pub enum AssetError {
    /// No login has succeeded yet.
    SessionNotReady,
}

/// The subscriptions after an asset call for `symbol`.
pub open spec fn subscribed_after(subs: Seq<Seq<char>>, symbol: Seq<char>) -> Seq<Seq<char>> {
    if subs.contains(symbol) { subs } else { subs.push(symbol) }
}

/// The price that an asset call reports: zero, meaning no data yet, on the
/// first call for a symbol; nothing on later calls.
pub open spec fn reported_price(subs: Seq<Seq<char>>, symbol: Seq<char>) -> Option<i64> {
    if subs.contains(symbol) { None } else { Some(0) }
}

/// Handles an asset call: subscribes `symbol` on its first call and reports
/// the no-data price then; later calls change nothing and report nothing.
pub fn asset(session: &mut Session, symbol: &str) -> (r: Result<Option<i64>, AssetError>)
    requires
        old(session).wf(),
    ensures
        final(session).wf(),
        final(session).config() == old(session).config(),
        old(session).config() is None ==> r == Err::<Option<i64>, AssetError>(
            AssetError::SessionNotReady,
        ) && final(session).subscriptions() == old(session).subscriptions(),
        old(session).config() is Some ==> r == Ok::<Option<i64>, AssetError>(
            reported_price(old(session).subscriptions(), symbol@),
        ) && final(session).subscriptions() == subscribed_after(
            old(session).subscriptions(),
            symbol@,
        ),
{
    if session.session_config().is_none() {
        return Err(AssetError::SessionNotReady);
    }
    if session.subscribe(symbol) {
        Ok(Some(0))
    } else {
        Ok(None)
    }
}

/// Two asset calls for one symbol subscribe it once: the first reports the
/// no-data price and adds the symbol, the second reports nothing and leaves
/// the subscriptions as they were, with no symbol listed twice.
pub proof fn lemma_subscribe_once(subs: Seq<Seq<char>>, symbol: Seq<char>)
    requires
        subs.no_duplicates(),
        !subs.contains(symbol),
    ensures
        reported_price(subs, symbol) == Some(0i64),
        subscribed_after(subs, symbol).contains(symbol),
        reported_price(subscribed_after(subs, symbol), symbol) is None,
        subscribed_after(subscribed_after(subs, symbol), symbol) == subscribed_after(subs, symbol),
        subscribed_after(subscribed_after(subs, symbol), symbol).no_duplicates(),
{
    let once = subs.push(symbol);
    assert(once[subs.len() as int] == symbol);
    assert(once.contains(symbol));
}

/// The answer to a command code: this bridge recognises no command codes,
/// so every code gets the neutral value zero and nothing changes.
pub open spec fn command_value(code: int) -> i64 {
    0
}

/// Answers a host command.
pub fn command(code: i32, _data: i32) -> (r: i64)
    ensures
        r == command_value(code as int),
{
    0
}

} // verus!
