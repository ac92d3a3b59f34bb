//! The calls into the Tradier REST client and the clock that the adapters use.
//! None of them can promise what comes back: the answers come from the
//! network or from the clock.
use tradier::blocking::operation::MarketData;
use tradier::blocking::operation::User;
use vstd::prelude::*;

use crate::session::SessionConfig;

verus! {

#[verifier::external_type_specification]
#[verifier::external_body]
pub struct ExClient(tradier::blocking::Client);

#[verifier::external_type_specification]
#[verifier::external_body]
pub struct ExTimeSalesEntry(tradier::types::TimeSalesEntry);

/// One bar of a time-and-sales answer: its Unix time in seconds, and the
/// provider's entry with the prices and the volume.
pub struct Bar<Q> {
    pub timestamp: i64,
    pub quote: Q,
}

/// Relies on chrono::Utc::now and DateTime::timestamp: the current Unix time
/// in seconds, of which nothing is known in advance.
#[verifier::external_body]
pub(crate) fn now_seconds() -> (r: i64) {
    chrono::Utc::now().timestamp()
}

/// Relies on tradier::Config::new, for the settings that the session does
/// not hold, and tradier::blocking::Client::new: a client for the endpoint
/// and token of `config`, or the reason none could be built. No request is
/// sent here.
#[verifier::external_body]
pub(crate) fn connect(config: &SessionConfig) -> (r: Result<tradier::blocking::Client, String>) {
    let mut settings = tradier::Config::new();
    settings.rest_api.base_url = config.base_url.clone();
    settings.credentials.access_token = Some(config.access_token.clone());
    tradier::blocking::Client::new(settings).map_err(|e| e.to_string())
}

/// Relies on tradier's `User::get_user_profile`: the account numbers of the
/// profile, in the order the profile lists them, or the reason of failure.
#[verifier::external_body]
pub(crate) fn profile_accounts(client: &tradier::blocking::Client) -> (r: Result<
    Vec<String>,
    String,
>) {
    let profile = client.get_user_profile().map_err(|e| e.to_string())?;
    Ok(profile.profile.account.into_vec().into_iter().map(|a| a.account_number).collect())
}

/// Relies on tradier's `MarketData::get_time_and_sales` with one-minute bars
/// between the Unix times `start` and `end`: the bars in the order the
/// provider sent them, or the reason of failure. The symbol goes through
/// tradier's `Symbol::from_str` and the times through chrono's
/// `DateTime::from_timestamp`; a refusal of either is a failure too.
#[verifier::external_body]
pub(crate) fn time_and_sales(
    client: &tradier::blocking::Client,
    symbol: &str,
    start: i64,
    end: i64,
) -> (r: Result<Vec<Bar<tradier::types::TimeSalesEntry>>, String>) {
    let symbol: tradier::types::Symbol = symbol.parse().map_err(|e: tradier::Error| e.to_string())?;
    let start = chrono::DateTime::from_timestamp(start, 0).ok_or_else(|| start.to_string())?;
    let end = chrono::DateTime::from_timestamp(end, 0).ok_or_else(|| end.to_string())?;
    let interval = Some(tradier::types::TimeSalesInterval::OneMinute);
    let answer = client.get_time_and_sales(&symbol, interval, Some(&start), Some(&end), None);
    let entries = answer.map_err(|e| e.to_string())?.series.map(|s| s.data.into_vec());
    Ok(entries.unwrap_or_default().into_iter().map(|e| Bar { timestamp: e.timestamp, quote: e }).collect())
}

} // verus!
