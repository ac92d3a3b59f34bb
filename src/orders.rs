//! The order adapter: decodes the host's signed amount and prepares one
//! market order, good until cancelled, on the first account of the profile.
use vstd::prelude::*;

use crate::provider::{connect, profile_accounts};
use crate::session::SessionConfig;

verus! {

/// Direction of an order.
#[derive(Clone, Copy, Debug, PartialEq, Eq, Structural)]
pub enum Side {
    Buy,
    Sell,
}

/// Why no order could be placed.
#[derive(Clone, Copy, Debug, PartialEq, Eq, Structural)]
pub enum OrderError {
    /// No login has succeeded yet.
    SessionNotReady,
    /// The profile lists no account.
    NoAccount,
    /// The provider could not be reached or refused the request.
    ProviderError,
    /// The provider's order id does not fit the host's 32-bit integer.
    IdOutOfRange,
}

/// A market order, good until cancelled.
#[derive(Clone, Debug)]
pub struct OrderRequest {
    pub account: String,
    pub symbol: String,
    pub side: Side,
    pub quantity: u32,
}

pub open spec fn side_of(amount: int) -> Side {
    if amount < 0 { Side::Sell } else { Side::Buy }
}

pub open spec fn quantity_of(amount: int) -> int {
    if amount < 0 { -amount } else { amount }
}

/// Side and quantity of a signed amount: a negative amount sells, any other
/// buys, and the quantity is the amount's absolute value.
pub fn decode_amount(amount: i32) -> (r: (Side, u32))
    ensures
        r.0 == side_of(amount as int),
        r.1 as int == quantity_of(amount as int),
{
    if amount < 0 {
        (Side::Sell, (-(amount as i64)) as u32)
    } else {
        (Side::Buy, amount as u32)
    }
}

/// The account that orders go to: the first one that the profile lists.
pub fn first_account(accounts: Result<Vec<String>, String>) -> (r: Result<String, OrderError>)
    ensures
        accounts is Err ==> r == Err::<String, OrderError>(OrderError::ProviderError),
        accounts matches Ok(list) ==> (list@.len() == 0 ==> r == Err::<String, OrderError>(
            OrderError::NoAccount,
        )) && (list@.len() > 0 ==> (r matches Ok(a) && a@ == list@[0]@)),
{
    match accounts {
        Err(_) => Err(OrderError::ProviderError),
        Ok(list) => {
            if list.len() == 0 {
                Err(OrderError::NoAccount)
            } else {
                Ok(list[0].clone())
            }
        },
    }
}

/// Prepares the market order for `amount` units of `symbol` on the first
/// account of the profile. Without a login configuration it fails before any
/// network call.
pub fn prepare_market_order(config: &Option<SessionConfig>, symbol: &str, amount: i32) -> (r:
    Result<OrderRequest, OrderError>)
    ensures
        config is None <==> r == Err::<OrderRequest, OrderError>(OrderError::SessionNotReady),
        r matches Err(e) ==> e != OrderError::IdOutOfRange,
        r matches Ok(order) ==> order.symbol@ == symbol@ && order.side == side_of(amount as int)
            && order.quantity as int == quantity_of(amount as int),
{
    let settings = match config {
        Some(settings) => settings,
        None => return Err(OrderError::SessionNotReady),
    };
    let accounts = match connect(settings) {
        Ok(client) => profile_accounts(&client),
        Err(reason) => Err(reason),
    };
    let account = match first_account(accounts) {
        Ok(account) => account,
        Err(e) => return Err(e),
    };
    let (side, quantity) = decode_amount(amount);
    Ok(OrderRequest { account, symbol: symbol.to_owned(), side, quantity })
}

/// The provider's order id as the host's 32-bit integer; an id beyond its
/// range is an error, never wrapped.
pub fn narrow_order_id(id: u64) -> (r: Result<i32, OrderError>)
    ensures
        id <= i32::MAX ==> r == Ok::<i32, OrderError>(id as i32),
        id > i32::MAX ==> r == Err::<i32, OrderError>(OrderError::IdOutOfRange),
{
    if id <= i32::MAX as u64 {
        Ok(id as i32)
    } else {
        Err(OrderError::IdOutOfRange)
    }
}

} // verus!
