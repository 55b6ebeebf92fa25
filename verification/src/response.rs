//! What a caller that serves a front end needs around a run: the size of the
//! position to trade, and trades rendered as text.

use crate::amount::Amount;
use crate::types::{OrderSide, Trade, TradeResponse};
use vstd::prelude::*;

verus! {

/// The text that `rust_decimal` writes for the decimal with this mantissa and
/// scale.
pub uninterp spec fn decimal_text(mantissa: int, scale: int) -> Seq<char>;

/// The RFC 3339 text that `chrono` writes for the moment this many microseconds
/// after the Unix epoch, in UTC; `None` where `chrono` has no such moment.
pub uninterp spec fn rfc3339_text(micros: int) -> Option<Seq<char>>;

/// The characters of an optional string.
pub open spec fn text_of(s: Option<String>) -> Option<Seq<char>> {
    match s {
        Some(t) => Some(t@),
        None => None,
    }
}

/// Calls `to_string` of `rust_decimal::Decimal`, which writes the number with
/// as many fractional digits as its scale says.
#[verifier::external_body]
fn decimal_to_string(a: Amount) -> (r: String)
    requires
        a.wf(),
    ensures
        r@ == decimal_text(a.mantissa as int, a.scale as int),
{
    rust_decimal::Decimal::from_i128_with_scale(a.mantissa, a.scale).to_string()
}

/// Calls `chrono::DateTime::from_timestamp_micros` and, on the moment it returns,
/// `to_rfc3339`. The first returns nothing for a moment out of its range.
#[verifier::external_body]
fn micros_to_rfc3339(micros: i64) -> (r: Option<String>)
    ensures
        text_of(r) == rfc3339_text(micros as int),
{
    match chrono::DateTime::from_timestamp_micros(micros) {
        Some(moment) => Some(moment.to_rfc3339()),
        None => None,
    }
}

/// `Buy` or `Sell`.
pub open spec fn side_name(side: OrderSide) -> Seq<char> {
    match side {
        OrderSide::Buy => "Buy"@,
        OrderSide::Sell => "Sell"@,
    }
}

/// The notional to trade when `percent` percent of `capital` are to be spent:
/// `capital * (percent / 100)`.
pub open spec fn sized_notional(capital: Amount, percent: Amount) -> Option<Amount> {
    match percent.spec_div(Amount { mantissa: 100, scale: 0 }) {
        Some(share) => capital.spec_mul(share),
        None => None,
    }
}

/// The quantity to trade when `percent` percent of `capital` are to be spent at
/// `price`: `capital * (percent / 100) / price`.
pub open spec fn sized_position(capital: Amount, percent: Amount, price: Amount) -> Option<Amount> {
    match sized_notional(capital, percent) {
        Some(budget) => budget.spec_div(price),
        None => None,
    }
}

/// The amount as text.
pub fn amount_text(a: Amount) -> (r: String)
    requires
        a.wf(),
    ensures
        r@ == decimal_text(a.mantissa as int, a.scale as int),
{
    decimal_to_string(a)
}

/// The moment `micros` microseconds after the Unix epoch as RFC 3339 text in UTC;
/// `None` where it is out of the calendar's range.
pub fn timestamp_text(micros: i64) -> (r: Option<String>)
    ensures
        text_of(r) == rfc3339_text(micros as int),
{
    micros_to_rfc3339(micros)
}

/// `Buy` or `Sell`.
pub fn side_text(side: OrderSide) -> (r: String)
    ensures
        r@ == side_name(side),
{
    match side {
        OrderSide::Buy => "Buy".to_string(),
        OrderSide::Sell => "Sell".to_string(),
    }
}

/// The notional to trade when `percent` percent of `capital` are to be spent;
/// `None` where it cannot be represented.
pub fn notional_for(capital: Amount, percent: Amount) -> (r: Option<Amount>)
    requires
        capital.wf(),
        percent.wf(),
    ensures
        r == sized_notional(capital, percent),
        r matches Some(v) ==> v.wf(),
{
    let share = percent.checked_div(Amount::hundred())?;
    capital.checked_mul(share)
}

/// The quantity to trade when `percent` percent of `capital` are to be spent at
/// `price`; `None` where it cannot be represented or the price is zero.
pub fn position_size_for(capital: Amount, percent: Amount, price: Amount) -> (r: Option<Amount>)
    requires
        capital.wf(),
        percent.wf(),
        price.wf(),
    ensures
        r == sized_position(capital, percent, price),
        r matches Some(v) ==> v.wf(),
{
    let budget = notional_for(capital, percent)?;
    budget.checked_div(price)
}

/// The trade with every field rendered as text; `None` where its time is out of
/// the calendar's range.
pub fn trade_response(trade: &Trade) -> (r: Option<TradeResponse>)
    requires
        trade.wf(),
    ensures
        match rfc3339_text(trade.timestamp as int) {
            Some(when) => r matches Some(t) && {
                &&& t.timestamp@ == when
                &&& t.symbol == trade.symbol
                &&& t.side@ == side_name(trade.side)
                &&& t.quantity@ == decimal_text(trade.quantity.mantissa as int, trade.quantity.scale as int)
                &&& t.price@ == decimal_text(trade.price.mantissa as int, trade.price.scale as int)
                &&& t.commission@ == decimal_text(
                    trade.commission.mantissa as int,
                    trade.commission.scale as int,
                )
            },
            None => r is None,
        },
{
    match timestamp_text(trade.timestamp) {
        Some(timestamp) => Some(
            TradeResponse {
                timestamp,
                symbol: trade.symbol.clone(),
                side: side_text(trade.side),
                quantity: amount_text(trade.quantity),
                price: amount_text(trade.price),
                commission: amount_text(trade.commission),
            },
        ),
        None => None,
    }
}

} // verus!
