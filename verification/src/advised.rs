//! The decisions of a strategy that acts on the advice of an outside signal
//! source.
//!
//! The request for advice and the wait for its answer happen elsewhere; this
//! module says when to ask, how an answer is read, and which order follows.

use crate::amount::Amount;
use crate::market_data::MarketDataPoint;
use crate::risk::RiskManager;
use crate::text::{occurs_in, text_contains, text_to_uppercase, uppercase_of};
use crate::types::{holds, slot_of, Order, OrderSide, OrderType, Portfolio, Position};
use vstd::prelude::*;

verus! {

/// How an upper-cased answer is read: one that holds `BUY` advises a buy, else
/// one that holds `SELL` a sell, any other nothing.
pub open spec fn advice_in(upper: Seq<char>) -> Option<OrderSide> {
    if occurs_in("BUY"@, upper) {
        Some(OrderSide::Buy)
    } else if occurs_in("SELL"@, upper) {
        Some(OrderSide::Sell)
    } else {
        None
    }
}

/// The order that follows from an advice, and the advice remembered afterwards.
/// An advice equal to the remembered one places no order. A buy is for
/// `position_size`; a sell is for the whole holding and is placed, and
/// remembered, only where the symbol is held.
pub open spec fn advised_orders(
    symbol: String,
    position_size: Amount,
    last: Option<OrderSide>,
    advice: Option<OrderSide>,
    data: MarketDataPoint,
    positions: Seq<Position>,
) -> (Seq<Order>, Option<OrderSide>) {
    if advice == Some(OrderSide::Buy) && last != Some(OrderSide::Buy) {
        (
            seq![
                Order {
                    symbol,
                    order_type: OrderType::Market,
                    side: OrderSide::Buy,
                    quantity: position_size,
                    timestamp: data.timestamp,
                },
            ],
            Some(OrderSide::Buy),
        )
    } else if advice == Some(OrderSide::Sell) && last != Some(OrderSide::Sell) && holds(
        positions,
        symbol@,
    ) {
        (
            seq![
                Order {
                    symbol,
                    order_type: OrderType::Market,
                    side: OrderSide::Sell,
                    quantity: positions[slot_of(positions, symbol@)].quantity,
                    timestamp: data.timestamp,
                },
            ],
            Some(OrderSide::Sell),
        )
    } else {
        (Seq::empty(), last)
    }
}

/// Reads the answer of a signal source.
pub fn read_advice(signal: &str) -> (r: Option<OrderSide>)
    ensures
        r == advice_in(uppercase_of(signal@)),
{
    let upper = text_to_uppercase(signal);
    classify_upper(upper.as_str())
}

/// Reads an answer that is already in upper case.
pub fn classify_upper(upper: &str) -> (r: Option<OrderSide>)
    ensures
        r == advice_in(upper@),
{
    if text_contains(upper, "BUY") {
        Some(OrderSide::Buy)
    } else if text_contains(upper, "SELL") {
        Some(OrderSide::Sell)
    } else {
        None
    }
}

/// The state of an advised strategy between ticks.
pub struct LLMStrategy {
    pub symbol: String,
    pub risk_manager: RiskManager,
    pub position_size: Amount,
    pub has_analyzed: bool,
    pub last_signal: Option<OrderSide>,
}

impl LLMStrategy {
    /// A strategy for `symbol` that has not asked for advice yet.
    pub fn new(symbol: String, risk_manager: RiskManager, position_size: Amount) -> (r: LLMStrategy)
        ensures
            r == (LLMStrategy { symbol, risk_manager, position_size, has_analyzed: false, last_signal: None }),
    {
        LLMStrategy { symbol, risk_manager, position_size, has_analyzed: false, last_signal: None }
    }

    /// Whether advice is to be requested now: `true` at the first call and never
    /// again.
    pub fn analyze_first_data(&mut self) -> (ask: bool)
        ensures
            ask == !old(self).has_analyzed,
            *final(self) == (LLMStrategy { has_analyzed: true, ..*old(self) }),
    {
        let ask = !self.has_analyzed;
        self.has_analyzed = true;
        ask
    }

    /// The orders of one tick, given the advice that has arrived since the last
    /// one, if any.
    pub fn on_advice(&mut self, advice: Option<OrderSide>, data: &MarketDataPoint, portfolio: &Portfolio) -> (orders:
        Vec<Order>)
        requires
            portfolio.wf(),
        ensures
            (orders@, final(self).last_signal) == advised_orders(
                old(self).symbol,
                old(self).position_size,
                old(self).last_signal,
                advice,
                *data,
                portfolio.positions@,
            ),
            *final(self) == (LLMStrategy { last_signal: final(self).last_signal, ..*old(self) }),
    {
        let mut orders: Vec<Order> = Vec::new();
        let buying = match self.last_signal {
            Some(OrderSide::Buy) => true,
            _ => false,
        };
        let selling = match self.last_signal {
            Some(OrderSide::Sell) => true,
            _ => false,
        };
        match advice {
            Some(OrderSide::Buy) => {
                if !buying {
                    orders.push(
                        Order {
                            symbol: self.symbol.clone(),
                            order_type: OrderType::Market,
                            side: OrderSide::Buy,
                            quantity: self.position_size,
                            timestamp: data.timestamp,
                        },
                    );
                    self.last_signal = Some(OrderSide::Buy);
                }
            },
            Some(OrderSide::Sell) => {
                if !selling {
                    match portfolio.find_position(&self.symbol) {
                        Some(i) => {
                            orders.push(
                                Order {
                                    symbol: self.symbol.clone(),
                                    order_type: OrderType::Market,
                                    side: OrderSide::Sell,
                                    quantity: portfolio.positions[i].quantity,
                                    timestamp: data.timestamp,
                                },
                            );
                            self.last_signal = Some(OrderSide::Sell);
                        },
                        None => {},
                    }
                }
            },
            None => {},
        }
        proof {
            let expected = advised_orders(
                old(self).symbol,
                old(self).position_size,
                old(self).last_signal,
                advice,
                *data,
                portfolio.positions@,
            );
            assert(orders@ =~= expected.0);
        }
        orders
    }

    /// The orders of one tick, given the text that has arrived from the signal
    /// source since the last one, if any.
    pub fn on_data(&mut self, signal: Option<String>, data: &MarketDataPoint, portfolio: &Portfolio) -> (orders:
        Vec<Order>)
        requires
            portfolio.wf(),
        ensures
            (orders@, final(self).last_signal) == advised_orders(
                old(self).symbol,
                old(self).position_size,
                old(self).last_signal,
                match signal {
                    Some(s) => advice_in(uppercase_of(s@)),
                    None => None,
                },
                *data,
                portfolio.positions@,
            ),
            *final(self) == (LLMStrategy { last_signal: final(self).last_signal, ..*old(self) }),
    {
        let advice = match signal {
            Some(s) => read_advice(s.as_str()),
            None => None,
        };
        self.on_advice(advice, data, portfolio)
    }
}

} // verus!
