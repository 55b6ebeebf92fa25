//! The moving-average crossover strategy.
//!
//! It keeps the most recent prices in a short and a long window. Once the short
//! window is full it compares the two averages on every tick, and places an order
//! only when the comparison comes out differently from the tick before: a buy
//! when the short average rises above the long one and nothing is held, a sell of
//! the whole holding when it falls back.

use crate::amount::Amount;
use crate::market_data::MarketDataPoint;
use crate::strategy::Strategy;
use crate::types::{
    holds, slot_of, Order, OrderSide, OrderType, Portfolio, PortfolioView, Position, StrategyType,
};
use std::collections::VecDeque;
use vstd::prelude::*;

verus! {

/// A window after `x` has entered it: the oldest price leaves where more than
/// `capacity` would be held.
pub open spec fn pushed(window: Seq<Amount>, x: Amount, capacity: nat) -> Seq<Amount> {
    let grown = window.push(x);
    if grown.len() > capacity {
        grown.subrange(1, grown.len() as int)
    } else {
        grown
    }
}

/// Zero plus each amount, added in order.
pub open spec fn sum_amounts(s: Seq<Amount>) -> Option<Amount>
    decreases s.len(),
{
    if s.len() == 0 {
        Some(Amount { mantissa: 0, scale: 0 })
    } else {
        match sum_amounts(s.drop_last()) {
            Some(a) => a.spec_add(s.last()),
            None => None,
        }
    }
}

/// The sum of a window divided by the number of prices in it.
pub open spec fn average(s: Seq<Amount>) -> Option<Amount> {
    match sum_amounts(s) {
        Some(total) => total.spec_div(Amount { mantissa: s.len() as i128, scale: 0 }),
        None => None,
    }
}

/// The short and the long average, once the short window holds `short_period`
/// prices.
pub open spec fn averages(short: Seq<Amount>, long: Seq<Amount>, short_period: nat) -> Option<
    (Amount, Amount),
> {
    if short.len() == short_period {
        match (average(short), average(long)) {
            (Some(a), Some(b)) => Some((a, b)),
            _ => None,
        }
    } else {
        None
    }
}

/// How much to buy at `price` for a notional of `target`: `target / price`, zero
/// where the price is not above zero.
pub open spec fn order_size(target: Amount, price: Amount) -> Option<Amount> {
    if price.mantissa > 0 {
        target.spec_div(price)
    } else {
        Some(Amount { mantissa: 0, scale: 0 })
    }
}

/// The orders of one tick. `signal` is whether the short average is above the
/// long one, `last` what it was at the tick before.
pub open spec fn crossover_orders(
    symbol: String,
    target: Amount,
    signal: bool,
    last: Option<bool>,
    data: MarketDataPoint,
    positions: Seq<Position>,
) -> Seq<Order> {
    let changed = last != Some(signal);
    let held = holds(positions, symbol@);
    if signal && changed && !held {
        match order_size(target, data.price) {
            Some(quantity) => seq![
                Order {
                    symbol,
                    order_type: OrderType::Market,
                    side: OrderSide::Buy,
                    quantity,
                    timestamp: data.timestamp,
                },
            ],
            None => Seq::empty(),
        }
    } else if !signal && changed && held {
        seq![
            Order {
                symbol,
                order_type: OrderType::Market,
                side: OrderSide::Sell,
                quantity: positions[slot_of(positions, symbol@)].quantity,
                timestamp: data.timestamp,
            },
        ]
    } else {
        Seq::empty()
    }
}

/// Every amount of the window is valid.
pub open spec fn window_wf(s: Seq<Amount>) -> bool {
    forall|i: int| 0 <= i < s.len() ==> (#[trigger] s[i]).wf()
}

/// The crossover of a short and a long simple moving average.
pub struct SimpleMovingAverageCrossStrategy {
    pub symbol: String,
    pub short_period: usize,
    pub long_period: usize,
    pub short_ma: VecDeque<Amount>,
    pub long_ma: VecDeque<Amount>,
    pub position_size: Amount,
    pub last_signal: Option<bool>,
}

/// Zero plus each amount of the window, added in order.
pub fn window_sum(window: &VecDeque<Amount>) -> (r: Option<Amount>)
    requires
        window_wf(window@),
    ensures
        r == sum_amounts(window@),
        r matches Some(v) ==> v.wf(),
{
    let mut acc: Option<Amount> = Some(Amount::zero());
    let mut i: usize = 0;
    while i < window.len()
        invariant
            i <= window.len(),
            window_wf(window@),
            acc == sum_amounts(window@.take(i as int)),
            acc matches Some(v) ==> v.wf(),
        decreases window.len() - i,
    {
        proof {
            assert(window@.take(i + 1).drop_last() =~= window@.take(i as int));
            assert(window@[i as int].wf());
        }
        acc = match acc {
            Some(a) => a.checked_add(window[i]),
            None => None,
        };
        i += 1;
    }
    proof {
        assert(window@.take(window@.len() as int) =~= window@);
    }
    acc
}

/// The sum of the window divided by the number of prices in it.
pub fn window_average(window: &VecDeque<Amount>) -> (r: Option<Amount>)
    requires
        window_wf(window@),
    ensures
        r == average(window@),
        r matches Some(v) ==> v.wf(),
{
    match window_sum(window) {
        Some(total) => total.checked_div(Amount::from_count(window.len())),
        None => None,
    }
}

/// Lets `x` into the window and the oldest price out where the window is over
/// `capacity`.
pub fn window_push(window: &mut VecDeque<Amount>, x: Amount, capacity: usize)
    requires
        window_wf(old(window)@),
        x.wf(),
    ensures
        final(window)@ == pushed(old(window)@, x, capacity as nat),
        window_wf(final(window)@),
{
    window.push_back(x);
    if window.len() > capacity {
        let _ = window.pop_front();
    }
}

impl SimpleMovingAverageCrossStrategy {
    /// A strategy for `symbol` with empty windows and no signal yet.
    /// `position_size` is the notional that a buy aims at.
    pub fn new(symbol: String, short_period: usize, long_period: usize, position_size: Amount) -> (r:
        SimpleMovingAverageCrossStrategy)
        requires
            position_size.wf(),
        ensures
            r.inv(),
            r.symbol == symbol,
            r.short_period == short_period,
            r.long_period == long_period,
            r.position_size == position_size,
            r.short_ma@.len() == 0,
            r.long_ma@.len() == 0,
            r.last_signal is None,
    {
        SimpleMovingAverageCrossStrategy {
            symbol,
            short_period,
            long_period,
            short_ma: VecDeque::new(),
            long_ma: VecDeque::new(),
            position_size,
            last_signal: None,
        }
    }

    /// Takes `price` into both windows and returns the short and the long average
    /// once the short window is full.
    pub fn calculate_ma(&mut self, price: Amount) -> (r: Option<(Amount, Amount)>)
        requires
            old(self).inv(),
            price.wf(),
        ensures
            final(self).short_ma@ == pushed(old(self).short_ma@, price, old(self).short_period as nat),
            final(self).long_ma@ == pushed(old(self).long_ma@, price, old(self).long_period as nat),
            r == averages(final(self).short_ma@, final(self).long_ma@, old(self).short_period as nat),
            r matches Some(pair) ==> pair.0.wf() && pair.1.wf(),
            final(self).inv(),
            final(self).symbol == old(self).symbol,
            final(self).short_period == old(self).short_period,
            final(self).long_period == old(self).long_period,
            final(self).position_size == old(self).position_size,
            final(self).last_signal == old(self).last_signal,
    {
        window_push(&mut self.short_ma, price, self.short_period);
        window_push(&mut self.long_ma, price, self.long_period);
        if self.short_ma.len() == self.short_period {
            match (window_average(&self.short_ma), window_average(&self.long_ma)) {
                (Some(a), Some(b)) => Some((a, b)),
                _ => None,
            }
        } else {
            None
        }
    }

    /// The two averages of the windows as they stand, once the short one is full.
    pub fn get_ma_values(&self) -> (r: Option<(Amount, Amount)>)
        requires
            self.inv(),
        ensures
            r == averages(self.short_ma@, self.long_ma@, self.short_period as nat),
    {
        if self.short_ma.len() == self.short_period {
            match (window_average(&self.short_ma), window_average(&self.long_ma)) {
                (Some(a), Some(b)) => Some((a, b)),
                _ => None,
            }
        } else {
            None
        }
    }
}

impl Strategy for SimpleMovingAverageCrossStrategy {
    /// The notional is a valid amount and so is every price in the windows.
    open spec fn inv(&self) -> bool {
        &&& self.position_size.wf()
        &&& window_wf(self.short_ma@)
        &&& window_wf(self.long_ma@)
    }

    /// The tick's price enters both windows. Where the averages exist, the orders
    /// are those of [`crossover_orders`] and the signal is remembered; where they
    /// do not, no order is placed and the remembered signal stays.
    open spec fn answers(
        &self,
        data: MarketDataPoint,
        portfolio: PortfolioView,
        next: Self,
        orders: Seq<Order>,
    ) -> bool {
        &&& next.short_ma@ == pushed(self.short_ma@, data.price, self.short_period as nat)
        &&& next.long_ma@ == pushed(self.long_ma@, data.price, self.long_period as nat)
        &&& match averages(next.short_ma@, next.long_ma@, self.short_period as nat) {
            Some(pair) => {
                &&& next.last_signal == Some(pair.0.spec_gt(pair.1))
                &&& orders == crossover_orders(
                    self.symbol,
                    self.position_size,
                    pair.0.spec_gt(pair.1),
                    self.last_signal,
                    data,
                    portfolio.positions,
                )
            },
            None => next.last_signal == self.last_signal && orders.len() == 0,
        }
        &&& next.symbol == self.symbol
        &&& next.short_period == self.short_period
        &&& next.long_period == self.long_period
        &&& next.position_size == self.position_size
    }

    fn on_data(&mut self, data: &MarketDataPoint, portfolio: &Portfolio) -> (orders: Vec<Order>)
        ensures
            forall|i: int| 0 <= i < orders@.len() ==> (#[trigger] orders@[i]).wf(),
    {
        let mut orders: Vec<Order> = Vec::new();
        let (short_avg, long_avg) = match self.calculate_ma(data.price) {
            Some(pair) => pair,
            None => {
                return orders;
            },
        };
        let signal = short_avg.gt(long_avg);
        let changed = match self.last_signal {
            Some(last) => last != signal,
            None => true,
        };
        let slot = portfolio.find_position(&self.symbol);
        if signal && changed {
            if slot.is_none() {
                let quantity = if data.price.mantissa > 0 {
                    self.position_size.checked_div(data.price)
                } else {
                    Some(Amount::zero())
                };
                match quantity {
                    Some(quantity) => {
                        orders.push(
                            Order {
                                symbol: self.symbol.clone(),
                                order_type: OrderType::Market,
                                side: OrderSide::Buy,
                                quantity,
                                timestamp: data.timestamp,
                            },
                        );
                    },
                    None => {},
                }
            }
        } else if !signal && changed {
            match slot {
                Some(i) => {
                    proof {
                        assert(portfolio.positions@[i as int].wf());
                    }
                    orders.push(
                        Order {
                            symbol: self.symbol.clone(),
                            order_type: OrderType::Market,
                            side: OrderSide::Sell,
                            quantity: portfolio.positions[i].quantity,
                            timestamp: data.timestamp,
                        },
                    );
                },
                None => {},
            }
        }
        self.last_signal = Some(signal);
        proof {
            assert(orders@ =~= crossover_orders(
                old(self).symbol,
                old(self).position_size,
                signal,
                old(self).last_signal,
                *data,
                portfolio.positions@,
            ));
        }
        orders
    }

    /// The two periods, under the names `short_period` and `long_period`.
    fn get_parameters(&self) -> (r: Vec<(String, String)>)
        ensures
            r@.len() == 2,
            r@[0].0@ == "short_period"@,
            r@[1].0@ == "long_period"@,
    {
        let mut parameters: Vec<(String, String)> = Vec::new();
        parameters.push(("short_period".to_string(), self.short_period.to_string()));
        parameters.push(("long_period".to_string(), self.long_period.to_string()));
        parameters
    }

    /// Always [`StrategyType::SMACross`].
    fn get_type(&self) -> (r: StrategyType)
        ensures
            r == StrategyType::SMACross,
    {
        StrategyType::SMACross
    }
}

} // verus!
