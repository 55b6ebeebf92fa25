//! Applies one order to a portfolio, or rejects it and leaves the portfolio as it was.

use crate::amount::Amount;
use crate::market_data::MarketDataPoint;
use crate::types::{
    holds, holds_at, lemma_push_keeps_distinct, lemma_remove_keeps_distinct, lemma_update_keeps_distinct,
    slot_of, Order, OrderSide, Portfolio, PortfolioView, Position, Trade,
};
use vstd::prelude::*;

verus! {

/// The amounts that an accepted order leaves behind.
pub struct Fill {
    pub commission: Amount,
    pub cash: Amount,
    pub quantity: Amount,
    pub average_entry_price: Amount,
}

/// The amounts after buying `quantity` at `price`, holding `held` at an average of
/// `average` before. `None` where the purchase with its commission costs more than
/// `cash`, where a step of the calculation cannot be represented, or where cash or
/// the holding would end below zero.
///
/// `cost = quantity * price`, `commission = cost * rate`, the new cash is
/// `cash - (cost + commission)` and the new average entry price is
/// `(average * held + price * quantity) / (held + quantity)`.
pub open spec fn buy_fill(
    cash: Amount,
    held: Amount,
    average: Amount,
    quantity: Amount,
    price: Amount,
    rate: Amount,
) -> Option<Fill> {
    match quantity.spec_mul(price) {
        None => None,
        Some(cost) => match cost.spec_mul(rate) {
            None => None,
            Some(commission) => match cost.spec_add(commission) {
                None => None,
                Some(total) => if total.spec_gt(cash) {
                    None
                } else {
                    match (
                        cash.spec_sub(total),
                        average.spec_mul(held),
                        price.spec_mul(quantity),
                        held.spec_add(quantity),
                    ) {
                        (Some(rest), Some(before), Some(added), Some(size)) => match before.spec_add(
                            added,
                        ) {
                            None => None,
                            Some(weighted) => match weighted.spec_div(size) {
                                None => None,
                                Some(entry) => if rest.mantissa < 0 || size.mantissa < 0 {
                                    None
                                } else {
                                    Some(
                                        Fill {
                                            commission,
                                            cash: rest,
                                            quantity: size,
                                            average_entry_price: entry,
                                        },
                                    )
                                },
                            },
                        },
                        _ => None,
                    }
                },
            },
        },
    }
}

/// The amounts after selling `quantity` at `price` out of a holding of `held` at an
/// average of `average`. `None` where a step of the calculation cannot be
/// represented, or where cash or the holding would end below zero.
///
/// `proceeds = quantity * price`, `commission = proceeds * rate`, the new cash is
/// `cash + (proceeds - commission)`; the average entry price stays.
pub open spec fn sell_fill(
    cash: Amount,
    held: Amount,
    average: Amount,
    quantity: Amount,
    price: Amount,
    rate: Amount,
) -> Option<Fill> {
    match quantity.spec_mul(price) {
        None => None,
        Some(proceeds) => match proceeds.spec_mul(rate) {
            None => None,
            Some(commission) => match proceeds.spec_sub(commission) {
                None => None,
                Some(net) => match (cash.spec_add(net), held.spec_sub(quantity)) {
                    (Some(rest), Some(size)) => if rest.mantissa < 0 || size.mantissa < 0 {
                        None
                    } else {
                        Some(
                            Fill {
                                commission,
                                cash: rest,
                                quantity: size,
                                average_entry_price: average,
                            },
                        )
                    },
                    _ => None,
                },
            },
        },
    }
}

/// The trade that records `order` filled at `price`.
pub open spec fn trade_of(order: Order, price: Amount, commission: Amount) -> Trade {
    Trade {
        symbol: order.symbol,
        side: order.side,
        quantity: order.quantity,
        price,
        timestamp: order.timestamp,
        commission,
    }
}

/// A buy against a portfolio: the portfolio afterwards and the trade, or the
/// portfolio as it was and no trade.
pub open spec fn buy_outcome(p: PortfolioView, order: Order, price: Amount, rate: Amount) -> (
    PortfolioView,
    Option<Trade>,
) {
    let zero = Amount { mantissa: 0, scale: 0 };
    let held = holds(p.positions, order.symbol@);
    let i = slot_of(p.positions, order.symbol@);
    let fill = if held {
        buy_fill(
            p.cash,
            p.positions[i].quantity,
            p.positions[i].average_entry_price,
            order.quantity,
            price,
            rate,
        )
    } else {
        buy_fill(p.cash, zero, zero, order.quantity, price, rate)
    };
    match fill {
        None => (p, None),
        Some(f) => (
            PortfolioView {
                cash: f.cash,
                positions: if held {
                    p.positions.update(
                        i,
                        Position {
                            symbol: p.positions[i].symbol,
                            quantity: f.quantity,
                            average_entry_price: f.average_entry_price,
                        },
                    )
                } else {
                    p.positions.push(
                        Position {
                            symbol: order.symbol,
                            quantity: f.quantity,
                            average_entry_price: f.average_entry_price,
                        },
                    )
                },
                total_value: p.total_value,
            },
            Some(trade_of(order, price, f.commission)),
        ),
    }
}

/// A sell against a portfolio: rejected unless a position in the symbol is held
/// whose quantity is at least the order's; a position sold down to exactly zero
/// leaves the portfolio.
pub open spec fn sell_outcome(p: PortfolioView, order: Order, price: Amount, rate: Amount) -> (
    PortfolioView,
    Option<Trade>,
) {
    let i = slot_of(p.positions, order.symbol@);
    if !holds(p.positions, order.symbol@) {
        (p, None)
    } else if !p.positions[i].quantity.spec_ge(order.quantity) {
        (p, None)
    } else {
        match sell_fill(
            p.cash,
            p.positions[i].quantity,
            p.positions[i].average_entry_price,
            order.quantity,
            price,
            rate,
        ) {
            None => (p, None),
            Some(f) => (
                PortfolioView {
                    cash: f.cash,
                    positions: if f.quantity.mantissa == 0 {
                        p.positions.remove(i)
                    } else {
                        p.positions.update(
                            i,
                            Position {
                                symbol: p.positions[i].symbol,
                                quantity: f.quantity,
                                average_entry_price: f.average_entry_price,
                            },
                        )
                    },
                    total_value: p.total_value,
                },
                Some(trade_of(order, price, f.commission)),
            ),
        }
    }
}

/// What executing `order` at `price` does to a portfolio and which trade it yields.
pub open spec fn order_outcome(p: PortfolioView, order: Order, price: Amount, rate: Amount) -> (
    PortfolioView,
    Option<Trade>,
) {
    match order.side {
        OrderSide::Buy => buy_outcome(p, order, price, rate),
        OrderSide::Sell => sell_outcome(p, order, price, rate),
    }
}

impl PortfolioView {
    /// Cash is not below zero and no position's quantity is below zero.
    pub open spec fn solvent(&self) -> bool {
        &&& self.cash.mantissa >= 0
        &&& forall|i: int| 0 <= i < self.positions.len() ==> (#[trigger] self.positions[i]).quantity.mantissa >= 0
    }
}

/// Whatever the order, executing it against a portfolio whose cash and quantities
/// are not negative leaves a portfolio whose cash and quantities are not negative.
pub proof fn lemma_order_keeps_solvent(p: PortfolioView, order: Order, price: Amount, rate: Amount)
    requires
        p.solvent(),
    ensures
        order_outcome(p, order, price, rate).0.solvent(),
{
    let after = order_outcome(p, order, price, rate).0;
    if order_outcome(p, order, price, rate).1 is Some {
        let i = slot_of(p.positions, order.symbol@);
        if holds(p.positions, order.symbol@) {
            assert(holds_at(p.positions, order.symbol@, i));
        }
        assert forall|k: int| 0 <= k < after.positions.len() implies (#[trigger] after.positions[k]).quantity.mantissa
            >= 0 by {
            if order.side == OrderSide::Sell && after.positions.len() < p.positions.len() {
                let k0 = if k < i { k } else { k + 1 };
                assert(after.positions[k] == p.positions[k0]);
            } else if k < p.positions.len() && k != i {
                assert(after.positions[k] == p.positions[k]);
            }
        }
    }
}

/// An order that yields no trade leaves the portfolio exactly as it was.
pub proof fn lemma_rejection_changes_nothing(p: PortfolioView, order: Order, price: Amount, rate: Amount)
    requires
        order_outcome(p, order, price, rate).1 is None,
    ensures
        order_outcome(p, order, price, rate).0 == p,
{
}

/// A buy whose cost and commission together exceed the cash is rejected.
pub proof fn lemma_unaffordable_buy_rejected(p: PortfolioView, order: Order, price: Amount, rate: Amount)
    requires
        order.side == OrderSide::Buy,
        order.quantity.spec_mul(price) matches Some(cost) && (cost.spec_mul(rate) matches Some(commission)
            && (cost.spec_add(commission) matches Some(total) && total.spec_gt(p.cash))),
    ensures
        order_outcome(p, order, price, rate) == (p, None::<Trade>),
{
}

/// A sell of more than is held, or of a symbol that is not held, is rejected.
pub proof fn lemma_oversized_sell_rejected(p: PortfolioView, order: Order, price: Amount, rate: Amount)
    requires
        order.side == OrderSide::Sell,
        holds(p.positions, order.symbol@) ==> order.quantity.spec_gt(
            p.positions[slot_of(p.positions, order.symbol@)].quantity,
        ),
    ensures
        order_outcome(p, order, price, rate) == (p, None::<Trade>),
{
}

/// Executes orders at a configured commission rate. It keeps no other state.
pub struct OrderExecutor {
    pub commission_rate: Amount,
}

impl OrderExecutor {
    /// The commission rate is a valid amount.
    pub open spec fn wf(&self) -> bool {
        self.commission_rate.wf()
    }

    /// An executor that charges `commission_rate` of every fill's value.
    pub fn new(commission_rate: Amount) -> (r: OrderExecutor)
        ensures
            r.commission_rate == commission_rate,
    {
        OrderExecutor { commission_rate }
    }

    /// Applies `order` at the tick's price, or rejects it without touching the
    /// portfolio.
    pub fn execute_order(&self, order: &Order, data: &MarketDataPoint, portfolio: &mut Portfolio) -> (r:
        Option<Trade>)
        requires
            self.wf(),
            order.wf(),
            data.price.wf(),
            old(portfolio).wf(),
        ensures
            final(portfolio)@ == order_outcome(old(portfolio)@, *order, data.price, self.commission_rate).0,
            r == order_outcome(old(portfolio)@, *order, data.price, self.commission_rate).1,
            final(portfolio).wf(),
            r is None ==> *final(portfolio) == *old(portfolio),
            r matches Some(t) ==> t.wf(),
    {
        match order.side {
            OrderSide::Buy => self.execute_buy(order, data, portfolio),
            OrderSide::Sell => self.execute_sell(order, data, portfolio),
        }
    }

    /// Computes the amounts of a buy; see [`buy_fill`].
    fn plan_buy(&self, cash: Amount, held: Amount, average: Amount, quantity: Amount, price: Amount) -> (r:
        Option<Fill>)
        requires
            self.wf(),
            cash.wf(),
            held.wf(),
            average.wf(),
            quantity.wf(),
            price.wf(),
        ensures
            r == buy_fill(cash, held, average, quantity, price, self.commission_rate),
            r matches Some(f) ==> f.commission.wf() && f.cash.wf() && f.quantity.wf()
                && f.average_entry_price.wf() && f.cash.mantissa >= 0 && f.quantity.mantissa >= 0,
    {
        let cost = quantity.checked_mul(price)?;
        let commission = cost.checked_mul(self.commission_rate)?;
        let total = cost.checked_add(commission)?;
        if total.gt(cash) {
            return None;
        }
        let rest = cash.checked_sub(total);
        let before = average.checked_mul(held);
        let added = price.checked_mul(quantity);
        let size = held.checked_add(quantity);
        match (rest, before, added, size) {
            (Some(rest), Some(before), Some(added), Some(size)) => {
                let weighted = before.checked_add(added)?;
                let entry = weighted.checked_div(size)?;
                if rest.is_negative() || size.is_negative() {
                    None
                } else {
                    Some(Fill { commission, cash: rest, quantity: size, average_entry_price: entry })
                }
            },
            _ => None,
        }
    }

    /// Computes the amounts of a sell; see [`sell_fill`].
    fn plan_sell(&self, cash: Amount, held: Amount, average: Amount, quantity: Amount, price: Amount) -> (r:
        Option<Fill>)
        requires
            self.wf(),
            cash.wf(),
            held.wf(),
            average.wf(),
            quantity.wf(),
            price.wf(),
        ensures
            r == sell_fill(cash, held, average, quantity, price, self.commission_rate),
            r matches Some(f) ==> f.commission.wf() && f.cash.wf() && f.quantity.wf()
                && f.average_entry_price.wf() && f.cash.mantissa >= 0 && f.quantity.mantissa >= 0,
    {
        let proceeds = quantity.checked_mul(price)?;
        let commission = proceeds.checked_mul(self.commission_rate)?;
        let net = proceeds.checked_sub(commission)?;
        match (cash.checked_add(net), held.checked_sub(quantity)) {
            (Some(rest), Some(size)) => {
                if rest.is_negative() || size.is_negative() {
                    None
                } else {
                    Some(Fill { commission, cash: rest, quantity: size, average_entry_price: average })
                }
            },
            _ => None,
        }
    }

    /// Applies a buy, or rejects it without touching the portfolio.
    pub fn execute_buy(&self, order: &Order, data: &MarketDataPoint, portfolio: &mut Portfolio) -> (r:
        Option<Trade>)
        requires
            self.wf(),
            order.wf(),
            data.price.wf(),
            old(portfolio).wf(),
        ensures
            final(portfolio)@ == buy_outcome(old(portfolio)@, *order, data.price, self.commission_rate).0,
            r == buy_outcome(old(portfolio)@, *order, data.price, self.commission_rate).1,
            final(portfolio).wf(),
            r is None ==> *final(portfolio) == *old(portfolio),
            r matches Some(t) ==> t.wf() && t.side == order.side,
    {
        let price = data.price;
        let slot = portfolio.find_position(&order.symbol);
        let fill = match slot {
            Some(i) => self.plan_buy(
                portfolio.cash,
                portfolio.positions[i].quantity,
                portfolio.positions[i].average_entry_price,
                order.quantity,
                price,
            ),
            None => self.plan_buy(portfolio.cash, Amount::zero(), Amount::zero(), order.quantity, price),
        };
        match fill {
            None => None,
            Some(f) => {
                portfolio.cash = f.cash;
                match slot {
                    Some(i) => {
                        portfolio.positions[i].quantity = f.quantity;
                        portfolio.positions[i].average_entry_price = f.average_entry_price;
                        proof {
                            let before = old(portfolio)@.positions;
                            let held = Position {
                                symbol: before[i as int].symbol,
                                quantity: f.quantity,
                                average_entry_price: f.average_entry_price,
                            };
                            assert(portfolio.positions@ =~= before.update(i as int, held));
                            lemma_update_keeps_distinct(before, i as int, held);
                        }
                    },
                    None => {
                        portfolio.positions.push(
                            Position {
                                symbol: order.symbol.clone(),
                                quantity: f.quantity,
                                average_entry_price: f.average_entry_price,
                            },
                        );
                        proof {
                            lemma_push_keeps_distinct(
                                old(portfolio)@.positions,
                                Position {
                                    symbol: order.symbol,
                                    quantity: f.quantity,
                                    average_entry_price: f.average_entry_price,
                                },
                            );
                        }
                    },
                }
                Some(
                    Trade {
                        symbol: order.symbol.clone(),
                        side: order.side,
                        quantity: order.quantity,
                        price,
                        timestamp: order.timestamp,
                        commission: f.commission,
                    },
                )
            },
        }
    }

    /// Applies a sell, or rejects it without touching the portfolio.
    pub fn execute_sell(&self, order: &Order, data: &MarketDataPoint, portfolio: &mut Portfolio) -> (r:
        Option<Trade>)
        requires
            self.wf(),
            order.wf(),
            data.price.wf(),
            old(portfolio).wf(),
        ensures
            final(portfolio)@ == sell_outcome(old(portfolio)@, *order, data.price, self.commission_rate).0,
            r == sell_outcome(old(portfolio)@, *order, data.price, self.commission_rate).1,
            final(portfolio).wf(),
            r is None ==> *final(portfolio) == *old(portfolio),
            r matches Some(t) ==> t.wf() && t.side == order.side,
    {
        let price = data.price;
        let i = match portfolio.find_position(&order.symbol) {
            Some(i) => i,
            None => {
                return None;
            },
        };
        let held = portfolio.positions[i].quantity;
        if !held.ge(order.quantity) {
            return None;
        }
        let f = match self.plan_sell(
            portfolio.cash,
            held,
            portfolio.positions[i].average_entry_price,
            order.quantity,
            price,
        ) {
            Some(f) => f,
            None => {
                return None;
            },
        };
        portfolio.cash = f.cash;
        if f.quantity.is_zero() {
            let _ = portfolio.positions.remove(i);
            proof {
                lemma_remove_keeps_distinct(old(portfolio)@.positions, i as int);
            }
        } else {
            portfolio.positions[i].quantity = f.quantity;
            proof {
                let before = old(portfolio)@.positions;
                let held = Position {
                    symbol: before[i as int].symbol,
                    quantity: f.quantity,
                    average_entry_price: f.average_entry_price,
                };
                assert(portfolio.positions@ =~= before.update(i as int, held));
                lemma_update_keeps_distinct(before, i as int, held);
            }
        }
        Some(
            Trade {
                symbol: order.symbol.clone(),
                side: order.side,
                quantity: order.quantity,
                price,
                timestamp: order.timestamp,
                commission: f.commission,
            },
        )
    }
}

} // verus!
