//! The interface between the replay loop and a trading strategy.

use crate::market_data::MarketDataPoint;
use crate::types::{Order, Portfolio, PortfolioView, StrategyType};
use vstd::prelude::*;

verus! {

/// A trading strategy: it sees each tick once, in order, together with the
/// portfolio as it stands, and answers with the orders to place at that tick.
pub trait Strategy: Sized {
    /// What the strategy needs to hold of its own state between ticks; nothing,
    /// unless the strategy says otherwise.
    open spec fn inv(&self) -> bool {
        true
    }

    /// Whether the strategy, standing at `self`, may answer the tick with `orders`
    /// and stand at `next` afterwards. A strategy that does not say is free in its
    /// answers.
    open spec fn answers(
        &self,
        data: MarketDataPoint,
        portfolio: PortfolioView,
        next: Self,
        orders: Seq<Order>,
    ) -> bool {
        true
    }

    /// The orders for this tick, in the order in which they are to be applied.
    fn on_data(&mut self, data: &MarketDataPoint, portfolio: &Portfolio) -> (orders: Vec<Order>)
        requires
            old(self).inv(),
            data.wf(),
            portfolio.wf(),
        ensures
            final(self).inv(),
            old(self).answers(*data, portfolio@, *final(self), orders@),
    ;

    /// The parameters the strategy was set up with, as name and value.
    fn get_parameters(&self) -> (r: Vec<(String, String)>);

    /// The family the strategy belongs to.
    fn get_type(&self) -> (r: StrategyType);
}

} // verus!
