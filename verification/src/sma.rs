//! The moving-average crossover strategy in the form that keeps the parameters it
//! was made with and reports them with a run's result.
//!
//! It trades as [`SimpleMovingAverageCrossStrategy`] does: an order is placed
//! only when the comparison of the two averages comes out differently from the
//! tick before, and a buy is sized as the notional divided by the price.

use crate::amount::Amount;
use crate::market_data::MarketDataPoint;
use crate::sma_cross::{averages, pushed, SimpleMovingAverageCrossStrategy};
use crate::strategy::Strategy;
use crate::types::{Order, Portfolio, PortfolioView, StrategyType};
use vstd::prelude::*;

verus! {

/// A crossover strategy together with its parameters as text.
pub struct SMAStrategy {
    pub crossover: SimpleMovingAverageCrossStrategy,
    pub parameters: Vec<(String, String)>,
}

impl SMAStrategy {
    /// A strategy for `symbol` with empty windows and no signal yet.
    /// `position_size` is the notional that a buy aims at.
    pub fn new(symbol: String, short_period: usize, long_period: usize, position_size: Amount) -> (r: SMAStrategy)
        requires
            position_size.wf(),
        ensures
            r.inv(),
            r.crossover.symbol == symbol,
            r.crossover.short_period == short_period,
            r.crossover.long_period == long_period,
            r.crossover.position_size == position_size,
            r.crossover.short_ma@.len() == 0,
            r.crossover.long_ma@.len() == 0,
            r.crossover.last_signal is None,
            r.parameters@.len() == 2,
            r.parameters@[0].0@ == "short_period"@,
            r.parameters@[1].0@ == "long_period"@,
    {
        let mut parameters: Vec<(String, String)> = Vec::new();
        parameters.push(("short_period".to_string(), short_period.to_string()));
        parameters.push(("long_period".to_string(), long_period.to_string()));
        SMAStrategy {
            crossover: SimpleMovingAverageCrossStrategy::new(symbol, short_period, long_period, position_size),
            parameters,
        }
    }

    /// Takes `price` into both windows and returns the short and the long average
    /// once the short window is full.
    pub fn calculate_ma(&mut self, price: Amount) -> (r: Option<(Amount, Amount)>)
        requires
            old(self).inv(),
            price.wf(),
        ensures
            final(self).crossover.short_ma@ == pushed(
                old(self).crossover.short_ma@,
                price,
                old(self).crossover.short_period as nat,
            ),
            final(self).crossover.long_ma@ == pushed(
                old(self).crossover.long_ma@,
                price,
                old(self).crossover.long_period as nat,
            ),
            r == averages(
                final(self).crossover.short_ma@,
                final(self).crossover.long_ma@,
                old(self).crossover.short_period as nat,
            ),
            r matches Some(pair) ==> pair.0.wf() && pair.1.wf(),
            final(self).inv(),
            final(self).crossover.symbol == old(self).crossover.symbol,
            final(self).crossover.short_period == old(self).crossover.short_period,
            final(self).crossover.long_period == old(self).crossover.long_period,
            final(self).crossover.position_size == old(self).crossover.position_size,
            final(self).crossover.last_signal == old(self).crossover.last_signal,
            final(self).parameters == old(self).parameters,
    {
        self.crossover.calculate_ma(price)
    }
}

impl Strategy for SMAStrategy {
    /// What the crossover strategy needs.
    open spec fn inv(&self) -> bool {
        self.crossover.inv()
    }

    /// The answers of the crossover strategy; the parameters stay.
    open spec fn answers(
        &self,
        data: MarketDataPoint,
        portfolio: PortfolioView,
        next: Self,
        orders: Seq<Order>,
    ) -> bool {
        &&& self.crossover.answers(data, portfolio, next.crossover, orders)
        &&& next.parameters == self.parameters
    }

    fn on_data(&mut self, data: &MarketDataPoint, portfolio: &Portfolio) -> (orders: Vec<Order>)
        ensures
            forall|i: int| 0 <= i < orders@.len() ==> (#[trigger] orders@[i]).wf(),
    {
        self.crossover.on_data(data, portfolio)
    }

    /// The parameters that the strategy was made with.
    fn get_parameters(&self) -> (r: Vec<(String, String)>)
        ensures
            r@ == self.parameters@,
    {
        let mut parameters: Vec<(String, String)> = Vec::new();
        let mut i: usize = 0;
        while i < self.parameters.len()
            invariant
                i <= self.parameters.len(),
                parameters@ == self.parameters@.take(i as int),
            decreases self.parameters.len() - i,
        {
            parameters.push((self.parameters[i].0.clone(), self.parameters[i].1.clone()));
            proof {
                assert(self.parameters@.take(i as int).push(self.parameters@[i as int]) =~= self.parameters@.take(
                    i + 1,
                ));
            }
            i += 1;
        }
        proof {
            assert(self.parameters@.take(self.parameters@.len() as int) =~= self.parameters@);
        }
        parameters
    }

    /// Always [`StrategyType::SMACross`].
    fn get_type(&self) -> (r: StrategyType)
        ensures
            r == StrategyType::SMACross,
    {
        StrategyType::SMACross
    }
}

} // verus!
