//! One tick of historical market data.

use crate::amount::Amount;
use vstd::prelude::*;

verus! {

/// A snapshot of the market for one symbol at one moment. Prices and volume are
/// fixed-point amounts; the timestamp is in microseconds since the Unix epoch.
#[derive(Debug, Clone)]
pub struct MarketDataPoint {
    pub timestamp: i64,
    pub symbol: String,
    pub price: Amount,
    pub volume: Amount,
    pub high: Amount,
    pub low: Amount,
    pub open: Amount,
    pub close: Amount,
}

impl MarketDataPoint {
    /// Every amount is valid. A tick for which this does not hold has failed: one
    /// of its numbers had no decimal representation.
    pub open spec fn wf(&self) -> bool {
        &&& self.price.wf()
        &&& self.volume.wf()
        &&& self.high.wf()
        &&& self.low.wf()
        &&& self.open.wf()
        &&& self.close.wf()
    }

    /// A tick from its parts.
    pub fn new(
        timestamp: i64,
        symbol: String,
        price: Amount,
        volume: Amount,
        high: Amount,
        low: Amount,
        open: Amount,
        close: Amount,
    ) -> (r: MarketDataPoint)
        ensures
            r == (MarketDataPoint { timestamp, symbol, price, volume, high, low, open, close }),
    {
        MarketDataPoint { timestamp, symbol, price, volume, high, low, open, close }
    }

    /// Whether every number of the tick has a decimal representation.
    pub fn is_valid(&self) -> (r: bool)
        ensures
            r == self.wf(),
    {
        self.price.is_valid() && self.volume.is_valid() && self.high.is_valid() && self.low.is_valid()
            && self.open.is_valid() && self.close.is_valid()
    }

    /// A copy of the tick.
    pub fn duplicate(&self) -> (r: MarketDataPoint)
        ensures
            r == *self,
    {
        MarketDataPoint {
            timestamp: self.timestamp,
            symbol: self.symbol.clone(),
            price: self.price,
            volume: self.volume,
            high: self.high,
            low: self.low,
            open: self.open,
            close: self.close,
        }
    }
}

} // verus!
