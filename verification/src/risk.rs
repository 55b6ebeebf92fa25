//! Limits on the size of a trade, graded by how risky the market is judged to be.

use crate::amount::Amount;
use vstd::prelude::*;

verus! {

/// The direction a market is judged to move in.
#[derive(Debug, Clone, Copy, PartialEq, Eq, Structural)]
pub enum TrendDirection {
    Bullish,
    Bearish,
    Sideways,
}

/// How risky a market is judged to be.
#[derive(Debug, Clone, Copy, PartialEq, Eq, Structural)]
pub enum RiskLevel {
    Low,
    Medium,
    High,
    Extreme,
}

/// What an indicator or an adviser suggests.
#[derive(Debug, Clone, Copy, PartialEq, Eq, Structural)]
pub enum Signal {
    Buy,
    Sell,
    Neutral,
}

/// The share of the largest position that a trade may take at a risk level, where
/// the level caps it: half at high risk, seven tenths at medium risk.
pub open spec fn risk_cap(level: RiskLevel) -> Option<Amount> {
    match level {
        RiskLevel::High => Some(Amount { mantissa: 5, scale: 1 }),
        RiskLevel::Medium => Some(Amount { mantissa: 7, scale: 1 }),
        _ => None,
    }
}

/// Whether a trade of `order_size` is allowed: never above `max_position_size`,
/// never at extreme risk, and at high or medium risk only up to the capped share
/// of `max_position_size`.
pub open spec fn trade_allowed(max_position_size: Amount, order_size: Amount, level: RiskLevel) -> bool {
    if order_size.spec_gt(max_position_size) {
        false
    } else {
        match level {
            RiskLevel::Extreme => false,
            RiskLevel::Low => true,
            _ => match max_position_size.spec_mul(risk_cap(level).unwrap()) {
                Some(limit) => !order_size.spec_gt(limit),
                None => false,
            },
        }
    }
}

/// The factor by which a risk level scales a position: 1, 0.7, 0.5, 0.2 from low
/// to extreme.
pub open spec fn risk_multiplier(level: RiskLevel) -> Amount {
    match level {
        RiskLevel::Low => Amount { mantissa: 1, scale: 0 },
        RiskLevel::Medium => Amount { mantissa: 7, scale: 1 },
        RiskLevel::High => Amount { mantissa: 5, scale: 1 },
        RiskLevel::Extreme => Amount { mantissa: 2, scale: 1 },
    }
}

/// `portfolio_value * risk_per_trade * multiplier * strength`, at most
/// `max_position_size`; a strength that is not given counts as 0.5.
pub open spec fn position_size_of(
    max_position_size: Amount,
    risk_per_trade: Amount,
    strength: Option<Amount>,
    level: RiskLevel,
    portfolio_value: Amount,
) -> Option<Amount> {
    let strength = match strength {
        Some(s) => s,
        None => Amount { mantissa: 5, scale: 1 },
    };
    match portfolio_value.spec_mul(risk_per_trade) {
        Some(base) => match base.spec_mul(risk_multiplier(level)) {
            Some(scaled) => match scaled.spec_mul(strength) {
                Some(size) => if size.spec_gt(max_position_size) {
                    Some(max_position_size)
                } else {
                    Some(size)
                },
                None => None,
            },
            None => None,
        },
        None => None,
    }
}

/// Decides whether a trade may be placed and how large a position may be.
#[derive(Debug, Clone, Copy)]
pub struct RiskManager {
    pub max_position_size: Amount,
    pub max_drawdown: Amount,
    pub risk_per_trade: Amount,
}

impl RiskManager {
    /// Every limit is a valid amount.
    pub open spec fn wf(&self) -> bool {
        self.max_position_size.wf() && self.max_drawdown.wf() && self.risk_per_trade.wf()
    }

    /// A manager with the given limits.
    pub fn new(max_position_size: Amount, max_drawdown: Amount, risk_per_trade: Amount) -> (r: RiskManager)
        ensures
            r == (RiskManager { max_position_size, max_drawdown, risk_per_trade }),
    {
        RiskManager { max_position_size, max_drawdown, risk_per_trade }
    }

    /// Whether a trade of `order_size` may be placed at the given risk level.
    pub fn validate_trade(&self, order_size: Amount, current_portfolio_value: Amount, risk_level: RiskLevel) -> (r:
        bool)
        requires
            self.wf(),
            order_size.wf(),
        ensures
            r == trade_allowed(self.max_position_size, order_size, risk_level),
    {
        if order_size.gt(self.max_position_size) {
            return false;
        }
        let cap = match risk_level {
            RiskLevel::Extreme => {
                return false;
            },
            RiskLevel::Low => {
                return true;
            },
            RiskLevel::High => Amount::new(5, 1),
            RiskLevel::Medium => Amount::new(7, 1),
        };
        match self.max_position_size.checked_mul(cap) {
            Some(limit) => !order_size.gt(limit),
            None => false,
        }
    }

    /// The size of a position for a signal of the given strength; `None` where it
    /// cannot be represented.
    pub fn calculate_position_size(
        &self,
        signal_strength: Option<Amount>,
        risk_level: RiskLevel,
        portfolio_value: Amount,
    ) -> (r: Option<Amount>)
        requires
            self.wf(),
            portfolio_value.wf(),
            signal_strength matches Some(s) ==> s.wf(),
        ensures
            r == position_size_of(
                self.max_position_size,
                self.risk_per_trade,
                signal_strength,
                risk_level,
                portfolio_value,
            ),
            r matches Some(v) ==> v.wf(),
    {
        let multiplier = match risk_level {
            RiskLevel::Low => Amount::new(1, 0),
            RiskLevel::Medium => Amount::new(7, 1),
            RiskLevel::High => Amount::new(5, 1),
            RiskLevel::Extreme => Amount::new(2, 1),
        };
        let strength = match signal_strength {
            Some(s) => s,
            None => Amount::new(5, 1),
        };
        let base = portfolio_value.checked_mul(self.risk_per_trade)?;
        let scaled = base.checked_mul(multiplier)?;
        let size = scaled.checked_mul(strength)?;
        if size.gt(self.max_position_size) {
            Some(self.max_position_size)
        } else {
            Some(size)
        }
    }
}

} // verus!
