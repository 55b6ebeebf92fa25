//! The data model of a backtest: orders, trades, positions, the portfolio,
//! equity snapshots and the result of a run.
//!
//! Timestamps are microseconds since the Unix epoch.

use crate::amount::Amount;
use vstd::prelude::*;

verus! {

/// What a run is configured with.
#[derive(Debug, Clone)]
pub struct BacktestConfig {
    pub start_time: i64,
    pub end_time: i64,
    pub initial_capital: Amount,
    pub symbol: String,
    pub commission_rate: Amount,
}

/// The family a strategy belongs to.
#[derive(Debug, Clone)]
pub enum StrategyType {
    SMACross,
    RSI,
    MACD,
    BollingerBands,
    Custom(String),
}

/// How an order is priced.
#[derive(Debug, Clone, Copy)]
pub enum OrderType {
    Market,
    Limit(Amount),
}

/// The direction of an order or a trade.
#[derive(Debug, Clone, Copy, PartialEq, Eq, Structural)]
pub enum OrderSide {
    Buy,
    Sell,
}

/// A command from a strategy, alive only within the tick that produced it.
#[derive(Debug, Clone)]
pub struct Order {
    pub symbol: String,
    pub order_type: OrderType,
    pub side: OrderSide,
    pub quantity: Amount,
    pub timestamp: i64,
}

/// The record of an executed order.
#[derive(Debug, Clone)]
pub struct Trade {
    pub symbol: String,
    pub side: OrderSide,
    pub quantity: Amount,
    pub price: Amount,
    pub timestamp: i64,
    pub commission: Amount,
}

/// The holding in one symbol.
#[derive(Debug, Clone)]
pub struct Position {
    pub symbol: String,
    pub quantity: Amount,
    pub average_entry_price: Amount,
}

/// Cash, the open positions (one per symbol, in the order they were opened) and
/// the mark-to-market total.
#[derive(Debug, Clone)]
pub struct Portfolio {
    pub cash: Amount,
    pub positions: Vec<Position>,
    pub total_value: Amount,
}

/// The mathematical content of a [`Portfolio`].
pub struct PortfolioView {
    pub cash: Amount,
    pub positions: Seq<Position>,
    pub total_value: Amount,
}

/// The account's total value at one moment.
#[derive(Debug, Clone, Copy)]
pub struct EquityPoint {
    pub timestamp: i64,
    pub value: Amount,
}

/// Summary statistics of a finished run.
#[derive(Debug, Clone, Copy)]
pub struct Metrics {
    pub total_return: Amount,
    pub total_trades: usize,
    pub winning_trades: usize,
    pub losing_trades: usize,
    pub win_rate: Amount,
    pub profit_factor: Amount,
    pub max_drawdown: Amount,
    /// Seconds between the peak and the point of the deepest drawdown.
    pub max_drawdown_duration: i64,
    pub avg_profit_per_trade: Amount,
    pub total_commission: Amount,
    pub total_volume: Amount,
}

/// Everything a finished run hands back.
#[derive(Debug, Clone)]
pub struct BacktestResult {
    pub strategy_type: StrategyType,
    pub parameters: Vec<(String, String)>,
    pub metrics: Metrics,
    pub trades: Vec<Trade>,
    pub equity_curve: Vec<EquityPoint>,
}

/// A trade with every field rendered as text.
#[derive(Debug, Clone)]
pub struct TradeResponse {
    pub timestamp: String,
    pub symbol: String,
    pub side: String,
    pub quantity: String,
    pub price: String,
    pub commission: String,
}

/// The grades a strategy was given.
#[derive(Debug, Clone)]
pub struct StrategyScore {
    pub total_score: u32,
    pub return_score: u32,
    pub risk_score: u32,
    pub consistency_score: u32,
    pub uniqueness_score: u32,
    pub rating: StrategyRating,
}

/// The tier a score falls into.
#[derive(Debug, Clone, Copy, PartialEq, Eq, Structural)]
pub enum StrategyRating {
    Legendary,
    Epic,
    Rare,
    Common,
}

/// Whether the slot `i` of `positions` holds `symbol`.
pub open spec fn holds_at(positions: Seq<Position>, symbol: Seq<char>, i: int) -> bool {
    0 <= i < positions.len() && positions[i].symbol@ == symbol
}

/// Whether some position is in `symbol`.
pub open spec fn holds(positions: Seq<Position>, symbol: Seq<char>) -> bool {
    exists|i: int| holds_at(positions, symbol, i)
}

/// The slot of the position in `symbol`, where there is one.
pub open spec fn slot_of(positions: Seq<Position>, symbol: Seq<char>) -> int {
    choose|i: int| holds_at(positions, symbol, i)
}

/// No two positions share a symbol.
pub open spec fn distinct_symbols(positions: Seq<Position>) -> bool {
    forall|i: int, j: int|
        0 <= i < j < positions.len() ==> positions[i].symbol@ != positions[j].symbol@
}

/// Replacing a position by one in the same symbol keeps the symbols distinct.
pub proof fn lemma_update_keeps_distinct(positions: Seq<Position>, i: int, held: Position)
    requires
        distinct_symbols(positions),
        0 <= i < positions.len(),
        held.symbol@ == positions[i].symbol@,
    ensures
        distinct_symbols(positions.update(i, held)),
{
    let after = positions.update(i, held);
    assert forall|a: int, b: int| 0 <= a < b < after.len() implies after[a].symbol@
        != after[b].symbol@ by {
        assert(positions[a].symbol@ != positions[b].symbol@);
    }
}

/// Adding a position in a symbol that is not held keeps the symbols distinct.
pub proof fn lemma_push_keeps_distinct(positions: Seq<Position>, held: Position)
    requires
        distinct_symbols(positions),
        !holds(positions, held.symbol@),
    ensures
        distinct_symbols(positions.push(held)),
{
    let after = positions.push(held);
    assert forall|a: int, b: int| 0 <= a < b < after.len() implies after[a].symbol@
        != after[b].symbol@ by {
        if b == positions.len() {
            assert(!holds_at(positions, held.symbol@, a));
        } else {
            assert(positions[a].symbol@ != positions[b].symbol@);
        }
    }
}

/// Taking a position out keeps the symbols distinct.
pub proof fn lemma_remove_keeps_distinct(positions: Seq<Position>, i: int)
    requires
        distinct_symbols(positions),
        0 <= i < positions.len(),
    ensures
        distinct_symbols(positions.remove(i)),
{
    let after = positions.remove(i);
    assert forall|a: int, b: int| 0 <= a < b < after.len() implies after[a].symbol@
        != after[b].symbol@ by {
        let a0 = if a < i { a } else { a + 1 };
        let b0 = if b < i { b } else { b + 1 };
        assert(positions[a0].symbol@ != positions[b0].symbol@);
    }
}

/// The first slot of `positions` that holds `symbol`, if there is one.
pub fn find_slot(positions: &Vec<Position>, symbol: &String) -> (r: Option<usize>)
    ensures
        match r {
            Some(i) => holds_at(positions@, symbol@, i as int),
            None => !holds(positions@, symbol@),
        },
        distinct_symbols(positions@) && r.is_some() ==> r.unwrap() as int == slot_of(positions@, symbol@),
{
    let mut i: usize = 0;
    while i < positions.len()
        invariant
            i <= positions.len(),
            forall|j: int| 0 <= j < i ==> !holds_at(positions@, symbol@, j),
        decreases positions.len() - i,
    {
        if positions[i].symbol == *symbol {
            proof {
                assert(holds_at(positions@, symbol@, i as int));
                if distinct_symbols(positions@) {
                    let c = slot_of(positions@, symbol@);
                    assert(holds_at(positions@, symbol@, c));
                    assert(c == i as int);
                }
            }
            return Some(i);
        }
        i += 1;
    }
    None
}

impl Order {
    /// The quantity is a valid amount.
    pub open spec fn wf(&self) -> bool {
        self.quantity.wf()
    }
}

impl Trade {
    /// Every amount is valid.
    pub open spec fn wf(&self) -> bool {
        self.quantity.wf() && self.price.wf() && self.commission.wf()
    }

    /// A copy of the trade.
    pub fn duplicate(&self) -> (r: Trade)
        ensures
            r == *self,
    {
        Trade {
            symbol: self.symbol.clone(),
            side: self.side,
            quantity: self.quantity,
            price: self.price,
            timestamp: self.timestamp,
            commission: self.commission,
        }
    }
}

/// A copy of a list of trades.
pub fn duplicate_trades(trades: &Vec<Trade>) -> (r: Vec<Trade>)
    ensures
        r@ == trades@,
{
    let mut out: Vec<Trade> = Vec::new();
    let mut i: usize = 0;
    while i < trades.len()
        invariant
            i <= trades.len(),
            out@ == trades@.take(i as int),
        decreases trades.len() - i,
    {
        out.push(trades[i].duplicate());
        proof {
            assert(trades@.take(i as int).push(trades@[i as int]) =~= trades@.take(i + 1));
        }
        i += 1;
    }
    proof {
        assert(trades@.take(trades@.len() as int) =~= trades@);
    }
    out
}

/// A copy of an equity curve.
pub fn duplicate_points(points: &Vec<EquityPoint>) -> (r: Vec<EquityPoint>)
    ensures
        r@ == points@,
{
    let mut out: Vec<EquityPoint> = Vec::new();
    let mut i: usize = 0;
    while i < points.len()
        invariant
            i <= points.len(),
            out@ == points@.take(i as int),
        decreases points.len() - i,
    {
        out.push(points[i]);
        proof {
            assert(points@.take(i as int).push(points@[i as int]) =~= points@.take(i + 1));
        }
        i += 1;
    }
    proof {
        assert(points@.take(points@.len() as int) =~= points@);
    }
    out
}

impl Position {
    /// Valid amounts, and a quantity that is not negative.
    pub open spec fn wf(&self) -> bool {
        &&& self.quantity.wf()
        &&& self.average_entry_price.wf()
        &&& self.quantity.mantissa >= 0
    }
}

impl PortfolioView {
    /// Cash is not negative, no position is negative, no symbol occurs twice.
    pub open spec fn wf(&self) -> bool {
        &&& self.cash.wf()
        &&& self.cash.mantissa >= 0
        &&& self.total_value.wf()
        &&& forall|i: int| 0 <= i < self.positions.len() ==> (#[trigger] self.positions[i]).wf()
        &&& distinct_symbols(self.positions)
    }
}

impl View for Portfolio {
    type V = PortfolioView;

    open spec fn view(&self) -> PortfolioView {
        PortfolioView {
            cash: self.cash,
            positions: self.positions@,
            total_value: self.total_value,
        }
    }
}

impl Portfolio {
    /// Cash is not negative, no position is negative, no symbol occurs twice.
    pub open spec fn wf(&self) -> bool {
        self@.wf()
    }

    /// A portfolio that holds `cash` and nothing else.
    pub fn new(cash: Amount) -> (r: Portfolio)
        requires
            cash.wf(),
            cash.mantissa >= 0,
        ensures
            r.wf(),
            r.cash == cash,
            r.total_value == cash,
            r.positions@.len() == 0,
    {
        Portfolio { cash, positions: Vec::new(), total_value: cash }
    }

    /// The slot of the position in `symbol`, if one is held.
    pub fn find_position(&self, symbol: &String) -> (r: Option<usize>)
        ensures
            match r {
                Some(i) => holds_at(self.positions@, symbol@, i as int),
                None => !holds(self.positions@, symbol@),
            },
            self.wf() && r.is_some() ==> r.unwrap() as int == slot_of(self.positions@, symbol@),
    {
        find_slot(&self.positions, symbol)
    }

    /// Whether a position in `symbol` is held.
    pub fn has_position(&self, symbol: &String) -> (r: bool)
        ensures
            r == holds(self.positions@, symbol@),
    {
        self.find_position(symbol).is_some()
    }

    /// The quantity held in `symbol`, if any.
    pub fn held_quantity(&self, symbol: &String) -> (r: Option<Amount>)
        ensures
            r.is_some() == holds(self.positions@, symbol@),
            self.wf() && r.is_some() ==> r.unwrap() == self.positions@[slot_of(
                self.positions@,
                symbol@,
            )].quantity,
            r matches Some(q) ==> exists|i: int| holds_at(self.positions@, symbol@, i)
                && self.positions@[i].quantity == q,
    {
        match self.find_position(symbol) {
            Some(i) => Some(self.positions[i].quantity),
            None => None,
        }
    }
}

} // verus!
