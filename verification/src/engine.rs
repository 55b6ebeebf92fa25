//! The replay loop: it feeds a series of ticks to a strategy, executes the orders
//! that come back, marks the portfolio to market after every tick and records the
//! equity curve.

use crate::amount::Amount;
use crate::executor::{order_outcome, OrderExecutor};
use crate::market_data::MarketDataPoint;
use crate::metrics::{
    idle_metrics, lemma_flat_curve, metrics_of, points_wf, trades_wf, MetricsCalculator,
};
use crate::strategy::Strategy;
use crate::types::{
    duplicate_points, duplicate_trades, BacktestConfig, BacktestResult, EquityPoint, Order, Portfolio,
    PortfolioView, Position, Trade,
};
use vstd::prelude::*;

verus! {

/// Why a run ended without a result.
#[derive(Debug, Clone, Copy, PartialEq, Eq, Structural)]
pub enum BacktestError {
    /// The series holds no tick.
    EmptySeries,
    /// The engine has been run before; an engine serves one run.
    AlreadyRun,
    /// The portfolio's total value could not be represented.
    Valuation,
    /// A statistic of the run could not be represented.
    Metrics,
}

/// What a batch of orders, applied in order at one price, does to a portfolio, and
/// the trades it yields. An order whose quantity is no valid amount is passed over.
pub open spec fn orders_outcome(p: PortfolioView, orders: Seq<Order>, price: Amount, rate: Amount) -> (
    PortfolioView,
    Seq<Trade>,
)
    decreases orders.len(),
{
    if orders.len() == 0 {
        (p, Seq::empty())
    } else {
        let before = orders_outcome(p, orders.drop_last(), price, rate);
        let order = orders.last();
        if order.wf() {
            let step = order_outcome(before.0, order, price, rate);
            (
                step.0,
                match step.1 {
                    Some(t) => before.1.push(t),
                    None => before.1,
                },
            )
        } else {
            before
        }
    }
}

/// Zero plus `quantity * price` of each position, added in order.
pub open spec fn positions_value(positions: Seq<Position>, price: Amount) -> Option<Amount>
    decreases positions.len(),
{
    if positions.len() == 0 {
        Some(Amount { mantissa: 0, scale: 0 })
    } else {
        match (positions_value(positions.drop_last(), price), positions.last().quantity.spec_mul(price)) {
            (Some(a), Some(v)) => a.spec_add(v),
            _ => None,
        }
    }
}

/// The total value of a portfolio at `price`: the cash plus the value of the
/// positions; the cash itself where nothing is held.
pub open spec fn valuation(p: PortfolioView, price: Amount) -> Option<Amount> {
    if p.positions.len() == 0 {
        Some(p.cash)
    } else {
        match positions_value(p.positions, price) {
            Some(v) => p.cash.spec_add(v),
            None => None,
        }
    }
}

/// A batch of orders leaves cash and every quantity at or above zero.
pub proof fn lemma_orders_keep_solvent(p: PortfolioView, orders: Seq<Order>, price: Amount, rate: Amount)
    requires
        p.solvent(),
    ensures
        orders_outcome(p, orders, price, rate).0.solvent(),
    decreases orders.len(),
{
    if orders.len() > 0 {
        lemma_orders_keep_solvent(p, orders.drop_last(), price, rate);
        crate::executor::lemma_order_keeps_solvent(
            orders_outcome(p, orders.drop_last(), price, rate).0,
            orders.last(),
            price,
            rate,
        );
    }
}

/// A batch of orders that yields no trade leaves the portfolio exactly as it was.
pub proof fn lemma_no_trade_no_change(p: PortfolioView, orders: Seq<Order>, price: Amount, rate: Amount)
    requires
        orders_outcome(p, orders, price, rate).1.len() == 0,
    ensures
        orders_outcome(p, orders, price, rate).0 == p,
    decreases orders.len(),
{
    if orders.len() > 0 {
        lemma_no_trade_no_change(p, orders.drop_last(), price, rate);
    }
}

/// A batch of orders yields at most one trade per order.
pub proof fn lemma_trades_bounded_by_orders(p: PortfolioView, orders: Seq<Order>, price: Amount, rate: Amount)
    ensures
        orders_outcome(p, orders, price, rate).1.len() <= orders.len(),
    decreases orders.len(),
{
    if orders.len() > 0 {
        lemma_trades_bounded_by_orders(p, orders.drop_last(), price, rate);
    }
}

/// What a run has built up after some of its ticks.
pub struct ReplayState {
    pub portfolio: PortfolioView,
    pub trades: Seq<Trade>,
    pub points: Seq<EquityPoint>,
}

/// The state a run starts from: the initial capital in cash, no trade, and the
/// opening point of the equity curve.
pub open spec fn opening_state(config: BacktestConfig) -> ReplayState {
    ReplayState {
        portfolio: PortfolioView {
            cash: config.initial_capital,
            positions: Seq::empty(),
            total_value: config.initial_capital,
        },
        trades: Seq::empty(),
        points: seq![EquityPoint { timestamp: config.start_time, value: config.initial_capital }],
    }
}

/// One tick of a run: the orders are executed in order at the tick's price, the
/// portfolio is marked to market at that price, and the total is appended to the
/// equity curve. `None` where the total cannot be represented.
///
/// A tick that holds a number without a decimal representation fails: none of
/// its orders is processed, the portfolio stays, and the equity curve repeats
/// the total value at the tick's time.
pub open spec fn tick_outcome(s: ReplayState, data: MarketDataPoint, orders: Seq<Order>, rate: Amount) -> Option<
    ReplayState,
> {
    if !data.wf() {
        Some(
            ReplayState {
                points: s.points.push(
                    EquityPoint { timestamp: data.timestamp, value: s.portfolio.total_value },
                ),
                ..s
            },
        )
    } else {
        let after = orders_outcome(s.portfolio, orders, data.price, rate);
        match valuation(after.0, data.price) {
            Some(v) => Some(
                ReplayState {
                    portfolio: PortfolioView { total_value: v, ..after.0 },
                    trades: s.trades + after.1,
                    points: s.points.push(EquityPoint { timestamp: data.timestamp, value: v }),
                },
            ),
            None => None,
        }
    }
}

/// The run over the first ticks of `series`, one for each batch of orders, where
/// `batches[k]` are the orders placed at `series[k]`.
pub open spec fn replay(
    start: ReplayState,
    series: Seq<MarketDataPoint>,
    batches: Seq<Seq<Order>>,
    rate: Amount,
) -> Option<ReplayState>
    recommends
        batches.len() <= series.len(),
    decreases batches.len(),
{
    if batches.len() == 0 {
        Some(start)
    } else {
        match replay(start, series, batches.drop_last(), rate) {
            Some(s) => tick_outcome(s, series[batches.len() - 1], batches.last(), rate),
            None => None,
        }
    }
}

/// Whether a strategy may take this course over the first ticks of `series`:
/// standing at `states[k]` it answers `series[k]`, seeing the portfolio as the
/// run has left it so far, with the orders `batches[k]`, and stands at
/// `states[k + 1]` afterwards. A tick that fails is not shown to the strategy:
/// the strategy stays where it stands and there are no orders.
pub open spec fn follows<S: Strategy>(
    states: Seq<S>,
    batches: Seq<Seq<Order>>,
    series: Seq<MarketDataPoint>,
    start: ReplayState,
    rate: Amount,
) -> bool
    recommends
        states.len() == batches.len() + 1,
        batches.len() <= series.len(),
    decreases batches.len(),
{
    if batches.len() == 0 {
        true
    } else {
        &&& follows(states.drop_last(), batches.drop_last(), series, start, rate)
        &&& match replay(start, series, batches.drop_last(), rate) {
            Some(s) => if series[batches.len() - 1].wf() {
                states[batches.len() - 1].answers(
                    series[batches.len() - 1],
                    s.portfolio,
                    states[batches.len() as int],
                    batches.last(),
                )
            } else {
                states[batches.len() as int] == states[batches.len() - 1] && batches.last().len() == 0
            },
            None => false,
        }
    }
}

/// Whether a run over all of `series` that ends in `end` is one that the
/// strategy may make on its way from `first` to `last`.
pub open spec fn run_of<S: Strategy>(
    first: S,
    last: S,
    config: BacktestConfig,
    series: Seq<MarketDataPoint>,
    end: ReplayState,
) -> bool {
    exists|states: Seq<S>, batches: Seq<Seq<Order>>|
        {
            &&& #[trigger] follows(states, batches, series, opening_state(config), config.commission_rate)
            &&& batches.len() == series.len()
            &&& states.len() == series.len() + 1
            &&& states[0] == first
            &&& states.last() == last
            &&& replay(opening_state(config), series, batches, config.commission_rate) == Some(end)
        }
}

/// Whether a run that breaks off in `end`, at a total value that cannot be
/// represented, is one that the strategy may make on its way from `first` to
/// `last`: the strategy's course leads up to a tick whose orders are executed
/// and whose total value then fails.
pub open spec fn failed_run_of<S: Strategy>(
    first: S,
    last: S,
    config: BacktestConfig,
    series: Seq<MarketDataPoint>,
    end: ReplayState,
) -> bool {
    exists|states: Seq<S>, batches: Seq<Seq<Order>>|
        {
            &&& #[trigger] follows(states, batches, series, opening_state(config), config.commission_rate)
            &&& 0 < batches.len() <= series.len()
            &&& states.len() == batches.len() + 1
            &&& states[0] == first
            &&& states.last() == last
            &&& replay(opening_state(config), series, batches, config.commission_rate) is None
            &&& replay(opening_state(config), series, batches.drop_last(), config.commission_rate) matches Some(
                m,
            ) && end == broken_off(m, series[batches.len() - 1], batches.last(), config.commission_rate)
        }
}

/// The state in which a tick leaves the run whose total value fails: the orders
/// have been executed, no point has been recorded.
pub open spec fn broken_off(m: ReplayState, data: MarketDataPoint, orders: Seq<Order>, rate: Amount) -> ReplayState {
    let after = orders_outcome(m.portfolio, orders, data.price, rate);
    ReplayState { portfolio: after.0, trades: m.trades + after.1, points: m.points }
}

/// What a run leaves behind, whatever the strategy answered.
///
/// An engine that has run before refuses and stays as it was. An empty series is
/// refused after the opening equity point has been recorded. Otherwise the run
/// fails where a total value or a statistic cannot be represented. A result
/// carries the trades and the equity curve of the engine: one point for the
/// start, at the initial capital, and one per tick, at the tick's time; the last
/// one is the portfolio's total value, which is the cash plus the positions at
/// the last price where the last tick did not fail. Its statistics are those of
/// its trades and its curve. Where no trade was made, every point is at the
/// initial capital and the statistics are those of an idle run. The
/// configuration, the executor and the calculator stay.
pub open spec fn run_outcome(
    pre: BacktestEngine,
    post: BacktestEngine,
    series: Seq<MarketDataPoint>,
    r: Result<BacktestResult, BacktestError>,
) -> bool {
    let opening = EquityPoint {
        timestamp: pre.config.start_time,
        value: pre.config.initial_capital,
    };
    &&& post.wf()
    &&& post.started
    &&& post.config == pre.config
    &&& post.executor == pre.executor
    &&& post.metrics_calculator == pre.metrics_calculator
    &&& (r == Err::<BacktestResult, BacktestError>(BacktestError::AlreadyRun)) == pre.started
    &&& (r == Err::<BacktestResult, BacktestError>(BacktestError::EmptySeries)) == (!pre.started
        && series.len() == 0)
    &&& pre.started ==> post == pre
    &&& !pre.started ==> post.equity_points@.len() > 0 && post.equity_points@[0] == opening
    &&& !pre.started && series.len() == 0 ==> post.equity_points@.len() == 1 && post.trades@.len() == 0
    &&& r == Err::<BacktestResult, BacktestError>(BacktestError::Metrics) ==> metrics_of(
        post.trades@,
        post.equity_points@,
    ) is None
    &&& r matches Ok(res) ==> {
        &&& res.trades@ == post.trades@
        &&& res.equity_curve@ == post.equity_points@
        &&& res.equity_curve@.len() == series.len() + 1
        &&& forall|k: int|
            0 <= k < series.len() ==> (#[trigger] res.equity_curve@[k + 1]).timestamp == series[k].timestamp
        &&& res.equity_curve@.last().value == post.portfolio.total_value
        &&& series.last().wf() ==> post.valued_at(series.last().price)
        &&& metrics_of(res.trades@, res.equity_curve@) == Some(res.metrics)
        &&& res.trades@.len() == 0 ==> forall|k: int|
            0 <= k < res.equity_curve@.len() ==> (#[trigger] res.equity_curve@[k]).value
                == pre.config.initial_capital
        &&& res.trades@.len() == 0 ==> res.metrics == idle_metrics()
    }
}

/// One run of a strategy over a series of ticks.
pub struct BacktestEngine {
    pub config: BacktestConfig,
    pub portfolio: Portfolio,
    pub trades: Vec<Trade>,
    pub executor: OrderExecutor,
    pub metrics_calculator: MetricsCalculator,
    pub equity_points: Vec<EquityPoint>,
    pub started: bool,
}

impl BacktestEngine {
    /// The engine's parts fit together; before the run nothing has been recorded
    /// and the portfolio holds the initial capital in cash.
    pub open spec fn wf(&self) -> bool {
        &&& self.config.initial_capital.wf()
        &&& self.config.initial_capital.mantissa >= 0
        &&& self.executor.wf()
        &&& self.executor.commission_rate == self.config.commission_rate
        &&& self.portfolio.wf()
        &&& trades_wf(self.trades@)
        &&& points_wf(self.equity_points@)
        &&& !self.started ==> {
            &&& self.trades@.len() == 0
            &&& self.equity_points@.len() == 0
            &&& self.portfolio.positions@.len() == 0
            &&& self.portfolio.cash == self.config.initial_capital
            &&& self.portfolio.total_value == self.config.initial_capital
        }
    }

    /// What the run has built up so far.
    pub open spec fn state(&self) -> ReplayState {
        ReplayState { portfolio: self.portfolio@, trades: self.trades@, points: self.equity_points@ }
    }

    /// The total value is the cash plus the positions at `price`.
    pub open spec fn valued_at(&self, price: Amount) -> bool {
        valuation(self.portfolio@, price) == Some(self.portfolio.total_value)
    }

    /// An engine ready for its run: the initial capital in cash, no position, no
    /// trade, no equity point.
    pub fn new(config: BacktestConfig) -> (r: BacktestEngine)
        requires
            config.initial_capital.wf(),
            config.initial_capital.mantissa >= 0,
            config.commission_rate.wf(),
        ensures
            r.wf(),
            !r.started,
            r.config == config,
    {
        let portfolio = Portfolio::new(config.initial_capital);
        let executor = OrderExecutor::new(config.commission_rate);
        BacktestEngine {
            config,
            portfolio,
            trades: Vec::new(),
            executor,
            metrics_calculator: MetricsCalculator::new(),
            equity_points: Vec::new(),
            started: false,
        }
    }

    /// Executes `orders` in order at the tick's price. Each accepted order changes
    /// the portfolio and adds its trade to the list; a rejected one changes nothing.
    pub fn apply_orders(&mut self, orders: &Vec<Order>, data: &MarketDataPoint)
        requires
            old(self).wf(),
            old(self).started,
            data.price.wf(),
        ensures
            final(self).portfolio@ == orders_outcome(
                old(self).portfolio@,
                orders@,
                data.price,
                old(self).config.commission_rate,
            ).0,
            final(self).trades@ == old(self).trades@ + orders_outcome(
                old(self).portfolio@,
                orders@,
                data.price,
                old(self).config.commission_rate,
            ).1,
            final(self).wf(),
            final(self).config == old(self).config,
            final(self).executor == old(self).executor,
            final(self).metrics_calculator == old(self).metrics_calculator,
            final(self).equity_points == old(self).equity_points,
            final(self).started,
            final(self).trades@.len() == old(self).trades@.len() ==> final(self).portfolio == old(
                self,
            ).portfolio,
    {
        let ghost rate = self.config.commission_rate;
        let ghost start = self.portfolio@;
        let mut i: usize = 0;
        while i < orders.len()
            invariant
                i <= orders.len(),
                self.wf(),
                self.started,
                data.price.wf(),
                self.config == old(self).config,
                self.executor == old(self).executor,
                self.metrics_calculator == old(self).metrics_calculator,
                self.equity_points == old(self).equity_points,
                rate == self.config.commission_rate,
                start == old(self).portfolio@,
                self.portfolio@ == orders_outcome(start, orders@.take(i as int), data.price, rate).0,
                self.trades@ == old(self).trades@ + orders_outcome(
                    start,
                    orders@.take(i as int),
                    data.price,
                    rate,
                ).1,
                self.trades@.len() == old(self).trades@.len() ==> self.portfolio == old(self).portfolio,
            decreases orders.len() - i,
        {
            proof {
                assert(orders@.take(i + 1).drop_last() =~= orders@.take(i as int));
            }
            let ghost made = orders_outcome(start, orders@.take(i as int), data.price, rate).1;
            if orders[i].quantity.is_valid() {
                match self.executor.execute_order(&orders[i], data, &mut self.portfolio) {
                    Some(trade) => {
                        self.trades.push(trade);
                        proof {
                            assert(self.trades@ =~= old(self).trades@ + made.push(trade));
                        }
                    },
                    None => {},
                }
            }
            i += 1;
        }
        proof {
            assert(orders@.take(orders@.len() as int) =~= orders@);
        }
    }

    /// Zero plus `quantity * price` of each position; `None` where that cannot be
    /// represented.
    pub fn positions_value_at(&self, price: Amount) -> (r: Option<Amount>)
        requires
            self.portfolio.wf(),
            price.wf(),
        ensures
            r == positions_value(self.portfolio.positions@, price),
            r matches Some(v) ==> v.wf(),
    {
        let mut acc: Option<Amount> = Some(Amount::zero());
        let mut i: usize = 0;
        while i < self.portfolio.positions.len()
            invariant
                i <= self.portfolio.positions.len(),
                self.portfolio.wf(),
                price.wf(),
                acc == positions_value(self.portfolio.positions@.take(i as int), price),
                acc matches Some(v) ==> v.wf(),
            decreases self.portfolio.positions.len() - i,
        {
            proof {
                assert(self.portfolio.positions@.take(i + 1).drop_last() =~= self.portfolio.positions@.take(
                    i as int,
                ));
                assert(self.portfolio.positions@[i as int].wf());
            }
            let value = self.portfolio.positions[i].quantity.checked_mul(price);
            acc = match (acc, value) {
                (Some(a), Some(v)) => a.checked_add(v),
                _ => None,
            };
            i += 1;
        }
        proof {
            assert(self.portfolio.positions@.take(self.portfolio.positions@.len() as int)
                =~= self.portfolio.positions@);
        }
        acc
    }

    /// Marks the portfolio to market at the tick's price: the total value becomes
    /// the cash plus the value of the positions at that price, and nothing else
    /// changes. Returns whether the total could be represented; if not, the
    /// portfolio stays as it was.
    pub fn update_portfolio_value(&mut self, data: &MarketDataPoint) -> (ok: bool)
        requires
            old(self).wf(),
            data.price.wf(),
        ensures
            match valuation(old(self).portfolio@, data.price) {
                Some(v) => ok && final(self).portfolio@ == (PortfolioView {
                    total_value: v,
                    ..old(self).portfolio@
                }) && final(self).valued_at(data.price),
                None => !ok && final(self).portfolio == old(self).portfolio,
            },
            final(self).wf(),
            final(self).started == old(self).started,
            final(self).config == old(self).config,
            final(self).executor == old(self).executor,
            final(self).metrics_calculator == old(self).metrics_calculator,
            final(self).trades == old(self).trades,
            final(self).equity_points == old(self).equity_points,
            final(self).portfolio.cash == old(self).portfolio.cash,
            final(self).portfolio.positions == old(self).portfolio.positions,
    {
        let total = if self.portfolio.positions.len() == 0 {
            Some(self.portfolio.cash)
        } else {
            match self.positions_value_at(data.price) {
                Some(v) => self.portfolio.cash.checked_add(v),
                None => None,
            }
        };
        match total {
            Some(v) => {
                self.portfolio.total_value = v;
                true
            },
            None => false,
        }
    }

    /// Appends a snapshot to the equity curve.
    pub fn record_equity_point(&mut self, timestamp: i64, value: Amount)
        requires
            old(self).wf(),
            old(self).started,
            value.wf(),
        ensures
            final(self).equity_points@ == old(self).equity_points@.push(EquityPoint { timestamp, value }),
            final(self).wf(),
            final(self).started,
            final(self).config == old(self).config,
            final(self).executor == old(self).executor,
            final(self).metrics_calculator == old(self).metrics_calculator,
            final(self).trades == old(self).trades,
            final(self).portfolio == old(self).portfolio,
    {
        self.equity_points.push(EquityPoint { timestamp, value });
    }

    /// One tick of the replay, given the orders the strategy placed at it: the
    /// orders are executed in order, the portfolio is marked to market at the
    /// tick's price and the total is appended to the equity curve; see
    /// [`tick_outcome`]. Where the total cannot be represented the orders have
    /// been executed, but no point is recorded. For a tick that holds a number
    /// without a decimal representation no order is processed and the curve
    /// repeats the total value.
    pub fn process_tick(&mut self, data: &MarketDataPoint, orders: &Vec<Order>) -> (r: Result<(), BacktestError>)
        requires
            old(self).wf(),
            old(self).started,
        ensures
            match tick_outcome(old(self).state(), *data, orders@, old(self).config.commission_rate) {
                Some(s) => r is Ok && final(self).state() == s && (data.wf() ==> final(self).valued_at(
                    data.price,
                )),
                None => {
                    &&& r == Err::<(), BacktestError>(BacktestError::Valuation)
                    &&& final(self).state() == broken_off(
                        old(self).state(),
                        *data,
                        orders@,
                        old(self).config.commission_rate,
                    )
                },
            },
            final(self).wf(),
            final(self).started,
            final(self).config == old(self).config,
            final(self).executor == old(self).executor,
            final(self).metrics_calculator == old(self).metrics_calculator,
            final(self).trades@.len() == old(self).trades@.len() ==> final(self).portfolio.cash == old(
                self,
            ).portfolio.cash && final(self).portfolio.positions == old(self).portfolio.positions,
    {
        if !data.is_valid() {
            let total = self.portfolio.total_value;
            self.record_equity_point(data.timestamp, total);
            return Ok(());
        }
        self.apply_orders(orders, data);
        if self.update_portfolio_value(data) {
            let total = self.portfolio.total_value;
            self.record_equity_point(data.timestamp, total);
            Ok(())
        } else {
            Err(BacktestError::Valuation)
        }
    }

    /// Replays `series` through `strategy` and returns the trades, the equity curve
    /// and the statistics of the run. The series is taken in the order given.
    pub fn run_strategy<S: Strategy>(&mut self, strategy: &mut S, series: &Vec<MarketDataPoint>) -> (r: Result<
        BacktestResult,
        BacktestError,
    >)
        requires
            old(self).wf(),
            old(strategy).inv(),
        ensures
            run_outcome(*old(self), *final(self), series@, r),
            r is Ok || r == Err::<BacktestResult, BacktestError>(BacktestError::Metrics) ==> run_of(
                *old(strategy),
                *final(strategy),
                old(self).config,
                series@,
                final(self).state(),
            ),
            r == Err::<BacktestResult, BacktestError>(BacktestError::Valuation) ==> failed_run_of(
                *old(strategy),
                *final(strategy),
                old(self).config,
                series@,
                final(self).state(),
            ),
            r == Err::<BacktestResult, BacktestError>(BacktestError::AlreadyRun) || r == Err::<
                BacktestResult,
                BacktestError,
            >(BacktestError::EmptySeries) ==> *final(strategy) == *old(strategy),
            final(strategy).inv(),
    {
        if self.started {
            return Err(BacktestError::AlreadyRun);
        }
        self.started = true;
        let start_time = self.config.start_time;
        let capital = self.portfolio.total_value;
        self.record_equity_point(start_time, capital);
        if series.len() == 0 {
            return Err(BacktestError::EmptySeries);
        }
        let ghost start = opening_state(self.config);
        let ghost rate = self.config.commission_rate;
        let ghost mut batches: Seq<Seq<Order>> = Seq::empty();
        let ghost mut states: Seq<S> = seq![*strategy];
        proof {
            assert(self.equity_points@ =~= start.points);
            assert(self.trades@ =~= start.trades);
            assert(self.portfolio.positions@ =~= start.portfolio.positions);
        }
        let mut i: usize = 0;
        while i < series.len()
            invariant
                i <= series.len(),
                start == opening_state(old(self).config),
                rate == old(self).config.commission_rate,
                batches.len() == i,
                states.len() == i + 1,
                states[0] == *old(strategy),
                states.last() == *strategy,
                follows(states, batches, series@, start, rate),
                replay(start, series@, batches, rate) == Some(self.state()),
                self.wf(),
                self.started,
                strategy.inv(),
                self.config == old(self).config,
                self.executor == old(self).executor,
                self.metrics_calculator == old(self).metrics_calculator,
                !old(self).started,
                capital == self.config.initial_capital,
                start_time == self.config.start_time,
                self.equity_points@.len() == i + 1,
                self.equity_points@[0] == (EquityPoint { timestamp: start_time, value: capital }),
                forall|k: int|
                    0 <= k < i ==> (#[trigger] self.equity_points@[k + 1]).timestamp == series@[k].timestamp,
                i > 0 && series@[i - 1].wf() ==> self.valued_at(series@[i - 1].price),
                self.equity_points@.last().value == self.portfolio.total_value,
                self.trades@.len() == 0 ==> {
                    &&& self.portfolio.positions@.len() == 0
                    &&& self.portfolio.cash == capital
                    &&& self.portfolio.total_value == capital
                    &&& forall|k: int|
                        0 <= k < self.equity_points@.len() ==> (#[trigger] self.equity_points@[k]).value
                            == capital
                },
            decreases series.len() - i,
        {
            let ghost before = self.state();
            let orders = if series[i].is_valid() {
                strategy.on_data(&series[i], &self.portfolio)
            } else {
                Vec::new()
            };
            proof {
                assert(batches.push(orders@).drop_last() =~= batches);
                assert(states.push(*strategy).drop_last() =~= states);
                batches = batches.push(orders@);
                states = states.push(*strategy);
                assert(replay(start, series@, batches.drop_last(), rate) == Some(before));
                assert(follows(states, batches, series@, start, rate));
            }
            match self.process_tick(&series[i], &orders) {
                Err(e) => {
                    proof {
                        assert(replay(start, series@, batches, rate) is None);
                        assert(replay(start, series@, batches.drop_last(), rate) == Some(before));
                        assert(batches.last() == orders@);
                        assert(self.state() == broken_off(before, series@[i as int], batches.last(), rate));
                        assert(states[0] == *old(strategy) && states.last() == *strategy);
                    }
                    return Err(e);
                },
                Ok(()) => {},
            }
            i += 1;
        }
        proof {
            if self.trades@.len() == 0 {
                lemma_flat_curve(self.equity_points@, capital);
                assert(self.trades@ =~= Seq::<Trade>::empty());
            }
        }
        let metrics = match self.metrics_calculator.calculate(&self.trades, &self.equity_points, &self.config) {
            Some(m) => m,
            None => {
                return Err(BacktestError::Metrics);
            },
        };
        Ok(
            BacktestResult {
                strategy_type: strategy.get_type(),
                parameters: strategy.get_parameters(),
                metrics,
                trades: duplicate_trades(&self.trades),
                equity_curve: duplicate_points(&self.equity_points),
            },
        )
    }

    /// The same as [`BacktestEngine::run_strategy`].
    pub fn run<S: Strategy>(&mut self, strategy: &mut S, series: &Vec<MarketDataPoint>) -> (r: Result<
        BacktestResult,
        BacktestError,
    >)
        requires
            old(self).wf(),
            old(strategy).inv(),
        ensures
            run_outcome(*old(self), *final(self), series@, r),
            r is Ok || r == Err::<BacktestResult, BacktestError>(BacktestError::Metrics) ==> run_of(
                *old(strategy),
                *final(strategy),
                old(self).config,
                series@,
                final(self).state(),
            ),
            r == Err::<BacktestResult, BacktestError>(BacktestError::Valuation) ==> failed_run_of(
                *old(strategy),
                *final(strategy),
                old(self).config,
                series@,
                final(self).state(),
            ),
            r == Err::<BacktestResult, BacktestError>(BacktestError::AlreadyRun) || r == Err::<
                BacktestResult,
                BacktestError,
            >(BacktestError::EmptySeries) ==> *final(strategy) == *old(strategy),
            final(strategy).inv(),
    {
        self.run_strategy(strategy, series)
    }

    /// The equity curve recorded so far.
    pub fn get_equity_curve(&self) -> (r: Vec<EquityPoint>)
        ensures
            r@ == self.equity_points@,
    {
        duplicate_points(&self.equity_points)
    }
}

} // verus!
