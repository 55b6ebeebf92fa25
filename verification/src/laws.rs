//! What holds of every run, whatever the ticks and whatever the orders, and what
//! holds of the runs of a strategy that has one answer to every tick.

use crate::amount::Amount;
use crate::engine::{
    broken_off, failed_run_of, follows, lemma_no_trade_no_change, lemma_orders_keep_solvent, opening_state,
    orders_outcome, replay, run_of, tick_outcome, valuation, ReplayState,
};
use crate::market_data::MarketDataPoint;
use crate::metrics::{idle_metrics, lemma_flat_curve, metrics_of};
use crate::sma::SMAStrategy;
use crate::sma_cross::SimpleMovingAverageCrossStrategy;
use crate::strategy::Strategy;
use crate::types::{BacktestConfig, EquityPoint, Order, PortfolioView, Trade};
use vstd::prelude::*;

verus! {

/// After every tick of a run that starts with cash and quantities at or above
/// zero, cash and every quantity are still at or above zero.
pub proof fn lemma_replay_keeps_solvent(
    start: ReplayState,
    series: Seq<MarketDataPoint>,
    batches: Seq<Seq<Order>>,
    rate: Amount,
)
    requires
        start.portfolio.solvent(),
        batches.len() <= series.len(),
    ensures
        replay(start, series, batches, rate) matches Some(s) ==> s.portfolio.solvent(),
    decreases batches.len(),
{
    if batches.len() > 0 {
        lemma_replay_keeps_solvent(start, series, batches.drop_last(), rate);
        match replay(start, series, batches.drop_last(), rate) {
            Some(s) => {
                let data = series[batches.len() - 1];
                lemma_orders_keep_solvent(s.portfolio, batches.last(), data.price, rate);
                let after = orders_outcome(s.portfolio, batches.last(), data.price, rate).0;
                assert(after.solvent());
                match tick_outcome(s, data, batches.last(), rate) {
                    Some(t) => {
                        if data.wf() {
                            assert(t.portfolio.positions == after.positions);
                            assert(t.portfolio.cash == after.cash);
                        } else {
                            assert(t.portfolio == s.portfolio);
                        }
                    },
                    None => {},
                }
            },
            None => {},
        }
    }
}

/// After every tick of a run the total value is the last point of the equity
/// curve, and, unless the tick failed, it is the cash plus the value of the
/// positions at that tick's price.
pub proof fn lemma_replay_marks_to_market(
    start: ReplayState,
    series: Seq<MarketDataPoint>,
    batches: Seq<Seq<Order>>,
    rate: Amount,
)
    requires
        0 < batches.len() <= series.len(),
    ensures
        replay(start, series, batches, rate) matches Some(s) ==> {
            &&& series[batches.len() - 1].wf() ==> valuation(s.portfolio, series[batches.len() - 1].price)
                == Some(s.portfolio.total_value)
            &&& s.points.len() > 0
            &&& s.points.last().value == s.portfolio.total_value
            &&& s.points.last().timestamp == series[batches.len() - 1].timestamp
        },
{
}

/// A run adds one point to the equity curve per tick and keeps the points that
/// were there; its trades only grow.
pub proof fn lemma_replay_appends(
    start: ReplayState,
    series: Seq<MarketDataPoint>,
    batches: Seq<Seq<Order>>,
    rate: Amount,
)
    requires
        batches.len() <= series.len(),
    ensures
        replay(start, series, batches, rate) matches Some(s) ==> {
            &&& s.points.len() == start.points.len() + batches.len()
            &&& s.points.subrange(0, start.points.len() as int) == start.points
            &&& s.trades.len() >= start.trades.len()
            &&& s.trades.subrange(0, start.trades.len() as int) == start.trades
        },
    decreases batches.len(),
{
    if batches.len() > 0 {
        lemma_replay_appends(start, series, batches.drop_last(), rate);
        match (replay(start, series, batches.drop_last(), rate), replay(start, series, batches, rate)) {
            (Some(m), Some(s)) => {
                assert(s.points.subrange(0, start.points.len() as int) =~= m.points.subrange(
                    0,
                    start.points.len() as int,
                ));
                assert(s.trades.subrange(0, start.trades.len() as int) =~= m.trades.subrange(
                    0,
                    start.trades.len() as int,
                ));
            },
            _ => {},
        }
    } else {
        assert(start.points.subrange(0, start.points.len() as int) =~= start.points);
        assert(start.trades.subrange(0, start.trades.len() as int) =~= start.trades);
    }
}

/// The equity curve of a run starts at the initial capital; where the run makes
/// no trade, every point of it is at the initial capital.
pub proof fn lemma_equity_curve_boundary(
    config: BacktestConfig,
    series: Seq<MarketDataPoint>,
    batches: Seq<Seq<Order>>,
)
    requires
        batches.len() <= series.len(),
    ensures
        replay(opening_state(config), series, batches, config.commission_rate) matches Some(s) ==> {
            &&& s.points.len() == batches.len() + 1
            &&& s.points[0].value == config.initial_capital
            &&& s.points[0].timestamp == config.start_time
            &&& s.trades.len() == 0 ==> {
                &&& s.portfolio.cash == config.initial_capital
                &&& s.portfolio.total_value == config.initial_capital
                &&& s.portfolio.positions.len() == 0
                &&& forall|k: int| 0 <= k < s.points.len() ==> (#[trigger] s.points[k]).value == config.initial_capital
            }
        },
    decreases batches.len(),
{
    let start = opening_state(config);
    let rate = config.commission_rate;
    if batches.len() > 0 {
        lemma_equity_curve_boundary(config, series, batches.drop_last());
        match (replay(start, series, batches.drop_last(), rate), replay(start, series, batches, rate)) {
            (Some(m), Some(s)) => {
                let data = series[batches.len() - 1];
                if s.trades.len() == 0 && data.wf() {
                    assert(m.trades.len() == 0);
                    assert(orders_outcome(m.portfolio, batches.last(), data.price, rate).1.len() == 0);
                    lemma_no_trade_no_change(m.portfolio, batches.last(), data.price, rate);
                }
            },
            _ => {},
        }
    }
}

/// The same orders against the same portfolio at the same price and rate give the
/// same portfolio and the same trades.
pub proof fn lemma_same_orders_same_outcome(
    first: PortfolioView,
    second: PortfolioView,
    first_orders: Seq<Order>,
    second_orders: Seq<Order>,
    price: Amount,
    rate: Amount,
)
    requires
        first == second,
        first_orders.len() == second_orders.len(),
        forall|i: int| 0 <= i < first_orders.len() ==> first_orders[i] == second_orders[i],
    ensures
        orders_outcome(first, first_orders, price, rate) == orders_outcome(second, second_orders, price, rate),
{
    assert(first_orders =~= second_orders);
}

/// The same trades and the same equity curve give the same statistics.
pub proof fn lemma_same_history_same_metrics(
    trades: Seq<Trade>,
    other_trades: Seq<Trade>,
    points: Seq<EquityPoint>,
    other_points: Seq<EquityPoint>,
)
    requires
        trades.len() == other_trades.len(),
        forall|i: int| 0 <= i < trades.len() ==> trades[i] == other_trades[i],
        points.len() == other_points.len(),
        forall|i: int| 0 <= i < points.len() ==> points[i] == other_points[i],
    ensures
        metrics_of(trades, points) == metrics_of(other_trades, other_points),
{
    assert(trades =~= other_trades);
    assert(points =~= other_points);
}

/// Whether a strategy has one answer to a tick: from states that are the same
/// in the sense of `same`, the same tick and the same portfolio are followed by
/// the same orders and by states that are the same again.
pub open spec fn single_answered<S: Strategy>(same: spec_fn(S, S) -> bool) -> bool {
    forall|a: S, b: S, data: MarketDataPoint, portfolio: PortfolioView, na: S, nb: S, oa: Seq<Order>, ob: Seq<Order>|
        #![trigger a.answers(data, portfolio, na, oa), b.answers(data, portfolio, nb, ob)]
        same(a, b) && a.answers(data, portfolio, na, oa) && b.answers(data, portfolio, nb, ob) ==> oa == ob
            && same(na, nb)
}

/// Two crossover strategies that agree in everything their answers depend on.
pub open spec fn same_crossover(
    a: SimpleMovingAverageCrossStrategy,
    b: SimpleMovingAverageCrossStrategy,
) -> bool {
    &&& a.symbol == b.symbol
    &&& a.short_period == b.short_period
    &&& a.long_period == b.long_period
    &&& a.position_size == b.position_size
    &&& a.last_signal == b.last_signal
    &&& a.short_ma@ == b.short_ma@
    &&& a.long_ma@ == b.long_ma@
}

/// The crossover strategy has one answer to a tick: from the same state, the
/// same tick and the same portfolio follow the same orders and the same state.
pub proof fn lemma_crossover_answers_once(
    a: SimpleMovingAverageCrossStrategy,
    b: SimpleMovingAverageCrossStrategy,
    data: MarketDataPoint,
    portfolio: PortfolioView,
    next_a: SimpleMovingAverageCrossStrategy,
    next_b: SimpleMovingAverageCrossStrategy,
    orders_a: Seq<Order>,
    orders_b: Seq<Order>,
)
    requires
        same_crossover(a, b),
        a.answers(data, portfolio, next_a, orders_a),
        b.answers(data, portfolio, next_b, orders_b),
    ensures
        orders_a == orders_b,
        same_crossover(next_a, next_b),
{
    assert(orders_a =~= orders_b);
}

/// Two courses of a strategy with one answer over the same ticks, from the same
/// state and the same start, place the same orders tick by tick.
pub proof fn lemma_courses_agree<S: Strategy>(
    same: spec_fn(S, S) -> bool,
    states_a: Seq<S>,
    batches_a: Seq<Seq<Order>>,
    states_b: Seq<S>,
    batches_b: Seq<Seq<Order>>,
    series: Seq<MarketDataPoint>,
    start: ReplayState,
    rate: Amount,
)
    requires
        single_answered(same),
        states_a.len() == batches_a.len() + 1,
        states_b.len() == batches_b.len() + 1,
        batches_a.len() == batches_b.len(),
        batches_a.len() <= series.len(),
        follows(states_a, batches_a, series, start, rate),
        follows(states_b, batches_b, series, start, rate),
        same(states_a[0], states_b[0]),
    ensures
        batches_a == batches_b,
        same(states_a.last(), states_b.last()),
    decreases batches_a.len(),
{
    let n = batches_a.len() as int;
    if n == 0 {
        assert(batches_a =~= batches_b);
    } else {
        lemma_courses_agree(same, 
            states_a.drop_last(),
            batches_a.drop_last(),
            states_b.drop_last(),
            batches_b.drop_last(),
            series,
            start,
            rate,
        );
        let so_far = replay(start, series, batches_a.drop_last(), rate);
        assert(so_far is Some);
        if series[n - 1].wf() {
            assert(states_a[n - 1].answers(
                series[n - 1],
                so_far.unwrap().portfolio,
                states_a[n],
                batches_a.last(),
            ));
            assert(states_b[n - 1].answers(
                series[n - 1],
                so_far.unwrap().portfolio,
                states_b[n],
                batches_b.last(),
            ));
        } else {
            assert(batches_a.last() =~= batches_b.last());
        }
        assert(batches_a =~= batches_a.drop_last().push(batches_a.last()));
        assert(batches_b =~= batches_b.drop_last().push(batches_b.last()));
    }
}

/// Running a strategy with one answer twice from the same state over the same
/// series with the same configuration gives the same trades, the same equity
/// curve, the same portfolio and the same statistics.
pub proof fn lemma_run_is_determined<S: Strategy>(
    same: spec_fn(S, S) -> bool,
    first_a: S,
    last_a: S,
    first_b: S,
    last_b: S,
    config: BacktestConfig,
    series: Seq<MarketDataPoint>,
    end_a: ReplayState,
    end_b: ReplayState,
)
    requires
        single_answered(same),
        same(first_a, first_b),
        run_of(first_a, last_a, config, series, end_a),
        run_of(first_b, last_b, config, series, end_b),
    ensures
        end_a == end_b,
        metrics_of(end_a.trades, end_a.points) == metrics_of(end_b.trades, end_b.points),
        same(last_a, last_b),
{
    let start = opening_state(config);
    let rate = config.commission_rate;
    let (states_a, batches_a) = choose|states: Seq<S>, batches: Seq<Seq<Order>>|
        {
            &&& #[trigger] follows(states, batches, series, start, rate)
            &&& batches.len() == series.len()
            &&& states.len() == series.len() + 1
            &&& states[0] == first_a
            &&& states.last() == last_a
            &&& replay(start, series, batches, rate) == Some(end_a)
        };
    let (states_b, batches_b) = choose|states: Seq<S>, batches: Seq<Seq<Order>>|
        {
            &&& #[trigger] follows(states, batches, series, start, rate)
            &&& batches.len() == series.len()
            &&& states.len() == series.len() + 1
            &&& states[0] == first_b
            &&& states.last() == last_b
            &&& replay(start, series, batches, rate) == Some(end_b)
        };
    lemma_courses_agree(same, states_a, batches_a, states_b, batches_b, series, start, rate);
}

/// A run that came through all its ticks came through the first `k` of them.
pub proof fn lemma_replay_prefix(
    start: ReplayState,
    series: Seq<MarketDataPoint>,
    batches: Seq<Seq<Order>>,
    rate: Amount,
    k: int,
)
    requires
        0 <= k <= batches.len(),
        replay(start, series, batches, rate) is Some,
    ensures
        replay(start, series, batches.take(k), rate) is Some,
    decreases batches.len() - k,
{
    if k == batches.len() {
        assert(batches.take(k) =~= batches);
    } else {
        lemma_replay_prefix(start, series, batches.drop_last(), rate, k);
        assert(batches.drop_last().take(k) =~= batches.take(k));
    }
}

/// The first `k` ticks of a course that a strategy may take are a course that it
/// may take.
pub proof fn lemma_follows_prefix<S: Strategy>(
    states: Seq<S>,
    batches: Seq<Seq<Order>>,
    series: Seq<MarketDataPoint>,
    start: ReplayState,
    rate: Amount,
    k: int,
)
    requires
        states.len() == batches.len() + 1,
        0 <= k <= batches.len(),
        follows(states, batches, series, start, rate),
    ensures
        follows(states.take(k + 1), batches.take(k), series, start, rate),
    decreases batches.len() - k,
{
    if k == batches.len() {
        assert(batches.take(k) =~= batches);
        assert(states.take(k + 1) =~= states);
    } else {
        lemma_follows_prefix(states.drop_last(), batches.drop_last(), series, start, rate, k);
        assert(batches.drop_last().take(k) =~= batches.take(k));
        assert(states.drop_last().take(k + 1) =~= states.take(k + 1));
    }
}

/// Two courses of a strategy with one answer that break off, from the same
/// state and the same start, break off at the same tick.
proof fn lemma_failures_at_same_tick<S: Strategy>(
    same: spec_fn(S, S) -> bool,
    states_a: Seq<S>,
    batches_a: Seq<Seq<Order>>,
    states_b: Seq<S>,
    batches_b: Seq<Seq<Order>>,
    series: Seq<MarketDataPoint>,
    start: ReplayState,
    rate: Amount,
)
    requires
        single_answered(same),
        states_a.len() == batches_a.len() + 1,
        states_b.len() == batches_b.len() + 1,
        batches_a.len() <= series.len(),
        batches_b.len() <= series.len(),
        0 < batches_a.len(),
        0 < batches_b.len(),
        follows(states_a, batches_a, series, start, rate),
        follows(states_b, batches_b, series, start, rate),
        same(states_a[0], states_b[0]),
        replay(start, series, batches_a, rate) is None,
        replay(start, series, batches_b, rate) is None,
        replay(start, series, batches_a.drop_last(), rate) is Some,
        replay(start, series, batches_b.drop_last(), rate) is Some,
    ensures
        batches_a.len() == batches_b.len(),
{
    if batches_a.len() < batches_b.len() {
        let k = batches_a.len() as int;
        lemma_follows_prefix(states_b, batches_b, series, start, rate, k);
        lemma_courses_agree(
            same,
            states_a,
            batches_a,
            states_b.take(k + 1),
            batches_b.take(k),
            series,
            start,
            rate,
        );
        lemma_replay_prefix(start, series, batches_b.drop_last(), rate, k);
        assert(batches_b.drop_last().take(k) =~= batches_b.take(k));
    } else if batches_b.len() < batches_a.len() {
        let k = batches_b.len() as int;
        lemma_follows_prefix(states_a, batches_a, series, start, rate, k);
        lemma_courses_agree(
            same,
            states_a.take(k + 1),
            batches_a.take(k),
            states_b,
            batches_b,
            series,
            start,
            rate,
        );
        lemma_replay_prefix(start, series, batches_a.drop_last(), rate, k);
        assert(batches_a.drop_last().take(k) =~= batches_a.take(k));
    }
}

/// A strategy with one answer cannot, from the same state over the same series
/// with the same configuration, come through one run and break off in another.
pub proof fn lemma_result_or_failure<S: Strategy>(
    same: spec_fn(S, S) -> bool,
    first_a: S,
    last_a: S,
    first_b: S,
    last_b: S,
    config: BacktestConfig,
    series: Seq<MarketDataPoint>,
    end_a: ReplayState,
    end_b: ReplayState,
)
    requires
        single_answered(same),
        same(first_a, first_b),
        run_of(first_a, last_a, config, series, end_a),
    ensures
        !failed_run_of(first_b, last_b, config, series, end_b),
{
    let start = opening_state(config);
    let rate = config.commission_rate;
    if failed_run_of(first_b, last_b, config, series, end_b) {
        let (states_a, batches_a) = choose|states: Seq<S>, batches: Seq<Seq<Order>>|
            {
                &&& #[trigger] follows(states, batches, series, start, rate)
                &&& batches.len() == series.len()
                &&& states.len() == series.len() + 1
                &&& states[0] == first_a
                &&& states.last() == last_a
                &&& replay(start, series, batches, rate) == Some(end_a)
            };
        let (states_b, batches_b) = choose|states: Seq<S>, batches: Seq<Seq<Order>>|
            {
                &&& #[trigger] follows(states, batches, series, start, rate)
                &&& 0 < batches.len() <= series.len()
                &&& states.len() == batches.len() + 1
                &&& states[0] == first_b
                &&& states.last() == last_b
                &&& replay(start, series, batches, rate) is None
                &&& replay(start, series, batches.drop_last(), rate) matches Some(m) && end_b == broken_off(
                    m,
                    series[batches.len() - 1],
                    batches.last(),
                    rate,
                )
            };
        let k = batches_b.len() as int;
        lemma_follows_prefix(states_a, batches_a, series, start, rate, k);
        lemma_courses_agree(same, 
            states_a.take(k + 1),
            batches_a.take(k),
            states_b,
            batches_b,
            series,
            start,
            rate,
        );
        lemma_replay_prefix(start, series, batches_a, rate, k);
    }
}

/// Two runs of a strategy with one answer, from the same state over the same
/// series with the same configuration, that both break off do so at the same
/// tick and leave the same trades, equity curve and portfolio.
pub proof fn lemma_failure_is_determined<S: Strategy>(
    same: spec_fn(S, S) -> bool,
    first_a: S,
    last_a: S,
    first_b: S,
    last_b: S,
    config: BacktestConfig,
    series: Seq<MarketDataPoint>,
    end_a: ReplayState,
    end_b: ReplayState,
)
    requires
        single_answered(same),
        same(first_a, first_b),
        failed_run_of(first_a, last_a, config, series, end_a),
        failed_run_of(first_b, last_b, config, series, end_b),
    ensures
        end_a == end_b,
        same(last_a, last_b),
{
    let start = opening_state(config);
    let rate = config.commission_rate;
    let (states_a, batches_a) = choose|states: Seq<S>, batches: Seq<Seq<Order>>|
        {
            &&& #[trigger] follows(states, batches, series, start, rate)
            &&& 0 < batches.len() <= series.len()
            &&& states.len() == batches.len() + 1
            &&& states[0] == first_a
            &&& states.last() == last_a
            &&& replay(start, series, batches, rate) is None
            &&& replay(start, series, batches.drop_last(), rate) matches Some(m) && end_a == broken_off(
                m,
                series[batches.len() - 1],
                batches.last(),
                rate,
            )
        };
    let (states_b, batches_b) = choose|states: Seq<S>, batches: Seq<Seq<Order>>|
        {
            &&& #[trigger] follows(states, batches, series, start, rate)
            &&& 0 < batches.len() <= series.len()
            &&& states.len() == batches.len() + 1
            &&& states[0] == first_b
            &&& states.last() == last_b
            &&& replay(start, series, batches, rate) is None
            &&& replay(start, series, batches.drop_last(), rate) matches Some(m) && end_b == broken_off(
                m,
                series[batches.len() - 1],
                batches.last(),
                rate,
            )
        };
    lemma_failures_at_same_tick(same, states_a, batches_a, states_b, batches_b, series, start, rate);
    lemma_courses_agree(same, states_a, batches_a, states_b, batches_b, series, start, rate);
}

/// Two reporting strategies whose crossover strategies agree and whose
/// parameters are the same.
pub open spec fn same_reporting(a: SMAStrategy, b: SMAStrategy) -> bool {
    same_crossover(a.crossover, b.crossover) && a.parameters@ == b.parameters@
}

/// The crossover strategy has one answer to a tick, so its runs are determined:
/// the laws on strategies with one answer hold of it with [`same_crossover`].
pub proof fn lemma_crossover_is_single_answered()
    ensures
        single_answered::<SimpleMovingAverageCrossStrategy>(
            |a: SimpleMovingAverageCrossStrategy, b: SimpleMovingAverageCrossStrategy| same_crossover(a, b),
        ),
{
    assert forall|
        a: SimpleMovingAverageCrossStrategy,
        b: SimpleMovingAverageCrossStrategy,
        data: MarketDataPoint,
        portfolio: PortfolioView,
        na: SimpleMovingAverageCrossStrategy,
        nb: SimpleMovingAverageCrossStrategy,
        oa: Seq<Order>,
        ob: Seq<Order>,
    |
        #![trigger a.answers(data, portfolio, na, oa), b.answers(data, portfolio, nb, ob)]
        same_crossover(a, b) && a.answers(data, portfolio, na, oa) && b.answers(
            data,
            portfolio,
            nb,
            ob,
        ) implies oa == ob && same_crossover(na, nb) by {
        lemma_crossover_answers_once(a, b, data, portfolio, na, nb, oa, ob);
    }
}

/// The reporting strategy has one answer to a tick; the laws on strategies with
/// one answer hold of it with [`same_reporting`].
pub proof fn lemma_reporting_is_single_answered()
    ensures
        single_answered::<SMAStrategy>(|a: SMAStrategy, b: SMAStrategy| same_reporting(a, b)),
{
    assert forall|
        a: SMAStrategy,
        b: SMAStrategy,
        data: MarketDataPoint,
        portfolio: PortfolioView,
        na: SMAStrategy,
        nb: SMAStrategy,
        oa: Seq<Order>,
        ob: Seq<Order>,
    |
        #![trigger a.answers(data, portfolio, na, oa), b.answers(data, portfolio, nb, ob)]
        same_reporting(a, b) && a.answers(data, portfolio, na, oa) && b.answers(
            data,
            portfolio,
            nb,
            ob,
        ) implies oa == ob && same_reporting(na, nb) by {
        lemma_crossover_answers_once(
            a.crossover,
            b.crossover,
            data,
            portfolio,
            na.crossover,
            nb.crossover,
            oa,
            ob,
        );
    }
}

/// Running the crossover strategy twice from the same state over the same series
/// with the same configuration gives the same trades, the same equity curve, the
/// same portfolio and the same statistics.
pub proof fn lemma_crossover_run_is_determined(
    first_a: SimpleMovingAverageCrossStrategy,
    last_a: SimpleMovingAverageCrossStrategy,
    first_b: SimpleMovingAverageCrossStrategy,
    last_b: SimpleMovingAverageCrossStrategy,
    config: BacktestConfig,
    series: Seq<MarketDataPoint>,
    end_a: ReplayState,
    end_b: ReplayState,
)
    requires
        same_crossover(first_a, first_b),
        run_of(first_a, last_a, config, series, end_a),
        run_of(first_b, last_b, config, series, end_b),
    ensures
        end_a == end_b,
        metrics_of(end_a.trades, end_a.points) == metrics_of(end_b.trades, end_b.points),
        same_crossover(last_a, last_b),
{
    lemma_crossover_is_single_answered();
    lemma_run_is_determined(
        |a: SimpleMovingAverageCrossStrategy, b: SimpleMovingAverageCrossStrategy| same_crossover(a, b),
        first_a,
        last_a,
        first_b,
        last_b,
        config,
        series,
        end_a,
        end_b,
    );
}

/// A run that makes no trade has the statistics of an idle run: no return, no
/// drawdown, no trade, a win rate of zero, a profit factor of one and sums of
/// zero.
pub proof fn lemma_statistics_without_trades(
    config: BacktestConfig,
    series: Seq<MarketDataPoint>,
    batches: Seq<Seq<Order>>,
)
    requires
        batches.len() <= series.len(),
    ensures
        replay(opening_state(config), series, batches, config.commission_rate) matches Some(s) ==> (
        s.trades.len() == 0 ==> metrics_of(s.trades, s.points) == Some(idle_metrics())),
{
    match replay(opening_state(config), series, batches, config.commission_rate) {
        Some(s) => {
            if s.trades.len() == 0 {
                lemma_equity_curve_boundary(config, series, batches);
                lemma_flat_curve(s.points, config.initial_capital);
                assert(s.trades =~= Seq::<Trade>::empty());
            }
        },
        None => {},
    }
}

} // verus!
