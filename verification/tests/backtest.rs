use trading_core::amount::Amount;
use trading_core::engine::{BacktestEngine, BacktestError};
use trading_core::executor::OrderExecutor;
use trading_core::market_data::MarketDataPoint;
use trading_core::metrics::MetricsCalculator;
use trading_core::sma_cross::SimpleMovingAverageCrossStrategy;
use trading_core::strategy::Strategy;
use trading_core::types::{
    BacktestConfig, EquityPoint, Order, OrderSide, OrderType, Portfolio, StrategyType, Trade,
};

fn amt(mantissa: i64, scale: u32) -> Amount {
    Amount::new(mantissa, scale)
}

fn same(a: Amount, b: Amount) -> bool {
    a.equals(b)
}

fn tick(timestamp: i64, symbol: &str, price: Amount) -> MarketDataPoint {
    MarketDataPoint::new(timestamp, symbol.to_string(), price, amt(1, 0), price, price, price, price)
}

fn order(symbol: &str, side: OrderSide, quantity: Amount, timestamp: i64) -> Order {
    Order { symbol: symbol.to_string(), order_type: OrderType::Market, side, quantity, timestamp }
}

fn trade(symbol: &str, side: OrderSide, quantity: Amount, price: Amount, commission: Amount) -> Trade {
    Trade { symbol: symbol.to_string(), side, quantity, price, timestamp: 0, commission }
}

fn config(symbol: &str, capital: Amount, rate: Amount) -> BacktestConfig {
    BacktestConfig {
        start_time: 0,
        end_time: 10_000_000,
        initial_capital: capital,
        symbol: symbol.to_string(),
        commission_rate: rate,
    }
}

fn series(symbol: &str, prices: &[i64]) -> Vec<MarketDataPoint> {
    let mut out = Vec::new();
    for (i, p) in prices.iter().enumerate() {
        out.push(tick((i as i64 + 1) * 1_000_000, symbol, amt(*p, 0)));
    }
    out
}

fn curve(values: &[i64]) -> Vec<EquityPoint> {
    let mut out = Vec::new();
    for (i, v) in values.iter().enumerate() {
        out.push(EquityPoint { timestamp: (i as i64) * 60_000_000, value: amt(*v, 0) });
    }
    out
}

/// A strategy that places a prepared batch of orders at each tick.
struct Scripted {
    batches: Vec<Vec<Order>>,
    next: usize,
}

impl Strategy for Scripted {
    fn on_data(&mut self, _data: &MarketDataPoint, _portfolio: &Portfolio) -> Vec<Order> {
        let batch = if self.next < self.batches.len() { self.batches[self.next].clone() } else { Vec::new() };
        self.next += 1;
        batch
    }

    fn get_parameters(&self) -> Vec<(String, String)> {
        Vec::new()
    }

    fn get_type(&self) -> StrategyType {
        StrategyType::Custom("scripted".to_string())
    }
}

#[test]
fn test_sma_strategy() {
    let mut strategy = SimpleMovingAverageCrossStrategy::new("BTCUSDT".to_string(), 5, 10, amt(100, 0));

    let portfolio = Portfolio { cash: amt(10000, 0), positions: Vec::new(), total_value: amt(10000, 0) };

    let prices = vec![100, 101, 102, 103, 104, 105, 106, 107, 108, 109, 110, 111, 112, 113, 114];

    for (i, price) in prices.iter().enumerate() {
        let data = tick(i as i64, "BTCUSDT", amt(*price, 0));
        let orders = strategy.on_data(&data, &portfolio);
        println!("Price: {}, Orders generated: {}", price, orders.len());
    }
}

#[test]
fn rising_prices_give_one_buy_once_the_short_window_is_full() {
    let mut strategy = SimpleMovingAverageCrossStrategy::new("BTCUSDT".to_string(), 5, 10, amt(100, 0));
    let portfolio = Portfolio::new(amt(10000, 0));
    let mut counts = Vec::new();
    for price in 100..115 {
        let data = tick(price, "BTCUSDT", amt(price, 0));
        counts.push(strategy.on_data(&data, &portfolio).len());
    }
    // At the fifth tick both windows hold the same prices and the averages are
    // equal; at the sixth the short average is the higher one for the first time.
    assert_eq!(counts, vec![0, 0, 0, 0, 0, 1, 0, 0, 0, 0, 0, 0, 0, 0, 0]);
}

#[test]
fn crossover_buys_at_third_tick_and_sells_at_fifth() {
    let mut engine = BacktestEngine::new(config("X", amt(10000, 0), amt(0, 0)));
    let mut strategy = SimpleMovingAverageCrossStrategy::new("X".to_string(), 2, 3, amt(1000, 0));
    let ticks = series("X", &[100, 102, 104, 101, 99]);
    let result = engine.run_strategy(&mut strategy, &ticks).unwrap();

    assert_eq!(result.trades.len(), 2);
    let buy = &result.trades[0];
    assert_eq!(buy.side, OrderSide::Buy);
    assert_eq!(buy.timestamp, 3_000_000);
    assert!(same(buy.price, amt(104, 0)));
    assert!(same(buy.quantity, amt(1000, 0).checked_div(amt(104, 0)).unwrap()));
    assert!(buy.quantity.gt(amt(9615, 3)));
    assert!(amt(9616, 3).gt(buy.quantity));

    let sell = &result.trades[1];
    assert_eq!(sell.side, OrderSide::Sell);
    assert_eq!(sell.timestamp, 5_000_000);
    assert!(same(sell.price, amt(99, 0)));
    assert!(same(sell.quantity, buy.quantity));
    assert!(engine.portfolio.positions.is_empty());

    assert_eq!(result.equity_curve.len(), 6);
    assert!(same(result.equity_curve[0].value, amt(10000, 0)));
    assert!(same(result.equity_curve[1].value, amt(10000, 0)));
    assert!(same(result.equity_curve[2].value, amt(10000, 0)));
    assert!(matches!(result.strategy_type, StrategyType::SMACross));
    assert_eq!(result.parameters.len(), 2);
    assert_eq!(result.parameters[0], ("short_period".to_string(), "2".to_string()));
    assert_eq!(result.parameters[1], ("long_period".to_string(), "3".to_string()));
}

#[test]
fn averages_appear_when_the_short_window_is_full() {
    let mut strategy = SimpleMovingAverageCrossStrategy::new("X".to_string(), 2, 3, amt(1000, 0));
    assert!(strategy.calculate_ma(amt(100, 0)).is_none());
    let (short, long) = strategy.calculate_ma(amt(102, 0)).unwrap();
    assert!(same(short, amt(101, 0)));
    assert!(same(long, amt(101, 0)));
    let (short, long) = strategy.calculate_ma(amt(104, 0)).unwrap();
    assert!(same(short, amt(103, 0)));
    assert!(same(long, amt(102, 0)));
    let (short, long) = strategy.calculate_ma(amt(101, 0)).unwrap();
    assert!(same(short, amt(1025, 1)));
    assert!(long.gt(amt(10233, 2)) && amt(10234, 2).gt(long));
    let (again_short, again_long) = strategy.get_ma_values().unwrap();
    assert!(same(again_short, short) && same(again_long, long));
    assert_eq!(strategy.short_ma.len(), 2);
    assert_eq!(strategy.long_ma.len(), 3);
}

#[test]
fn no_buy_at_a_price_of_zero() {
    let mut strategy = SimpleMovingAverageCrossStrategy::new("X".to_string(), 1, 2, amt(1000, 0));
    let portfolio = Portfolio::new(amt(10000, 0));
    assert!(strategy.on_data(&tick(1, "X", amt(-5, 0)), &portfolio).is_empty());
    // short average 0 is above the long average -2.5: a buy of size zero
    let orders = strategy.on_data(&tick(2, "X", amt(0, 0)), &portfolio);
    assert_eq!(orders.len(), 1);
    assert_eq!(orders[0].side, OrderSide::Buy);
    assert!(orders[0].quantity.is_zero());
}

#[test]
fn buy_with_commission() {
    let executor = OrderExecutor::new(amt(1, 2));
    let mut portfolio = Portfolio::new(amt(10000, 0));
    let data = tick(7, "X", amt(100, 0));
    let made = executor.execute_order(&order("X", OrderSide::Buy, amt(10, 0), 7), &data, &mut portfolio).unwrap();

    assert!(same(portfolio.cash, amt(8990, 0)));
    assert_eq!(portfolio.positions.len(), 1);
    assert_eq!(portfolio.positions[0].symbol, "X");
    assert!(same(portfolio.positions[0].quantity, amt(10, 0)));
    assert!(same(portfolio.positions[0].average_entry_price, amt(100, 0)));
    assert!(same(portfolio.total_value, amt(10000, 0)));

    assert_eq!(made.symbol, "X");
    assert_eq!(made.side, OrderSide::Buy);
    assert_eq!(made.timestamp, 7);
    assert!(same(made.quantity, amt(10, 0)));
    assert!(same(made.price, amt(100, 0)));
    assert!(same(made.commission, amt(10, 0)));
}

#[test]
fn second_buy_moves_the_average_entry_price() {
    let executor = OrderExecutor::new(amt(0, 0));
    let mut portfolio = Portfolio::new(amt(10000, 0));
    assert!(executor
        .execute_buy(&order("X", OrderSide::Buy, amt(10, 0), 1), &tick(1, "X", amt(100, 0)), &mut portfolio)
        .is_some());
    assert!(executor
        .execute_buy(&order("X", OrderSide::Buy, amt(30, 0), 2), &tick(2, "X", amt(120, 0)), &mut portfolio)
        .is_some());
    assert_eq!(portfolio.positions.len(), 1);
    assert!(same(portfolio.positions[0].quantity, amt(40, 0)));
    // (100 * 10 + 120 * 30) / 40
    assert!(same(portfolio.positions[0].average_entry_price, amt(115, 0)));
    assert!(same(portfolio.cash, amt(5400, 0)));
}

#[test]
fn sell_adds_proceeds_less_commission_and_closes_at_zero() {
    let executor = OrderExecutor::new(amt(1, 2));
    let mut portfolio = Portfolio::new(amt(10000, 0));
    executor.execute_order(&order("X", OrderSide::Buy, amt(10, 0), 1), &tick(1, "X", amt(100, 0)), &mut portfolio);
    let part = executor
        .execute_order(&order("X", OrderSide::Sell, amt(4, 0), 2), &tick(2, "X", amt(110, 0)), &mut portfolio)
        .unwrap();
    // 8990 + (440 - 4.40)
    assert!(same(portfolio.cash, amt(942560, 2)));
    assert!(same(part.commission, amt(440, 2)));
    assert_eq!(part.side, OrderSide::Sell);
    assert!(same(portfolio.positions[0].quantity, amt(6, 0)));
    assert!(same(portfolio.positions[0].average_entry_price, amt(100, 0)));

    let rest = executor.execute_sell(&order("X", OrderSide::Sell, amt(6, 0), 3), &tick(3, "X", amt(90, 0)), &mut portfolio);
    assert!(rest.is_some());
    assert!(portfolio.positions.is_empty());
    // 9425.60 + (540 - 5.40)
    assert!(same(portfolio.cash, amt(996020, 2)));
}

#[test]
fn positions_in_several_symbols_are_kept_apart() {
    let executor = OrderExecutor::new(amt(0, 0));
    let mut portfolio = Portfolio::new(amt(1000, 0));
    let data = tick(1, "A", amt(10, 0));
    executor.execute_order(&order("A", OrderSide::Buy, amt(1, 0), 1), &data, &mut portfolio);
    executor.execute_order(&order("B", OrderSide::Buy, amt(2, 0), 1), &data, &mut portfolio);
    executor.execute_order(&order("A", OrderSide::Buy, amt(3, 0), 1), &data, &mut portfolio);
    assert_eq!(portfolio.positions.len(), 2);
    assert_eq!(portfolio.find_position(&"A".to_string()), Some(0));
    assert_eq!(portfolio.find_position(&"B".to_string()), Some(1));
    assert_eq!(portfolio.find_position(&"C".to_string()), None);
    assert!(portfolio.has_position(&"B".to_string()));
    assert!(!portfolio.has_position(&"C".to_string()));
    assert!(same(portfolio.held_quantity(&"A".to_string()).unwrap(), amt(4, 0)));
    assert!(portfolio.held_quantity(&"C".to_string()).is_none());
    executor.execute_order(&order("A", OrderSide::Sell, amt(4, 0), 1), &data, &mut portfolio);
    assert_eq!(portfolio.positions.len(), 1);
    assert_eq!(portfolio.positions[0].symbol, "B");
}

#[test]
fn rejected_buy_leaves_portfolio_unchanged() {
    let executor = OrderExecutor::new(amt(1, 2));
    let mut portfolio = Portfolio::new(amt(1000, 0));
    executor.execute_order(&order("X", OrderSide::Buy, amt(1, 0), 1), &tick(1, "X", amt(100, 0)), &mut portfolio);
    let before = portfolio.clone();
    // 9 * 100 = 900 is within the cash of 899, plus commission it is not
    let made = executor.execute_order(&order("X", OrderSide::Buy, amt(9, 0), 2), &tick(2, "X", amt(100, 0)), &mut portfolio);
    assert!(made.is_none());
    assert_eq!(portfolio.cash, before.cash);
    assert_eq!(portfolio.total_value, before.total_value);
    assert_eq!(portfolio.positions.len(), before.positions.len());
    assert_eq!(portfolio.positions[0].symbol, before.positions[0].symbol);
    assert_eq!(portfolio.positions[0].quantity, before.positions[0].quantity);
    assert_eq!(portfolio.positions[0].average_entry_price, before.positions[0].average_entry_price);
}

#[test]
fn buy_that_takes_exactly_all_cash_is_accepted() {
    let executor = OrderExecutor::new(amt(0, 0));
    let mut portfolio = Portfolio::new(amt(1000, 0));
    let made = executor.execute_order(&order("X", OrderSide::Buy, amt(10, 0), 1), &tick(1, "X", amt(100, 0)), &mut portfolio);
    assert!(made.is_some());
    assert!(portfolio.cash.is_zero());
}

#[test]
fn rejected_sell_leaves_portfolio_unchanged() {
    let executor = OrderExecutor::new(amt(1, 2));
    let mut portfolio = Portfolio::new(amt(10000, 0));
    let data = tick(1, "X", amt(100, 0));
    executor.execute_order(&order("X", OrderSide::Buy, amt(10, 0), 1), &data, &mut portfolio);
    let before = portfolio.clone();

    assert!(executor.execute_order(&order("X", OrderSide::Sell, amt(11, 0), 2), &data, &mut portfolio).is_none());
    assert!(executor.execute_order(&order("Y", OrderSide::Sell, amt(1, 0), 2), &data, &mut portfolio).is_none());
    assert_eq!(portfolio.cash, before.cash);
    assert_eq!(portfolio.total_value, before.total_value);
    assert_eq!(portfolio.positions.len(), 1);
    assert_eq!(portfolio.positions[0].quantity, before.positions[0].quantity);
    assert_eq!(portfolio.positions[0].average_entry_price, before.positions[0].average_entry_price);
}

#[test]
fn order_that_cannot_be_computed_is_rejected() {
    let executor = OrderExecutor::new(amt(0, 0));
    let mut portfolio = Portfolio::new(Amount::max_value());
    let data = tick(1, "X", Amount::max_value());
    assert!(executor.execute_order(&order("X", OrderSide::Buy, amt(2, 0), 1), &data, &mut portfolio).is_none());
    // a buy of nothing would divide by a holding of zero
    assert!(executor.execute_order(&order("X", OrderSide::Buy, amt(0, 0), 1), &data, &mut portfolio).is_none());
    assert!(portfolio.positions.is_empty());
    assert_eq!(portfolio.cash, Amount::max_value());
}

#[test]
fn sale_at_a_loss_making_commission_never_overdraws() {
    // a commission of three times the proceeds would take cash below zero
    let executor = OrderExecutor::new(amt(0, 0));
    let mut portfolio = Portfolio::new(amt(100, 0));
    let data = tick(1, "X", amt(100, 0));
    executor.execute_order(&order("X", OrderSide::Buy, amt(1, 0), 1), &data, &mut portfolio);
    assert!(portfolio.cash.is_zero());
    let greedy = OrderExecutor::new(amt(3, 0));
    assert!(greedy.execute_order(&order("X", OrderSide::Sell, amt(1, 0), 2), &data, &mut portfolio).is_none());
    assert!(portfolio.cash.is_zero());
    assert_eq!(portfolio.positions.len(), 1);
}

#[test]
fn cash_and_quantities_never_negative() {
    let executor = OrderExecutor::new(amt(25, 4));
    let mut portfolio = Portfolio::new(amt(5000, 0));
    let symbols = ["A", "B", "C"];
    let mut state: u64 = 12345;
    let mut accepted = 0;
    for step in 0..400 {
        state = state.wrapping_mul(6364136223846793005).wrapping_add(1442695040888963407);
        let symbol = symbols[((state >> 33) % 3) as usize];
        let side = if (state >> 40) % 2 == 0 { OrderSide::Buy } else { OrderSide::Sell };
        let quantity = amt(((state >> 20) % 200) as i64 - 20, 1);
        let price = amt(((state >> 8) % 5000) as i64 + 1, 2);
        let data = tick(step, symbol, price);
        if executor.execute_order(&order(symbol, side, quantity, step), &data, &mut portfolio).is_some() {
            accepted += 1;
        }
        assert!(!portfolio.cash.is_negative());
        for position in portfolio.positions.iter() {
            assert!(!position.quantity.is_negative());
        }
        for (i, a) in portfolio.positions.iter().enumerate() {
            for b in portfolio.positions.iter().skip(i + 1) {
                assert_ne!(a.symbol, b.symbol);
            }
        }
    }
    assert!(accepted > 0);
}

#[test]
fn total_value_is_cash_plus_positions_after_each_tick() {
    let mut engine = BacktestEngine::new(config("X", amt(10000, 0), amt(1, 3)));
    engine.started = true;
    engine.record_equity_point(0, amt(10000, 0));
    let prices = [100, 105, 95, 110, 120];
    for (i, p) in prices.iter().enumerate() {
        let data = tick(i as i64, "X", amt(*p, 0));
        let orders = vec![
            order("X", OrderSide::Buy, amt(3, 0), i as i64),
            order("Y", OrderSide::Buy, amt(15, 1), i as i64),
            order("X", OrderSide::Sell, amt(1, 0), i as i64),
        ];
        assert_eq!(engine.process_tick(&data, &orders), Ok(()));
        let mut expected = Amount::zero();
        for position in engine.portfolio.positions.iter() {
            expected = expected.checked_add(position.quantity.checked_mul(amt(*p, 0)).unwrap()).unwrap();
        }
        expected = engine.portfolio.cash.checked_add(expected).unwrap();
        assert_eq!(engine.portfolio.total_value, expected);
        assert_eq!(engine.equity_points.last().unwrap().value, engine.portfolio.total_value);
        assert_eq!(engine.trades.len(), 3 * (i + 1));
    }
    assert_eq!(engine.get_equity_curve().len(), 6);
}

#[test]
fn first_tick_value_by_hand() {
    let mut engine = BacktestEngine::new(config("X", amt(1000, 0), amt(1, 2)));
    let mut strategy = Scripted { batches: vec![vec![order("X", OrderSide::Buy, amt(5, 0), 1)]], next: 0 };
    let result = engine.run(&mut strategy, &series("X", &[100, 120])).unwrap();
    // cash 1000 - 505 = 495; 495 + 5 * 100 = 995; 495 + 5 * 120 = 1095
    assert!(same(result.equity_curve[0].value, amt(1000, 0)));
    assert!(same(result.equity_curve[1].value, amt(995, 0)));
    assert!(same(result.equity_curve[2].value, amt(1095, 0)));
    assert_eq!(result.equity_curve[0].timestamp, 0);
    assert_eq!(result.equity_curve[1].timestamp, 1_000_000);
    assert_eq!(result.equity_curve[2].timestamp, 2_000_000);
    assert!(same(result.metrics.total_return, amt(95, 1)));
    assert_eq!(result.metrics.total_trades, 1);
    assert!(same(result.metrics.total_commission, amt(5, 0)));
    assert!(same(result.metrics.total_volume, amt(500, 0)));
}

#[test]
fn same_inputs_same_result() {
    let ticks = series("X", &[100, 102, 104, 101, 99, 103, 108, 104, 100, 97, 101]);
    let mut results = Vec::new();
    for _ in 0..2 {
        let mut engine = BacktestEngine::new(config("X", amt(10000, 0), amt(1, 3)));
        let mut strategy = SimpleMovingAverageCrossStrategy::new("X".to_string(), 2, 3, amt(1000, 0));
        results.push(engine.run_strategy(&mut strategy, &ticks).unwrap());
    }
    let (a, b) = (&results[0], &results[1]);
    assert!(a.trades.len() >= 2);
    assert_eq!(a.trades.len(), b.trades.len());
    for (x, y) in a.trades.iter().zip(b.trades.iter()) {
        assert_eq!(x.symbol, y.symbol);
        assert_eq!(x.side, y.side);
        assert_eq!(x.quantity, y.quantity);
        assert_eq!(x.price, y.price);
        assert_eq!(x.timestamp, y.timestamp);
        assert_eq!(x.commission, y.commission);
    }
    assert_eq!(a.equity_curve.len(), b.equity_curve.len());
    for (x, y) in a.equity_curve.iter().zip(b.equity_curve.iter()) {
        assert_eq!(x.timestamp, y.timestamp);
        assert_eq!(x.value, y.value);
    }
    assert_eq!(a.metrics.total_return, b.metrics.total_return);
    assert_eq!(a.metrics.win_rate, b.metrics.win_rate);
    assert_eq!(a.metrics.profit_factor, b.metrics.profit_factor);
    assert_eq!(a.metrics.max_drawdown, b.metrics.max_drawdown);
    assert_eq!(a.metrics.max_drawdown_duration, b.metrics.max_drawdown_duration);
    assert_eq!(a.metrics.avg_profit_per_trade, b.metrics.avg_profit_per_trade);
    assert_eq!(a.metrics.winning_trades, b.metrics.winning_trades);
    assert_eq!(a.metrics.losing_trades, b.metrics.losing_trades);
}

#[test]
fn without_trades_the_curve_stays_at_the_initial_capital() {
    let mut engine = BacktestEngine::new(config("X", amt(123456, 2), amt(1, 3)));
    let mut strategy = Scripted { batches: vec![vec![order("X", OrderSide::Sell, amt(1, 0), 1)]], next: 0 };
    let result = engine.run_strategy(&mut strategy, &series("X", &[100, 50, 200])).unwrap();
    assert!(result.trades.is_empty());
    assert_eq!(result.equity_curve.len(), 4);
    for point in result.equity_curve.iter() {
        assert_eq!(point.value, amt(123456, 2));
    }
    assert_eq!(result.metrics.total_return, Amount::zero());
    assert_eq!(result.metrics.win_rate, Amount::zero());
    assert_eq!(result.metrics.profit_factor, amt(1, 0));
    assert_eq!(result.metrics.max_drawdown, Amount::zero());
    assert_eq!(result.metrics.max_drawdown_duration, 0);
    assert_eq!(result.metrics.total_trades, 0);
    assert_eq!(result.metrics.winning_trades, 0);
    assert_eq!(result.metrics.losing_trades, 0);
    assert_eq!(result.metrics.avg_profit_per_trade, Amount::zero());
    assert_eq!(result.metrics.total_commission, Amount::zero());
    assert_eq!(result.metrics.total_volume, Amount::zero());
    assert_eq!(strategy.next, 3);
}

#[test]
fn empty_series_is_an_error() {
    let mut engine = BacktestEngine::new(config("X", amt(1000, 0), amt(0, 0)));
    let mut strategy = SimpleMovingAverageCrossStrategy::new("X".to_string(), 2, 3, amt(1000, 0));
    let outcome = engine.run_strategy(&mut strategy, &Vec::new());
    assert_eq!(outcome.err(), Some(BacktestError::EmptySeries));
    // the strategy was not asked
    assert!(strategy.short_ma.is_empty());
    assert!(strategy.long_ma.is_empty());
    assert_eq!(strategy.last_signal, None);
    assert_eq!(engine.equity_points.len(), 1);
    assert_eq!(engine.equity_points[0].timestamp, 0);
    assert_eq!(engine.equity_points[0].value, amt(1000, 0));
    assert!(engine.trades.is_empty());
}

#[test]
fn second_run_is_refused() {
    let mut engine = BacktestEngine::new(config("X", amt(1000, 0), amt(0, 0)));
    let mut strategy = Scripted { batches: vec![vec![order("X", OrderSide::Buy, amt(1, 0), 1)]], next: 0 };
    let ticks = series("X", &[100, 101]);
    assert!(engine.run_strategy(&mut strategy, &ticks).is_ok());
    let trades = engine.trades.len();
    let points = engine.equity_points.len();
    let asked = strategy.next;
    let again = engine.run_strategy(&mut strategy, &ticks);
    assert_eq!(again.err(), Some(BacktestError::AlreadyRun));
    assert_eq!(strategy.next, asked);
    assert_eq!(engine.metrics_calculator.risk_free_rate, amt(2, 2));
    assert_eq!(engine.trades.len(), trades);
    assert_eq!(engine.equity_points.len(), points);
}

#[test]
fn total_value_that_cannot_be_represented_ends_the_run() {
    let mut engine = BacktestEngine::new(config("X", Amount::max_value(), amt(0, 0)));
    let mut strategy = Scripted { batches: vec![vec![order("X", OrderSide::Buy, amt(1, 0), 1)]], next: 0 };
    let outcome = engine.run_strategy(&mut strategy, &series("X", &[1, 2]));
    assert_eq!(outcome.err(), Some(BacktestError::Valuation));
    assert_eq!(engine.equity_points.len(), 2);
    assert_eq!(engine.trades.len(), 1);
}

#[test]
fn statistics_that_cannot_be_represented_end_the_run() {
    let capital = Amount::from_parts(70_000_000_000_000_000_000_000_000_000, 0).unwrap();
    let mut engine = BacktestEngine::new(config("X", capital, amt(0, 0)));
    let big = Amount::from_parts(30_000_000_000_000_000_000_000_000_000, 0).unwrap();
    let mut strategy = Scripted {
        batches: vec![vec![order("X", OrderSide::Buy, big, 1), order("Y", OrderSide::Buy, big, 1), order("X", OrderSide::Sell, big, 1)]],
        next: 0,
    };
    // three trades of 3e28 each: their volumes add up to more than fits
    let outcome = engine.run_strategy(&mut strategy, &series("X", &[1]));
    assert_eq!(outcome.err(), Some(BacktestError::Metrics));
    assert_eq!(engine.trades.len(), 3);
}

#[test]
fn invalid_order_quantity_is_passed_over() {
    let mut engine = BacktestEngine::new(config("X", amt(1000, 0), amt(0, 0)));
    let broken = Amount { mantissa: 1, scale: 40 };
    let mut strategy = Scripted {
        batches: vec![vec![order("X", OrderSide::Buy, broken, 1), order("X", OrderSide::Buy, amt(1, 0), 1)]],
        next: 0,
    };
    let result = engine.run_strategy(&mut strategy, &series("X", &[10])).unwrap();
    assert_eq!(result.trades.len(), 1);
    assert!(same(result.trades[0].quantity, amt(1, 0)));
}

#[test]
fn two_sells_one_winner_one_loser() {
    let calculator = MetricsCalculator::new();
    let trades = vec![
        trade("X", OrderSide::Buy, amt(10, 0), amt(100, 0), amt(0, 0)),
        trade("X", OrderSide::Sell, amt(5, 0), amt(110, 0), amt(0, 0)),
        trade("X", OrderSide::Sell, amt(5, 0), amt(90, 0), amt(0, 0)),
    ];
    let (winners, losers) = calculator.analyze_trades(&trades).unwrap();
    assert_eq!(winners.len(), 1);
    assert_eq!(losers.len(), 1);
    assert!(same(winners[0].price, amt(110, 0)));
    assert!(same(losers[0].price, amt(90, 0)));
    assert!(same(calculator.calculate_win_rate(winners.len(), winners.len() + losers.len()).unwrap(), amt(50, 0)));

    let metrics = calculator
        .calculate(&trades, &curve(&[1000, 1000, 1050, 1000]), &config("X", amt(1000, 0), amt(0, 0)))
        .unwrap();
    assert_eq!(metrics.winning_trades, 1);
    assert_eq!(metrics.losing_trades, 1);
    assert_eq!(metrics.total_trades, 3);
    assert!(same(metrics.win_rate, amt(50, 0)));
    let bare = calculator.calculate(&trades, &Vec::new(), &config("X", amt(1000, 0), amt(0, 0))).unwrap();
    assert!(same(bare.win_rate, amt(50, 0)));
    assert_eq!(bare.winning_trades, 1);
    assert_eq!(bare.losing_trades, 1);
    // 550 / 450
    assert!(metrics.profit_factor.gt(amt(1222, 3)) && amt(1223, 3).gt(metrics.profit_factor));
}

#[test]
fn sell_is_judged_by_the_average_at_its_own_time() {
    let calculator = MetricsCalculator::new();
    let trades = vec![
        trade("X", OrderSide::Buy, amt(10, 0), amt(100, 0), amt(0, 0)),
        trade("X", OrderSide::Sell, amt(10, 0), amt(105, 0), amt(0, 0)),
        trade("X", OrderSide::Buy, amt(10, 0), amt(200, 0), amt(0, 0)),
        trade("X", OrderSide::Sell, amt(10, 0), amt(150, 0), amt(0, 0)),
        trade("Y", OrderSide::Sell, amt(1, 0), amt(1, 0), amt(0, 0)),
    ];
    let (winners, losers) = calculator.analyze_trades(&trades).unwrap();
    assert_eq!(winners.len(), 1);
    assert!(same(winners[0].price, amt(105, 0)));
    assert_eq!(losers.len(), 1);
    assert!(same(losers[0].price, amt(150, 0)));
}

#[test]
fn sell_at_the_average_is_a_loser() {
    let calculator = MetricsCalculator::new();
    let trades = vec![
        trade("X", OrderSide::Buy, amt(10, 0), amt(100, 0), amt(0, 0)),
        trade("X", OrderSide::Buy, amt(10, 0), amt(120, 0), amt(0, 0)),
        trade("X", OrderSide::Sell, amt(5, 0), amt(110, 0), amt(0, 0)),
    ];
    let (winners, losers) = calculator.analyze_trades(&trades).unwrap();
    assert!(winners.is_empty());
    assert_eq!(losers.len(), 1);
}

#[test]
fn max_drawdown_of_known_curve() {
    let calculator = MetricsCalculator::new();
    let (drawdown, seconds) = calculator.calculate_drawdown(&curve(&[1000, 1200, 900, 1100])).unwrap();
    assert!(same(drawdown, amt(25, 0)));
    assert_eq!(seconds, 60);
    let metrics = calculator.calculate(&Vec::new(), &curve(&[1000, 1200, 900, 1100]), &config("X", amt(1000, 0), amt(0, 0))).unwrap();
    assert!(same(metrics.max_drawdown, amt(25, 0)));
    assert_eq!(metrics.max_drawdown_duration, 60);
    assert!(same(metrics.total_return, amt(10, 0)));
}

#[test]
fn drawdown_follows_a_new_peak() {
    let calculator = MetricsCalculator::new();
    let points = vec![
        EquityPoint { timestamp: 0, value: amt(100, 0) },
        EquityPoint { timestamp: 1_500_000, value: amt(90, 0) },
        EquityPoint { timestamp: 3_000_000, value: amt(200, 0) },
        EquityPoint { timestamp: 4_000_000, value: amt(190, 0) },
        EquityPoint { timestamp: 9_999_999, value: amt(150, 0) },
    ];
    let (drawdown, seconds) = calculator.calculate_drawdown(&points).unwrap();
    assert!(same(drawdown, amt(25, 0)));
    assert_eq!(seconds, 6);
    let (none, zero) = calculator.calculate_drawdown(&Vec::new()).unwrap();
    assert!(none.is_zero());
    assert_eq!(zero, 0);
    let (flat, _) = calculator.calculate_drawdown(&curve(&[0, 0, 0])).unwrap();
    assert!(flat.is_zero());
    assert_eq!(calculator.calculate_drawdown(&curve(&[500, 500, 500])), Some((Amount::zero(), 0)));
}

#[test]
fn total_return_by_hand() {
    let calculator = MetricsCalculator::new();
    assert!(same(calculator.calculate_total_return(&curve(&[1000, 900, 1250])).unwrap(), amt(25, 0)));
    assert!(same(calculator.calculate_total_return(&curve(&[1000, 800])).unwrap(), amt(-20, 0)));
    assert!(calculator.calculate_total_return(&curve(&[1000])).unwrap().is_zero());
    assert!(calculator.calculate_total_return(&curve(&[])).unwrap().is_zero());
    assert!(calculator.calculate_total_return(&curve(&[0, 500])).unwrap().is_zero());
    assert_eq!(calculator.calculate_total_return(&curve(&[700, 900, 700])), Some(Amount::zero()));
}

#[test]
fn win_rate_by_hand() {
    let calculator = MetricsCalculator::new();
    assert!(calculator.calculate_win_rate(0, 0).unwrap().is_zero());
    assert!(same(calculator.calculate_win_rate(1, 4).unwrap(), amt(25, 0)));
    assert!(same(calculator.calculate_win_rate(3, 3).unwrap(), amt(100, 0)));
    assert!(calculator.calculate_win_rate(0, 5).unwrap().is_zero());
}

#[test]
fn profit_factor_by_hand() {
    let calculator = MetricsCalculator::new();
    let winners = vec![trade("X", OrderSide::Sell, amt(2, 0), amt(110, 0), amt(10, 0))];
    let losers = vec![trade("X", OrderSide::Sell, amt(1, 0), amt(90, 0), amt(10, 0))];
    // (110 - 10) * 2 / ((90 + 10) * 1)
    assert!(same(calculator.calculate_profit_factor(&winners, &losers).unwrap(), amt(2, 0)));
    assert!(same(calculator.calculate_profit_factor(&Vec::new(), &Vec::new()).unwrap(), amt(1, 0)));
    assert_eq!(calculator.calculate_profit_factor(&winners, &Vec::new()).unwrap(), Amount::max_value());
    assert!(calculator.calculate_profit_factor(&Vec::new(), &losers).unwrap().is_zero());
}

#[test]
fn sums_over_trades_by_hand() {
    let calculator = MetricsCalculator::new();
    let trades = vec![
        trade("X", OrderSide::Buy, amt(2, 0), amt(100, 0), amt(1, 0)),
        trade("X", OrderSide::Sell, amt(2, 0), amt(130, 0), amt(3, 0)),
    ];
    assert!(same(calculator.calculate_total_volume(&trades).unwrap(), amt(460, 0)));
    assert!(same(calculator.calculate_total_commission(&trades).unwrap(), amt(4, 0)));
    // ((200 - 1) + (260 - 3)) / 2
    assert!(same(calculator.calculate_avg_profit(&trades).unwrap(), amt(228, 0)));
    assert!(calculator.calculate_avg_profit(&Vec::new()).unwrap().is_zero());
    assert!(calculator.calculate_total_volume(&Vec::new()).unwrap().is_zero());
    let huge = vec![
        trade("X", OrderSide::Buy, amt(1, 0), Amount::max_value(), amt(0, 0)),
        trade("X", OrderSide::Buy, amt(1, 0), Amount::max_value(), amt(0, 0)),
    ];
    assert!(calculator.calculate_total_volume(&huge).is_none());
    assert!(calculator.calculate(&huge, &curve(&[1, 2]), &config("X", amt(1, 0), amt(0, 0))).is_none());
}

#[test]
fn returns_series_by_hand() {
    let calculator = MetricsCalculator::new();
    let returns = calculator.calculate_returns(&curve(&[1000, 1100, 0, 50, 25])).unwrap();
    assert_eq!(returns.len(), 4);
    assert!(same(returns[0], amt(1, 1)));
    assert!(same(returns[1], amt(-1, 0)));
    assert!(returns[2].is_zero());
    assert!(same(returns[3], amt(-5, 1)));
    assert!(calculator.calculate_returns(&curve(&[])).unwrap().is_empty());
    assert!(calculator.calculate_returns(&curve(&[7])).unwrap().is_empty());
    assert_eq!(calculator.risk_free_rate, amt(2, 2));
}

#[test]
fn negative_quantity_cannot_open_a_short_position() {
    let executor = OrderExecutor::new(amt(0, 0));
    let mut portfolio = Portfolio::new(amt(1000, 0));
    let data = tick(1, "X", amt(10, 0));
    assert!(executor.execute_order(&order("X", OrderSide::Buy, amt(-5, 0), 1), &data, &mut portfolio).is_none());
    assert!(portfolio.positions.is_empty());
    assert_eq!(portfolio.cash, amt(1000, 0));
    executor.execute_order(&order("X", OrderSide::Buy, amt(3, 0), 1), &data, &mut portfolio);
    assert!(executor.execute_order(&order("X", OrderSide::Buy, amt(-5, 0), 1), &data, &mut portfolio).is_none());
    assert!(same(portfolio.positions[0].quantity, amt(3, 0)));
    assert!(same(portfolio.cash, amt(970, 0)));
}

#[test]
fn negative_commission_rate_can_make_a_dear_buy_affordable() {
    // cost 100 is above the cash of 90, cost plus commission is not
    let executor = OrderExecutor::new(amt(-5, 1));
    let mut portfolio = Portfolio::new(amt(90, 0));
    let data = tick(1, "X", amt(100, 0));
    let made = executor.execute_order(&order("X", OrderSide::Buy, amt(1, 0), 1), &data, &mut portfolio);
    assert!(made.is_some());
    assert!(same(portfolio.cash, amt(40, 0)));
}

#[test]
fn tick_without_a_decimal_price_skips_its_orders_and_repeats_the_total() {
    let mut engine = BacktestEngine::new(config("X", amt(1000, 0), amt(0, 0)));
    let mut strategy = Scripted {
        batches: vec![
            vec![order("X", OrderSide::Buy, amt(5, 0), 1)],
            vec![order("X", OrderSide::Buy, amt(1, 0), 3)],
        ],
        next: 0,
    };
    let mut ticks = series("X", &[100, 0, 120]);
    ticks[1].price = Amount::unrepresentable();
    assert!(ticks[0].is_valid());
    assert!(!ticks[1].is_valid());
    let result = engine.run_strategy(&mut strategy, &ticks).unwrap();
    // the strategy saw the first and the third tick only
    assert_eq!(strategy.next, 2);
    assert_eq!(result.trades.len(), 2);
    assert_eq!(result.trades[0].timestamp, 1);
    assert_eq!(result.trades[1].timestamp, 3);
    assert_eq!(result.equity_curve.len(), 4);
    assert!(same(result.equity_curve[1].value, amt(1000, 0)));
    assert_eq!(result.equity_curve[2].timestamp, 2_000_000);
    assert_eq!(result.equity_curve[2].value, result.equity_curve[1].value);
    // cash 1000 - 500 - 120 = 380, six held at 120
    assert!(same(result.equity_curve[3].value, amt(1100, 0)));
}

#[test]
fn failed_tick_alone_leaves_the_portfolio_as_it_was() {
    let mut engine = BacktestEngine::new(config("X", amt(1000, 0), amt(0, 0)));
    engine.started = true;
    engine.record_equity_point(0, amt(1000, 0));
    let mut broken = tick(9, "X", amt(10, 0));
    broken.volume = Amount::unrepresentable();
    let orders = vec![order("X", OrderSide::Buy, amt(1, 0), 9)];
    assert_eq!(engine.process_tick(&broken, &orders), Ok(()));
    assert!(engine.trades.is_empty());
    assert!(engine.portfolio.positions.is_empty());
    assert_eq!(engine.portfolio.cash, amt(1000, 0));
    assert_eq!(engine.equity_points.len(), 2);
    assert_eq!(engine.equity_points[1].timestamp, 9);
    assert_eq!(engine.equity_points[1].value, amt(1000, 0));
}

#[test]
fn marking_to_market_changes_the_total_only() {
    let mut engine = BacktestEngine::new(config("X", amt(1000, 0), amt(0, 0)));
    assert!(engine.update_portfolio_value(&tick(1, "X", amt(50, 0))));
    assert_eq!(engine.portfolio.total_value, amt(1000, 0));
    assert!(!engine.started);
    engine.started = true;
    engine.apply_orders(&vec![order("X", OrderSide::Buy, amt(4, 0), 1)], &tick(1, "X", amt(50, 0)));
    assert!(engine.update_portfolio_value(&tick(2, "X", amt(70, 0))));
    // cash 800 plus four at 70
    assert!(same(engine.portfolio.total_value, amt(1080, 0)));
    assert!(same(engine.portfolio.cash, amt(800, 0)));
    assert_eq!(engine.portfolio.positions.len(), 1);
    assert!(same(engine.positions_value_at(amt(70, 0)).unwrap(), amt(280, 0)));
    assert!(engine.trades.len() == 1 && engine.equity_points.is_empty());
}
