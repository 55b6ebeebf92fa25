use chrono::Utc;
use trading_core::amount::Amount;
use trading_core::cache::{whole_second, MarketDataCache, TickBuffer, TickData, MAX_HISTORY_SIZE};
use trading_core::intervals::{get_postgres_interval, interval_in_lower_case, unit_name, CandleInterval, TruncUnit};
use trading_core::market_data::MarketDataPoint;
use trading_core::sma::SMAStrategy;
use trading_core::strategy::Strategy;
use trading_core::types::{OrderSide, Portfolio, Position, StrategyType};

fn amt(mantissa: i64, scale: u32) -> Amount {
    Amount::new(mantissa, scale)
}

fn create_test_tick(symbol: &str, price: Amount, volume: Amount) -> TickData {
    TickData {
        timestamp: Utc::now().timestamp_micros(),
        symbol: symbol.to_string(),
        price,
        volume,
        side: "buy".to_string(),
        trade_id: format!("test-{}", symbol),
        is_maker: false,
    }
}

fn tick_at(timestamp: i64, price: i64, volume: i64) -> TickData {
    TickData {
        timestamp,
        symbol: "BTC/USDT".to_string(),
        price: amt(price, 0),
        volume: amt(volume, 0),
        side: "sell".to_string(),
        trade_id: format!("t{}", timestamp),
        is_maker: true,
    }
}

#[test]
fn test_tick_buffer() {
    let mut buffer = TickBuffer::new();
    let tick = create_test_tick("BTC/USDT", amt(50000, 0), amt(1, 0));
    buffer.push(tick);

    assert_eq!(buffer.len(), 1);

    let market_data = buffer.get_market_data().unwrap();
    assert_eq!(market_data.symbol, "BTC/USDT");
    assert_eq!(market_data.price, amt(50000, 0));
}

#[test]
fn test_market_data_cache() {
    let mut cache = MarketDataCache::new(10);

    let tick = create_test_tick("BTC/USDT", amt(50000, 0), amt(1, 0));
    cache.update(tick);

    let ticks = vec![
        create_test_tick("ETH/USDT", amt(3000, 0), amt(2, 0)),
        create_test_tick("BNB/USDT", amt(400, 0), amt(5, 0)),
    ];
    cache.batch_update(ticks);

    let history = cache.get_history("BTC/USDT", 1).unwrap();
    assert_eq!(history.len(), 1);
    assert_eq!(history[0].price, amt(50000, 0));

    let market_data = cache.get_market_data("BTC/USDT").unwrap();
    assert_eq!(market_data.symbol, "BTC/USDT");
    assert_eq!(market_data.price, amt(50000, 0));

    let all_market_data = cache.get_all_market_data();
    assert_eq!(all_market_data.len(), 3);
}

#[test]
fn trades_of_one_second_make_one_bar() {
    let mut buffer = TickBuffer::new();
    assert!(buffer.is_empty());
    assert!(buffer.get_market_data().is_none());
    buffer.push(tick_at(5_000_000, 100, 1));
    buffer.push(tick_at(5_400_000, 120, 2));
    buffer.push(tick_at(5_999_999, 90, 3));
    let bar = buffer.get_market_data().unwrap();
    assert_eq!(bar.timestamp, 5_000_000);
    assert_eq!(bar.price, amt(100, 0));
    assert_eq!(bar.open, amt(100, 0));
    assert_eq!(bar.high, amt(120, 0));
    assert_eq!(bar.low, amt(90, 0));
    assert_eq!(bar.close, amt(90, 0));
    assert_eq!(bar.volume, amt(6, 0));

    buffer.push(tick_at(6_000_000, 95, 4));
    let bar = buffer.get_market_data().unwrap();
    assert_eq!(bar.timestamp, 6_000_000);
    assert_eq!(bar.open, amt(95, 0));
    assert_eq!(bar.high, amt(95, 0));
    assert_eq!(bar.low, amt(95, 0));
    assert_eq!(bar.volume, amt(4, 0));
    assert_eq!(buffer.len(), 4);
    assert!(!buffer.is_empty());
}

#[test]
fn volume_that_cannot_be_represented_stays() {
    let mut buffer = TickBuffer::new();
    let mut big = tick_at(1, 10, 1);
    big.volume = Amount::max_value();
    buffer.push(big);
    buffer.push(tick_at(2, 11, 1));
    let bar = buffer.get_market_data().unwrap();
    assert_eq!(bar.volume, Amount::max_value());
    assert_eq!(bar.close, amt(11, 0));
}

#[test]
fn seconds_before_the_epoch_round_down() {
    assert_eq!(whole_second(0), 0);
    assert_eq!(whole_second(999_999), 0);
    assert_eq!(whole_second(1_000_000), 1);
    assert_eq!(whole_second(-1), -1);
    assert_eq!(whole_second(-1_000_000), -1);
    assert_eq!(whole_second(-1_000_001), -2);
    assert_eq!(whole_second(i64::MIN), -9_223_372_036_855);
    assert_eq!(whole_second(i64::MAX), 9_223_372_036_854);
    let mut buffer = TickBuffer::new();
    buffer.push(tick_at(-1, 10, 1));
    buffer.push(tick_at(0, 20, 1));
    assert_eq!(buffer.get_market_data().unwrap().open, amt(20, 0));
}

#[test]
fn buffer_keeps_the_newest_thousand() {
    let mut buffer = TickBuffer::new();
    for i in 0..(MAX_HISTORY_SIZE as i64 + 5) {
        buffer.push(tick_at(i, i, 1));
    }
    assert_eq!(buffer.len(), MAX_HISTORY_SIZE);
    let newest = buffer.latest(3);
    assert_eq!(newest.len(), 3);
    assert_eq!(newest[0].timestamp, 1004);
    assert_eq!(newest[1].timestamp, 1003);
    assert_eq!(newest[2].timestamp, 1002);
    assert_eq!(newest[0].trade_id, "t1004");
    assert_eq!(newest[0].side, "sell");
    assert!(newest[0].is_maker);
    let all = buffer.latest(5000);
    assert_eq!(all.len(), MAX_HISTORY_SIZE);
    assert_eq!(all[MAX_HISTORY_SIZE - 1].timestamp, 5);
    assert!(buffer.latest(0).is_empty());
}

#[test]
fn cache_holds_no_more_symbols_than_allowed() {
    let mut cache = MarketDataCache::new(2);
    cache.update(create_test_tick("A", amt(1, 0), amt(1, 0)));
    cache.update(create_test_tick("B", amt(2, 0), amt(1, 0)));
    cache.update(create_test_tick("C", amt(3, 0), amt(1, 0)));
    cache.update(create_test_tick("A", amt(4, 0), amt(1, 0)));
    assert_eq!(cache.get_symbols(), vec!["A".to_string(), "B".to_string()]);
    assert!(cache.get_history("C", 1).is_none());
    assert!(cache.get_market_data("C").is_none());
    assert_eq!(cache.find("B"), Some(1));
    assert_eq!(cache.find("C"), None);
    let history = cache.get_history("A", 10).unwrap();
    assert_eq!(history.len(), 2);
    assert_eq!(history[0].price, amt(4, 0));
    assert_eq!(history[1].price, amt(1, 0));
    let bars = cache.get_all_market_data();
    assert_eq!(bars.len(), 2);
    assert_eq!(bars[0].symbol, "A");
    assert_eq!(bars[1].symbol, "B");

    cache.clear_symbol("A");
    assert_eq!(cache.get_symbols(), vec!["B".to_string()]);
    cache.clear_symbol("Z");
    assert_eq!(cache.get_symbols().len(), 1);
    cache.update(create_test_tick("C", amt(3, 0), amt(1, 0)));
    assert_eq!(cache.get_symbols(), vec!["B".to_string(), "C".to_string()]);
    cache.clear();
    assert!(cache.get_symbols().is_empty());
    assert!(cache.get_all_market_data().is_empty());
    assert_eq!(cache.max_symbols, 2);
}

#[test]
fn reporting_strategy_orders_only_when_the_signal_changes() {
    let mut strategy = SMAStrategy::new("X".to_string(), 2, 3, amt(1000, 0));
    assert_eq!(
        strategy.get_parameters(),
        vec![("short_period".to_string(), "2".to_string()), ("long_period".to_string(), "3".to_string())]
    );
    assert!(matches!(strategy.get_type(), StrategyType::SMACross));
    let empty = Portfolio { cash: amt(0, 0), positions: Vec::new(), total_value: amt(0, 0) };
    let holding = Portfolio {
        cash: amt(0, 0),
        positions: vec![Position { symbol: "X".to_string(), quantity: amt(4, 0), average_entry_price: amt(1, 0) }],
        total_value: amt(0, 0),
    };
    let point = |t: i64, p: i64| {
        MarketDataPoint::new(t, "X".to_string(), amt(p, 0), amt(1, 0), amt(p, 0), amt(p, 0), amt(p, 0), amt(p, 0))
    };
    assert!(strategy.on_data(&point(1, 100), &empty).is_empty());
    assert!(strategy.on_data(&point(2, 102), &empty).is_empty());
    // short [102, 104] = 103 above long [100, 102, 104] = 102: the signal turns
    let orders = strategy.on_data(&point(3, 104), &empty);
    assert_eq!(orders.len(), 1);
    assert_eq!(orders[0].side, OrderSide::Buy);
    assert_eq!(orders[0].timestamp, 3);
    assert_eq!(orders[0].symbol, "X");
    assert!(orders[0].quantity.equals(amt(1000, 0).checked_div(amt(104, 0)).unwrap()));
    assert!(orders[0].quantity.gt(amt(9615, 3)) && amt(9616, 3).gt(orders[0].quantity));
    // short [104, 101] = 102.5 still above long [102, 104, 101]: no order, held or not
    assert!(strategy.on_data(&point(4, 101), &empty).is_empty());
    assert_eq!(strategy.crossover.last_signal, Some(true));
    // short [101, 99] = 100 below long [104, 101, 99]: the signal turns back
    let orders = strategy.on_data(&point(5, 99), &holding);
    assert_eq!(orders.len(), 1);
    assert_eq!(orders[0].side, OrderSide::Sell);
    assert_eq!(orders[0].quantity, amt(4, 0));
    assert!(strategy.on_data(&point(6, 90), &holding).is_empty());
    let (short, long) = strategy.calculate_ma(amt(90, 0)).unwrap();
    assert!(short.equals(amt(90, 0)));
    assert!(long.equals(amt(93, 0)));
}

#[test]
fn candle_intervals_by_name() {
    assert_eq!(
        get_postgres_interval("1m"),
        Some(CandleInterval { unit: TruncUnit::Minute, months: 0, days: 0, microseconds: 60 * 1_000_000 })
    );
    assert_eq!(get_postgres_interval("5M").unwrap().microseconds, 5 * 60 * 1_000_000);
    assert_eq!(get_postgres_interval("15m").unwrap().microseconds, 15 * 60 * 1_000_000);
    assert_eq!(
        get_postgres_interval("1H"),
        Some(CandleInterval { unit: TruncUnit::Hour, months: 0, days: 0, microseconds: 60 * 60 * 1_000_000 })
    );
    assert_eq!(get_postgres_interval("4h").unwrap().microseconds, 4 * 60 * 60 * 1_000_000);
    assert_eq!(
        get_postgres_interval("1d"),
        Some(CandleInterval { unit: TruncUnit::Day, months: 0, days: 1, microseconds: 0 })
    );
    assert_eq!(
        get_postgres_interval("1W"),
        Some(CandleInterval { unit: TruncUnit::Week, months: 0, days: 7, microseconds: 0 })
    );
    assert_eq!(get_postgres_interval("2h"), None);
    assert_eq!(get_postgres_interval(""), None);
    assert_eq!(interval_in_lower_case(&"1H".to_string()), None);
    assert_eq!(unit_name(TruncUnit::Minute), "minute");
    assert_eq!(unit_name(TruncUnit::Hour), "hour");
    assert_eq!(unit_name(TruncUnit::Day), "day");
    assert_eq!(unit_name(TruncUnit::Week), "week");
}
