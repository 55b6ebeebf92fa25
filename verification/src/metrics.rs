//! Performance statistics of a finished run, computed from its trades and its
//! equity curve.
//!
//! Every figure is `None` where a step of its calculation cannot be represented.

use crate::amount::Amount;
use crate::types::{
    distinct_symbols, find_slot, holds, lemma_push_keeps_distinct, lemma_remove_keeps_distinct,
    lemma_update_keeps_distinct, slot_of, BacktestConfig, EquityPoint, Metrics, OrderSide, Position, Trade,
};
use vstd::prelude::*;

verus! {

/// Microseconds in a second.
pub const MICROS_PER_SECOND: i128 = 1_000_000;

/// The per-trade figure that a sum runs over.
#[derive(Debug, Clone, Copy, PartialEq, Eq, Structural)]
pub enum Term {
    /// `(price - commission) * quantity`
    Net,
    /// `(price + commission) * quantity`
    Gross,
    /// `price * quantity - commission`
    Profit,
    /// `quantity * price`
    Volume,
    /// `commission`
    Commission,
}

/// The figure `kind` of one trade.
pub open spec fn term_of(t: Trade, kind: Term) -> Option<Amount> {
    match kind {
        Term::Net => match t.price.spec_sub(t.commission) {
            Some(x) => x.spec_mul(t.quantity),
            None => None,
        },
        Term::Gross => match t.price.spec_add(t.commission) {
            Some(x) => x.spec_mul(t.quantity),
            None => None,
        },
        Term::Profit => match t.price.spec_mul(t.quantity) {
            Some(x) => x.spec_sub(t.commission),
            None => None,
        },
        Term::Volume => t.quantity.spec_mul(t.price),
        Term::Commission => Some(t.commission),
    }
}

/// Zero plus the figure `kind` of each trade, added in order.
pub open spec fn sum_terms(trades: Seq<Trade>, kind: Term) -> Option<Amount>
    decreases trades.len(),
{
    if trades.len() == 0 {
        Some(Amount { mantissa: 0, scale: 0 })
    } else {
        match (sum_terms(trades.drop_last(), kind), term_of(trades.last(), kind)) {
            (Some(a), Some(t)) => a.spec_add(t),
            _ => None,
        }
    }
}

/// `x * 100`.
pub open spec fn percent(x: Option<Amount>) -> Option<Amount> {
    match x {
        Some(v) => v.spec_mul(Amount { mantissa: 100, scale: 0 }),
        None => None,
    }
}

/// `(to - from) / from`.
pub open spec fn relative_change(from: Amount, to: Amount) -> Option<Amount> {
    match to.spec_sub(from) {
        Some(d) => d.spec_div(from),
        None => None,
    }
}

/// The return from the first to the last point in percent; zero with fewer than
/// two points, a first value of zero, or a last value that is the same number as
/// the first.
pub open spec fn total_return_of(points: Seq<EquityPoint>) -> Option<Amount> {
    if points.len() < 2 || points[0].value.mantissa == 0 || points.last().value.same_value(
        points[0].value,
    ) {
        Some(Amount { mantissa: 0, scale: 0 })
    } else {
        percent(relative_change(points[0].value, points.last().value))
    }
}

/// `winning / total * 100`, zero where `total` is zero.
pub open spec fn win_rate_of(winning: nat, total: nat) -> Option<Amount> {
    if total == 0 {
        Some(Amount { mantissa: 0, scale: 0 })
    } else {
        percent(
            (Amount { mantissa: winning as i128, scale: 0 }).spec_div(
                Amount { mantissa: total as i128, scale: 0 },
            ),
        )
    }
}

/// The net sum over the winners divided by the gross sum over the losers. Where
/// the losers' sum is zero: one if the winners' sum is zero too, else the largest
/// amount there is.
pub open spec fn profit_factor_of(winners: Seq<Trade>, losers: Seq<Trade>) -> Option<Amount> {
    match (sum_terms(winners, Term::Net), sum_terms(losers, Term::Gross)) {
        (Some(profit), Some(loss)) => if loss.mantissa == 0 {
            if profit.mantissa == 0 {
                Some(Amount { mantissa: 1, scale: 0 })
            } else {
                Some(Amount { mantissa: crate::amount::MAX_MANTISSA, scale: 0 })
            }
        } else {
            profit.spec_div(loss)
        },
        _ => None,
    }
}

/// The mean of `price * quantity - commission` over all trades; zero without trades.
pub open spec fn avg_profit_of(trades: Seq<Trade>) -> Option<Amount> {
    if trades.len() == 0 {
        Some(Amount { mantissa: 0, scale: 0 })
    } else {
        match sum_terms(trades, Term::Profit) {
            Some(total) => total.spec_div(Amount { mantissa: trades.len() as i128, scale: 0 }),
            None => None,
        }
    }
}

/// The return of one step of the equity curve: zero where the earlier value is zero.
pub open spec fn step_return(from: Amount, to: Amount) -> Option<Amount> {
    if from.mantissa == 0 {
        Some(Amount { mantissa: 0, scale: 0 })
    } else {
        relative_change(from, to)
    }
}

/// The returns of the first `n` steps of the curve, in order.
pub open spec fn returns_of(points: Seq<EquityPoint>, n: nat) -> Option<Seq<Amount>>
    recommends
        n < points.len() || n == 0,
    decreases n,
{
    if n == 0 {
        Some(Seq::empty())
    } else {
        match (
            returns_of(points, (n - 1) as nat),
            step_return(points[n - 1].value, points[n as int].value),
        ) {
            (Some(s), Some(r)) => Some(s.push(r)),
            _ => None,
        }
    }
}

/// Whole seconds from `from` to `to`, both in microseconds, rounded towards zero.
pub open spec fn seconds_between(from: i64, to: i64) -> int {
    if to >= from {
        (to - from) / 1_000_000
    } else {
        -((from - to) / 1_000_000)
    }
}

/// What a scan of the equity curve has seen so far.
#[derive(Debug, Clone, Copy)]
pub struct DrawdownScan {
    pub max_drawdown: Amount,
    pub duration: i64,
    pub peak_value: Amount,
    pub peak_time: i64,
}

/// The scan after one more point. A value above the peak becomes the peak. A
/// value below a positive peak has the drawdown `(peak - value) / peak * 100`,
/// which replaces the deepest one seen if it is deeper, together with the time
/// since the peak. A value at the peak changes nothing.
pub open spec fn drawdown_step(s: DrawdownScan, p: EquityPoint) -> Option<DrawdownScan> {
    if p.value.spec_gt(s.peak_value) {
        Some(DrawdownScan { peak_value: p.value, peak_time: p.timestamp, ..s })
    } else if s.peak_value.mantissa > 0 && s.peak_value.spec_gt(p.value) {
        match percent(relative_drop(s.peak_value, p.value)) {
            Some(d) => if d.spec_gt(s.max_drawdown) {
                Some(
                    DrawdownScan {
                        max_drawdown: d,
                        duration: seconds_between(s.peak_time, p.timestamp) as i64,
                        ..s
                    },
                )
            } else {
                Some(s)
            },
            None => None,
        }
    } else {
        Some(s)
    }
}

/// `(peak - value) / peak`.
pub open spec fn relative_drop(peak: Amount, value: Amount) -> Option<Amount> {
    match peak.spec_sub(value) {
        Some(d) => d.spec_div(peak),
        None => None,
    }
}

/// The scan of a whole curve, starting from a peak of zero.
pub open spec fn drawdown_scan(points: Seq<EquityPoint>) -> Option<DrawdownScan>
    decreases points.len(),
{
    if points.len() == 0 {
        Some(
            DrawdownScan {
                max_drawdown: Amount { mantissa: 0, scale: 0 },
                duration: 0,
                peak_value: Amount { mantissa: 0, scale: 0 },
                peak_time: 0,
            },
        )
    } else {
        match drawdown_scan(points.drop_last()) {
            Some(s) => drawdown_step(s, points.last()),
            None => None,
        }
    }
}

/// The deepest drawdown of a curve in percent, and the seconds from the peak to
/// the point where it was reached.
pub open spec fn drawdown_of(points: Seq<EquityPoint>) -> Option<(Amount, i64)> {
    match drawdown_scan(points) {
        Some(s) => Some((s.max_drawdown, s.duration)),
        None => None,
    }
}

/// The positions that a list of trades builds up, and the sells sorted into
/// winners and losers.
pub struct Tally {
    pub book: Seq<Position>,
    pub winners: Seq<Trade>,
    pub losers: Seq<Trade>,
}

/// The tally after one more trade. A buy enters the book at the weighted average
/// `(average * held + price * quantity) / (held + quantity)`. A sell of a symbol in
/// the book is a winner if its price is above the average entry price at that
/// moment, else a loser; it takes its quantity out of the book, and a position
/// sold down to zero leaves the book. A sell of a symbol not in the book counts
/// as neither.
pub open spec fn tally_step(t: Tally, trade: Trade) -> Option<Tally> {
    let zero = Amount { mantissa: 0, scale: 0 };
    let held = holds(t.book, trade.symbol@);
    let i = slot_of(t.book, trade.symbol@);
    match trade.side {
        OrderSide::Buy => {
            let quantity = if held { t.book[i].quantity } else { zero };
            let average = if held { t.book[i].average_entry_price } else { zero };
            match (
                average.spec_mul(quantity),
                trade.price.spec_mul(trade.quantity),
                quantity.spec_add(trade.quantity),
            ) {
                (Some(before), Some(added), Some(size)) => match before.spec_add(added) {
                    Some(weighted) => match weighted.spec_div(size) {
                        Some(entry) => {
                            let position = Position {
                                symbol: if held { t.book[i].symbol } else { trade.symbol },
                                quantity: size,
                                average_entry_price: entry,
                            };
                            Some(
                                Tally {
                                    book: if held {
                                        t.book.update(i, position)
                                    } else {
                                        t.book.push(position)
                                    },
                                    ..t
                                },
                            )
                        },
                        None => None,
                    },
                    None => None,
                },
                _ => None,
            }
        },
        OrderSide::Sell => if !held {
            Some(t)
        } else {
            match t.book[i].quantity.spec_sub(trade.quantity) {
                Some(size) => {
                    let book = if size.mantissa == 0 {
                        t.book.remove(i)
                    } else {
                        t.book.update(i, Position { quantity: size, ..t.book[i] })
                    };
                    if trade.price.spec_gt(t.book[i].average_entry_price) {
                        Some(Tally { book, winners: t.winners.push(trade), losers: t.losers })
                    } else {
                        Some(Tally { book, winners: t.winners, losers: t.losers.push(trade) })
                    }
                },
                None => None,
            }
        },
    }
}

/// The tally of a whole list of trades, taken in order from an empty book.
pub open spec fn tally_of(trades: Seq<Trade>) -> Option<Tally>
    decreases trades.len(),
{
    if trades.len() == 0 {
        Some(Tally { book: Seq::empty(), winners: Seq::empty(), losers: Seq::empty() })
    } else {
        match tally_of(trades.drop_last()) {
            Some(t) => tally_step(t, trades.last()),
            None => None,
        }
    }
}

/// All the statistics of a run. The win rate is the share of winners among the
/// sells that were judged; `total_trades` counts every trade.
pub open spec fn metrics_of(trades: Seq<Trade>, points: Seq<EquityPoint>) -> Option<Metrics> {
    match tally_of(trades) {
        None => None,
        Some(t) => match (
            total_return_of(points),
            win_rate_of(t.winners.len(), t.winners.len() + t.losers.len()),
            profit_factor_of(t.winners, t.losers),
            drawdown_of(points),
            avg_profit_of(trades),
            sum_terms(trades, Term::Commission),
            sum_terms(trades, Term::Volume),
        ) {
            (
                Some(total_return),
                Some(win_rate),
                Some(profit_factor),
                Some(drawdown),
                Some(avg_profit_per_trade),
                Some(total_commission),
                Some(total_volume),
            ) => Some(
                Metrics {
                    total_return,
                    total_trades: trades.len() as usize,
                    winning_trades: t.winners.len() as usize,
                    losing_trades: t.losers.len() as usize,
                    win_rate,
                    profit_factor,
                    max_drawdown: drawdown.0,
                    max_drawdown_duration: drawdown.1,
                    avg_profit_per_trade,
                    total_commission,
                    total_volume,
                },
            ),
            _ => None,
        },
    }
}

/// The statistics of a run that made no trade and whose equity never moved.
pub open spec fn idle_metrics() -> Metrics {
    Metrics {
        total_return: Amount { mantissa: 0, scale: 0 },
        total_trades: 0,
        winning_trades: 0,
        losing_trades: 0,
        win_rate: Amount { mantissa: 0, scale: 0 },
        profit_factor: Amount { mantissa: 1, scale: 0 },
        max_drawdown: Amount { mantissa: 0, scale: 0 },
        max_drawdown_duration: 0,
        avg_profit_per_trade: Amount { mantissa: 0, scale: 0 },
        total_commission: Amount { mantissa: 0, scale: 0 },
        total_volume: Amount { mantissa: 0, scale: 0 },
    }
}

/// A curve whose points are all at the same value has a total return of zero
/// and no drawdown.
pub proof fn lemma_flat_curve(points: Seq<EquityPoint>, c: Amount)
    requires
        forall|k: int| 0 <= k < points.len() ==> (#[trigger] points[k]).value == c,
    ensures
        total_return_of(points) == Some(Amount { mantissa: 0, scale: 0 }),
        drawdown_of(points) == Some((Amount { mantissa: 0, scale: 0 }, 0i64)),
        drawdown_scan(points) matches Some(s) && (s.peak_value == c || s.peak_value == (Amount {
            mantissa: 0,
            scale: 0,
        })),
    decreases points.len(),
{
    if points.len() > 0 {
        assert(points.last().value == c);
        assert(points[0].value == c);
        lemma_flat_curve(points.drop_last(), c);
    }
}

/// Every trade of the list holds valid amounts.
pub open spec fn trades_wf(trades: Seq<Trade>) -> bool {
    forall|i: int| 0 <= i < trades.len() ==> (#[trigger] trades[i]).wf()
}

/// Every point of the curve holds a valid amount.
pub open spec fn points_wf(points: Seq<EquityPoint>) -> bool {
    forall|i: int| 0 <= i < points.len() ==> (#[trigger] points[i]).value.wf()
}

/// Every position of the book holds valid amounts.
pub open spec fn book_wf(book: Seq<Position>) -> bool {
    forall|i: int|
        0 <= i < book.len() ==> (#[trigger] book[i]).quantity.wf() && book[i].average_entry_price.wf()
}

/// Whole seconds from `from` to `to`, both in microseconds, rounded towards zero.
pub fn whole_seconds(from: i64, to: i64) -> (r: i64)
    ensures
        r == seconds_between(from, to),
{
    let a: i128 = from as i128;
    let b: i128 = to as i128;
    if b >= a {
        let d: i128 = (b - a) / MICROS_PER_SECOND;
        d as i64
    } else {
        let d: i128 = (a - b) / MICROS_PER_SECOND;
        (-d) as i64
    }
}

/// The figure `kind` of one trade; `None` where it cannot be represented.
pub fn trade_term(t: &Trade, kind: Term) -> (r: Option<Amount>)
    requires
        t.wf(),
    ensures
        r == term_of(*t, kind),
        r matches Some(v) ==> v.wf(),
{
    match kind {
        Term::Net => match t.price.checked_sub(t.commission) {
            Some(x) => x.checked_mul(t.quantity),
            None => None,
        },
        Term::Gross => match t.price.checked_add(t.commission) {
            Some(x) => x.checked_mul(t.quantity),
            None => None,
        },
        Term::Profit => match t.price.checked_mul(t.quantity) {
            Some(x) => x.checked_sub(t.commission),
            None => None,
        },
        Term::Volume => t.quantity.checked_mul(t.price),
        Term::Commission => Some(t.commission),
    }
}

/// Zero plus the figure `kind` of each trade, added in order.
pub fn total_of(trades: &Vec<Trade>, kind: Term) -> (r: Option<Amount>)
    requires
        trades_wf(trades@),
    ensures
        r == sum_terms(trades@, kind),
        r matches Some(v) ==> v.wf(),
{
    let mut acc: Option<Amount> = Some(Amount::zero());
    let mut i: usize = 0;
    while i < trades.len()
        invariant
            i <= trades.len(),
            trades_wf(trades@),
            acc == sum_terms(trades@.take(i as int), kind),
            acc matches Some(v) ==> v.wf(),
        decreases trades.len() - i,
    {
        proof {
            assert(trades@.take(i + 1).drop_last() =~= trades@.take(i as int));
            assert(trades@[i as int].wf());
        }
        let term = trade_term(&trades[i], kind);
        acc = match (acc, term) {
            (Some(a), Some(t)) => a.checked_add(t),
            _ => None,
        };
        i += 1;
    }
    proof {
        assert(trades@.take(trades@.len() as int) =~= trades@);
    }
    acc
}

/// `x * 100`.
pub fn as_percent(x: Option<Amount>) -> (r: Option<Amount>)
    requires
        x matches Some(v) ==> v.wf(),
    ensures
        r == percent(x),
        r matches Some(v) ==> v.wf(),
{
    match x {
        Some(v) => v.checked_mul(Amount::hundred()),
        None => None,
    }
}

/// `(to - from) / from`.
pub fn change(from: Amount, to: Amount) -> (r: Option<Amount>)
    requires
        from.wf(),
        to.wf(),
    ensures
        r == relative_change(from, to),
        r matches Some(v) ==> v.wf(),
{
    match to.checked_sub(from) {
        Some(d) => d.checked_div(from),
        None => None,
    }
}

/// Brings one trade into the book and sorts a sell into winners or losers.
/// Returns whether every step could be represented; if not, nothing is promised
/// of what the three lists hold.
fn tally_apply(book: &mut Vec<Position>, winners: &mut Vec<Trade>, losers: &mut Vec<Trade>, trade: &Trade) -> (ok:
    bool)
    requires
        trade.wf(),
        book_wf(old(book)@),
        distinct_symbols(old(book)@),
    ensures
        ok == tally_step(
            Tally { book: old(book)@, winners: old(winners)@, losers: old(losers)@ },
            *trade,
        ).is_some(),
        ok ==> tally_step(
            Tally { book: old(book)@, winners: old(winners)@, losers: old(losers)@ },
            *trade,
        ) == Some(Tally { book: final(book)@, winners: final(winners)@, losers: final(losers)@ }),
        ok ==> book_wf(final(book)@) && distinct_symbols(final(book)@),
{
    let slot = find_slot(book, &trade.symbol);
    match trade.side {
        OrderSide::Buy => {
            let (quantity, average) = match slot {
                Some(i) => (book[i].quantity, book[i].average_entry_price),
                None => (Amount::zero(), Amount::zero()),
            };
            let before = average.checked_mul(quantity);
            let added = trade.price.checked_mul(trade.quantity);
            let size = quantity.checked_add(trade.quantity);
            let (weighted, size) = match (before, added, size) {
                (Some(before), Some(added), Some(size)) => (before.checked_add(added), size),
                _ => {
                    return false;
                },
            };
            let entry = match weighted {
                Some(w) => w.checked_div(size),
                None => None,
            };
            let entry = match entry {
                Some(e) => e,
                None => {
                    return false;
                },
            };
            match slot {
                Some(i) => {
                    book[i].quantity = size;
                    book[i].average_entry_price = entry;
                    proof {
                        let held = Position {
                            symbol: old(book)@[i as int].symbol,
                            quantity: size,
                            average_entry_price: entry,
                        };
                        assert(book@ =~= old(book)@.update(i as int, held));
                        lemma_update_keeps_distinct(old(book)@, i as int, held);
                    }
                },
                None => {
                    book.push(
                        Position { symbol: trade.symbol.clone(), quantity: size, average_entry_price: entry },
                    );
                    proof {
                        lemma_push_keeps_distinct(
                            old(book)@,
                            Position { symbol: trade.symbol, quantity: size, average_entry_price: entry },
                        );
                    }
                },
            }
            true
        },
        OrderSide::Sell => {
            let i = match slot {
                Some(i) => i,
                None => {
                    return true;
                },
            };
            let size = match book[i].quantity.checked_sub(trade.quantity) {
                Some(s) => s,
                None => {
                    return false;
                },
            };
            let won = trade.price.gt(book[i].average_entry_price);
            if size.is_zero() {
                let _ = book.remove(i);
                proof {
                    lemma_remove_keeps_distinct(old(book)@, i as int);
                }
            } else {
                book[i].quantity = size;
                proof {
                    let held = Position { quantity: size, ..old(book)@[i as int] };
                    assert(book@ =~= old(book)@.update(i as int, held));
                    lemma_update_keeps_distinct(old(book)@, i as int, held);
                }
            }
            if won {
                winners.push(trade.duplicate());
            } else {
                losers.push(trade.duplicate());
            }
            true
        },
    }
}

/// Computes the statistics of a run.
pub struct MetricsCalculator {
    /// The yearly risk-free rate that risk-adjusted ratios are measured against.
    pub risk_free_rate: Amount,
}

impl MetricsCalculator {
    /// A calculator with a risk-free rate of 0.02.
    pub fn new() -> (r: MetricsCalculator)
        ensures
            r.risk_free_rate == (Amount { mantissa: 2, scale: 2 }),
    {
        MetricsCalculator { risk_free_rate: Amount { mantissa: 2, scale: 2 } }
    }

    /// All the statistics of a run; `None` where one of them cannot be represented.
    pub fn calculate(&self, trades: &Vec<Trade>, equity_points: &Vec<EquityPoint>, config: &BacktestConfig) -> (r:
        Option<Metrics>)
        requires
            trades_wf(trades@),
            points_wf(equity_points@),
        ensures
            r == metrics_of(trades@, equity_points@),
    {
        let (winners, losers) = match self.analyze_trades(trades) {
            Some(pair) => pair,
            None => {
                return None;
            },
        };
        let total_return = self.calculate_total_return(equity_points);
        let total_trades: usize = trades.len();
        let judged: usize = winners.len() + losers.len();
        let win_rate = self.calculate_win_rate(winners.len(), judged);
        let profit_factor = self.calculate_profit_factor(&winners, &losers);
        let drawdown = self.calculate_drawdown(equity_points);
        let avg_profit = self.calculate_avg_profit(trades);
        let total_commission = self.calculate_total_commission(trades);
        let total_volume = self.calculate_total_volume(trades);
        match (total_return, win_rate, profit_factor, drawdown, avg_profit, total_commission, total_volume) {
            (
                Some(total_return),
                Some(win_rate),
                Some(profit_factor),
                Some(drawdown),
                Some(avg_profit_per_trade),
                Some(total_commission),
                Some(total_volume),
            ) => Some(
                Metrics {
                    total_return,
                    total_trades,
                    winning_trades: winners.len(),
                    losing_trades: losers.len(),
                    win_rate,
                    profit_factor,
                    max_drawdown: drawdown.0,
                    max_drawdown_duration: drawdown.1,
                    avg_profit_per_trade,
                    total_commission,
                    total_volume,
                },
            ),
            _ => None,
        }
    }

    /// The sells of `trades` sorted into winners and losers, each list in the order
    /// of the trades.
    pub fn analyze_trades(&self, trades: &Vec<Trade>) -> (r: Option<(Vec<Trade>, Vec<Trade>)>)
        requires
            trades_wf(trades@),
        ensures
            match tally_of(trades@) {
                Some(t) => r matches Some(pair) && pair.0@ == t.winners && pair.1@ == t.losers,
                None => r is None,
            },
            r matches Some(pair) ==> trades_wf(pair.0@) && trades_wf(pair.1@),
            r matches Some(pair) ==> pair.0@.len() + pair.1@.len() <= trades@.len(),
    {
        let mut book: Vec<Position> = Vec::new();
        let mut winners: Vec<Trade> = Vec::new();
        let mut losers: Vec<Trade> = Vec::new();
        let mut ok = true;
        let mut i: usize = 0;
        while i < trades.len()
            invariant
                i <= trades.len(),
                trades_wf(trades@),
                ok ==> book_wf(book@) && distinct_symbols(book@),
                ok ==> tally_of(trades@.take(i as int)) == Some(
                    Tally { book: book@, winners: winners@, losers: losers@ },
                ),
                !ok ==> tally_of(trades@.take(i as int)) is None,
                ok ==> trades_wf(winners@) && trades_wf(losers@),
                ok ==> winners@.len() + losers@.len() <= i,
            decreases trades.len() - i,
        {
            proof {
                assert(trades@.take(i + 1).drop_last() =~= trades@.take(i as int));
                assert(trades@[i as int].wf());
            }
            if ok {
                ok = tally_apply(&mut book, &mut winners, &mut losers, &trades[i]);
            }
            i += 1;
        }
        proof {
            assert(trades@.take(trades@.len() as int) =~= trades@);
        }
        if ok {
            Some((winners, losers))
        } else {
            None
        }
    }

    /// The return of each step of the curve, in order.
    pub fn calculate_returns(&self, equity_points: &Vec<EquityPoint>) -> (r: Option<Vec<Amount>>)
        requires
            points_wf(equity_points@),
        ensures
            match returns_of(
                equity_points@,
                if equity_points@.len() == 0 {
                    0nat
                } else {
                    (equity_points@.len() - 1) as nat
                },
            ) {
                Some(s) => r matches Some(v) && v@ == s,
                None => r is None,
            },
    {
        let mut out: Vec<Amount> = Vec::new();
        let mut ok = true;
        let mut i: usize = 1;
        if equity_points.len() == 0 {
            return Some(out);
        }
        while i < equity_points.len()
            invariant
                1 <= i <= equity_points.len(),
                points_wf(equity_points@),
                ok ==> returns_of(equity_points@, (i - 1) as nat) == Some(out@),
                !ok ==> returns_of(equity_points@, (i - 1) as nat) is None,
            decreases equity_points.len() - i,
        {
            let from = equity_points[i - 1].value;
            let to = equity_points[i].value;
            let step = if from.is_zero() {
                Some(Amount::zero())
            } else {
                change(from, to)
            };
            match step {
                Some(x) => {
                    if ok {
                        out.push(x);
                    }
                },
                None => {
                    ok = false;
                },
            }
            i += 1;
        }
        if ok {
            Some(out)
        } else {
            None
        }
    }

    /// The deepest drawdown of the curve in percent, and the seconds from the peak
    /// to the point where it was reached.
    pub fn calculate_drawdown(&self, equity_points: &Vec<EquityPoint>) -> (r: Option<(Amount, i64)>)
        requires
            points_wf(equity_points@),
        ensures
            r == drawdown_of(equity_points@),
            r matches Some(d) ==> d.0.wf(),
    {
        let mut scan: Option<DrawdownScan> = Some(
            DrawdownScan {
                max_drawdown: Amount::zero(),
                duration: 0,
                peak_value: Amount::zero(),
                peak_time: 0,
            },
        );
        let mut i: usize = 0;
        while i < equity_points.len()
            invariant
                i <= equity_points.len(),
                points_wf(equity_points@),
                scan == drawdown_scan(equity_points@.take(i as int)),
                scan matches Some(s) ==> s.max_drawdown.wf() && s.peak_value.wf(),
            decreases equity_points.len() - i,
        {
            proof {
                assert(equity_points@.take(i + 1).drop_last() =~= equity_points@.take(i as int));
                assert(equity_points@[i as int].value.wf());
            }
            let p = equity_points[i];
            scan = match scan {
                None => None,
                Some(s) => {
                    if p.value.gt(s.peak_value) {
                        Some(
                            DrawdownScan {
                                max_drawdown: s.max_drawdown,
                                duration: s.duration,
                                peak_value: p.value,
                                peak_time: p.timestamp,
                            },
                        )
                    } else if s.peak_value.mantissa > 0 && s.peak_value.gt(p.value) {
                        let drop = match s.peak_value.checked_sub(p.value) {
                            Some(d) => d.checked_div(s.peak_value),
                            None => None,
                        };
                        match as_percent(drop) {
                            Some(d) => {
                                if d.gt(s.max_drawdown) {
                                    Some(
                                        DrawdownScan {
                                            max_drawdown: d,
                                            duration: whole_seconds(s.peak_time, p.timestamp),
                                            peak_value: s.peak_value,
                                            peak_time: s.peak_time,
                                        },
                                    )
                                } else {
                                    Some(s)
                                }
                            },
                            None => None,
                        }
                    } else {
                        Some(s)
                    }
                },
            };
            i += 1;
        }
        proof {
            assert(equity_points@.take(equity_points@.len() as int) =~= equity_points@);
        }
        match scan {
            Some(s) => Some((s.max_drawdown, s.duration)),
            None => None,
        }
    }

    /// The return from the first to the last point in percent.
    pub fn calculate_total_return(&self, equity_points: &Vec<EquityPoint>) -> (r: Option<Amount>)
        requires
            points_wf(equity_points@),
        ensures
            r == total_return_of(equity_points@),
            r matches Some(v) ==> v.wf(),
    {
        if equity_points.len() < 2 {
            return Some(Amount::zero());
        }
        let first = equity_points[0].value;
        let last = equity_points[equity_points.len() - 1].value;
        if first.is_zero() || last.equals(first) {
            return Some(Amount::zero());
        }
        as_percent(change(first, last))
    }

    /// `winning_trades / total_trades * 100`; zero where `total_trades` is zero.
    /// The statistics of a run take the sells that were judged, winners and
    /// losers together, for `total_trades`.
    pub fn calculate_win_rate(&self, winning_trades: usize, total_trades: usize) -> (r: Option<Amount>)
        ensures
            r == win_rate_of(winning_trades as nat, total_trades as nat),
            r matches Some(v) ==> v.wf(),
    {
        if total_trades == 0 {
            return Some(Amount::zero());
        }
        as_percent(Amount::from_count(winning_trades).checked_div(Amount::from_count(total_trades)))
    }

    /// The winners' net sum over the losers' gross sum.
    pub fn calculate_profit_factor(&self, profit_trades: &Vec<Trade>, loss_trades: &Vec<Trade>) -> (r: Option<
        Amount,
    >)
        requires
            trades_wf(profit_trades@),
            trades_wf(loss_trades@),
        ensures
            r == profit_factor_of(profit_trades@, loss_trades@),
            r matches Some(v) ==> v.wf(),
    {
        let profit = total_of(profit_trades, Term::Net);
        let loss = total_of(loss_trades, Term::Gross);
        match (profit, loss) {
            (Some(profit), Some(loss)) => {
                if loss.is_zero() {
                    if profit.is_zero() {
                        Some(Amount::one())
                    } else {
                        Some(Amount::max_value())
                    }
                } else {
                    profit.checked_div(loss)
                }
            },
            _ => None,
        }
    }

    /// The mean of `price * quantity - commission` over all trades.
    pub fn calculate_avg_profit(&self, trades: &Vec<Trade>) -> (r: Option<Amount>)
        requires
            trades_wf(trades@),
        ensures
            r == avg_profit_of(trades@),
            r matches Some(v) ==> v.wf(),
    {
        if trades.len() == 0 {
            return Some(Amount::zero());
        }
        match total_of(trades, Term::Profit) {
            Some(total) => total.checked_div(Amount::from_count(trades.len())),
            None => None,
        }
    }

    /// The sum of `quantity * price` over all trades.
    pub fn calculate_total_volume(&self, trades: &Vec<Trade>) -> (r: Option<Amount>)
        requires
            trades_wf(trades@),
        ensures
            r == sum_terms(trades@, Term::Volume),
            r matches Some(v) ==> v.wf(),
    {
        total_of(trades, Term::Volume)
    }

    /// The sum of the commissions of all trades.
    pub fn calculate_total_commission(&self, trades: &Vec<Trade>) -> (r: Option<Amount>)
        requires
            trades_wf(trades@),
        ensures
            r == sum_terms(trades@, Term::Commission),
            r matches Some(v) ==> v.wf(),
    {
        total_of(trades, Term::Commission)
    }
}

} // verus!
