//! A bounded memory of the most recent trades per symbol, with the current
//! one-second bar of each.

use crate::amount::Amount;
use crate::market_data::MarketDataPoint;
use std::collections::VecDeque;
use vstd::prelude::*;

verus! {

/// How many trades a buffer keeps.
pub const MAX_HISTORY_SIZE: usize = 1000;

/// One trade as an exchange reports it. The timestamp is in microseconds since
/// the Unix epoch.
#[derive(Debug, Clone)]
pub struct TickData {
    pub timestamp: i64,
    pub symbol: String,
    pub price: Amount,
    pub volume: Amount,
    pub side: String,
    pub trade_id: String,
    pub is_maker: bool,
}

/// The second that a moment given in microseconds falls into.
pub open spec fn second_of(micros: i64) -> int {
    micros as int / 1_000_000
}

/// The larger of two amounts; the first where they are the same number.
pub open spec fn larger(a: Amount, b: Amount) -> Amount {
    if b.spec_gt(a) {
        b
    } else {
        a
    }
}

/// The smaller of two amounts; the first where they are the same number.
pub open spec fn smaller(a: Amount, b: Amount) -> Amount {
    if a.spec_gt(b) {
        b
    } else {
        a
    }
}

/// The bar that a single trade makes.
pub open spec fn bar_of(tick: TickData) -> MarketDataPoint {
    MarketDataPoint {
        timestamp: tick.timestamp,
        symbol: tick.symbol,
        price: tick.price,
        volume: tick.volume,
        high: tick.price,
        low: tick.price,
        open: tick.price,
        close: tick.price,
    }
}

/// The current bar after one more trade. A trade in the bar's own second widens
/// the bar's high and low, becomes its close and adds its volume (a sum that
/// cannot be represented leaves the volume as it was); a trade in another second
/// starts a new bar.
pub open spec fn merged(latest: Option<MarketDataPoint>, tick: TickData) -> MarketDataPoint {
    match latest {
        Some(bar) => if second_of(bar.timestamp) == second_of(tick.timestamp) {
            MarketDataPoint {
                high: larger(bar.high, tick.price),
                low: smaller(bar.low, tick.price),
                close: tick.price,
                volume: match bar.volume.spec_add(tick.volume) {
                    Some(v) => v,
                    None => bar.volume,
                },
                ..bar
            }
        } else {
            bar_of(tick)
        },
        None => bar_of(tick),
    }
}

/// The history after one more trade: the oldest trade leaves a full history.
pub open spec fn remembered(history: Seq<TickData>, tick: TickData) -> Seq<TickData> {
    if history.len() >= MAX_HISTORY_SIZE {
        history.subrange(1, history.len() as int).push(tick)
    } else {
        history.push(tick)
    }
}

/// The second that a moment given in microseconds falls into.
pub fn whole_second(micros: i64) -> (r: i64)
    ensures
        r == second_of(micros),
{
    if micros >= 0 {
        micros / 1_000_000
    } else {
        let m: i128 = -(micros as i128);
        let q: i128 = (m - 1) / 1_000_000;
        (-q - 1) as i64
    }
}

impl TickData {
    /// Price and volume are valid amounts.
    pub open spec fn wf(&self) -> bool {
        self.price.wf() && self.volume.wf()
    }

    /// A copy of the trade.
    pub fn duplicate(&self) -> (r: TickData)
        ensures
            r == *self,
    {
        TickData {
            timestamp: self.timestamp,
            symbol: self.symbol.clone(),
            price: self.price,
            volume: self.volume,
            side: self.side.clone(),
            trade_id: self.trade_id.clone(),
            is_maker: self.is_maker,
        }
    }
}

/// The most recent trades of one symbol, oldest first, and the current bar.
#[derive(Debug)]
pub struct TickBuffer {
    pub data: VecDeque<TickData>,
    pub latest_market_data: Option<MarketDataPoint>,
}

/// The mathematical content of a [`TickBuffer`].
pub struct BufferView {
    pub data: Seq<TickData>,
    pub latest_market_data: Option<MarketDataPoint>,
}

impl View for TickBuffer {
    type V = BufferView;

    open spec fn view(&self) -> BufferView {
        BufferView { data: self.data@, latest_market_data: self.latest_market_data }
    }
}

/// A buffer after one more trade.
pub open spec fn buffer_after(b: BufferView, tick: TickData) -> BufferView {
    BufferView {
        data: remembered(b.data, tick),
        latest_market_data: Some(merged(b.latest_market_data, tick)),
    }
}

/// An empty buffer.
pub open spec fn empty_buffer() -> BufferView {
    BufferView { data: Seq::empty(), latest_market_data: None }
}

impl BufferView {
    /// At most [`MAX_HISTORY_SIZE`] trades, and a bar of valid amounts.
    pub open spec fn wf(&self) -> bool {
        &&& self.data.len() <= MAX_HISTORY_SIZE
        &&& self.latest_market_data matches Some(bar) ==> bar.wf()
    }
}

impl TickBuffer {
    /// At most [`MAX_HISTORY_SIZE`] trades, and a bar of valid amounts.
    pub open spec fn wf(&self) -> bool {
        self@.wf()
    }

    /// An empty buffer.
    pub fn new() -> (r: TickBuffer)
        ensures
            r.wf(),
            r@ == empty_buffer(),
    {
        TickBuffer { data: VecDeque::new(), latest_market_data: None }
    }

    /// Takes a trade into the history and into the current bar.
    pub fn push(&mut self, tick: TickData)
        requires
            old(self).wf(),
            tick.wf(),
        ensures
            final(self)@ == buffer_after(old(self)@, tick),
            final(self).wf(),
    {
        if self.data.len() >= MAX_HISTORY_SIZE {
            let _ = self.data.pop_front();
        }
        self.update_market_data(&tick);
        self.data.push_back(tick);
    }

    /// Takes a trade into the current bar.
    pub fn update_market_data(&mut self, tick: &TickData)
        requires
            old(self).latest_market_data matches Some(bar) ==> bar.wf(),
            tick.wf(),
        ensures
            final(self).latest_market_data == Some(merged(old(self).latest_market_data, *tick)),
            final(self).latest_market_data.unwrap().wf(),
            final(self).data == old(self).data,
    {
        let same_second = match &self.latest_market_data {
            Some(bar) => whole_second(bar.timestamp) == whole_second(tick.timestamp),
            None => false,
        };
        let next = match &self.latest_market_data {
            Some(bar) => {
                if same_second {
                    MarketDataPoint {
                        timestamp: bar.timestamp,
                        symbol: bar.symbol.clone(),
                        price: bar.price,
                        volume: match bar.volume.checked_add(tick.volume) {
                            Some(v) => v,
                            None => bar.volume,
                        },
                        high: if tick.price.gt(bar.high) {
                            tick.price
                        } else {
                            bar.high
                        },
                        low: if bar.low.gt(tick.price) {
                            tick.price
                        } else {
                            bar.low
                        },
                        open: bar.open,
                        close: tick.price,
                    }
                } else {
                    MarketDataPoint {
                        timestamp: tick.timestamp,
                        symbol: tick.symbol.clone(),
                        price: tick.price,
                        volume: tick.volume,
                        high: tick.price,
                        low: tick.price,
                        open: tick.price,
                        close: tick.price,
                    }
                }
            },
            None => MarketDataPoint {
                timestamp: tick.timestamp,
                symbol: tick.symbol.clone(),
                price: tick.price,
                volume: tick.volume,
                high: tick.price,
                low: tick.price,
                open: tick.price,
                close: tick.price,
            },
        };
        self.latest_market_data = Some(next);
    }

    /// The `n` most recent trades, newest first; all of them where fewer are held.
    pub fn latest(&self, n: usize) -> (r: Vec<TickData>)
        ensures
            r@ == newest(self.data@, n as nat),
    {
        let held = self.data.len();
        let count = if n <= held {
            n
        } else {
            held
        };
        let mut out: Vec<TickData> = Vec::new();
        let mut i: usize = 0;
        while i < count
            invariant
                i <= count <= held,
                held == self.data@.len(),
                out@.len() == i,
                forall|k: int| 0 <= k < i ==> out@[k] == self.data@[held - 1 - k],
            decreases count - i,
        {
            out.push(self.data[held - 1 - i].duplicate());
            i += 1;
        }
        proof {
            assert(out@ =~= newest(self.data@, n as nat));
        }
        out
    }

    /// The current bar, if a trade has been taken in.
    pub fn get_market_data(&self) -> (r: Option<MarketDataPoint>)
        ensures
            r == self.latest_market_data,
    {
        match &self.latest_market_data {
            Some(bar) => Some(bar.duplicate()),
            None => None,
        }
    }

    /// How many trades are held.
    pub fn len(&self) -> (r: usize)
        ensures
            r == self.data@.len(),
    {
        self.data.len()
    }

    /// Whether no trade is held.
    pub fn is_empty(&self) -> (r: bool)
        ensures
            r == (self.data@.len() == 0),
    {
        self.data.len() == 0
    }
}

/// The buffer of one symbol.
#[derive(Debug)]
pub struct CacheEntry {
    pub symbol: String,
    pub buffer: TickBuffer,
}

/// The mathematical content of a [`CacheEntry`].
pub struct EntryView {
    pub symbol: String,
    pub buffer: BufferView,
}

impl View for CacheEntry {
    type V = EntryView;

    open spec fn view(&self) -> EntryView {
        EntryView { symbol: self.symbol, buffer: self.buffer@ }
    }
}

/// Whether the slot `i` of `entries` belongs to `symbol`.
pub open spec fn entry_at(entries: Seq<EntryView>, symbol: Seq<char>, i: int) -> bool {
    0 <= i < entries.len() && entries[i].symbol@ == symbol
}

/// Whether `symbol` has a buffer.
pub open spec fn cached(entries: Seq<EntryView>, symbol: Seq<char>) -> bool {
    exists|i: int| entry_at(entries, symbol, i)
}

/// The slot of the buffer of `symbol`, where it has one.
pub open spec fn entry_of(entries: Seq<EntryView>, symbol: Seq<char>) -> int {
    choose|i: int| entry_at(entries, symbol, i)
}

/// No two entries share a symbol, and every buffer is in order.
pub open spec fn entries_wf(entries: Seq<EntryView>) -> bool {
    &&& forall|i: int| 0 <= i < entries.len() ==> (#[trigger] entries[i]).buffer.wf()
    &&& forall|i: int, j: int| 0 <= i < j < entries.len() ==> entries[i].symbol@ != entries[j].symbol@
}

/// The cache after one more trade. The trade goes to the buffer of its symbol. A
/// symbol seen for the first time gets a buffer while fewer than `max_symbols`
/// are held; beyond that its trades are dropped.
pub open spec fn updated(entries: Seq<EntryView>, max_symbols: nat, tick: TickData) -> Seq<EntryView> {
    if cached(entries, tick.symbol@) {
        let i = entry_of(entries, tick.symbol@);
        entries.update(i, EntryView { symbol: entries[i].symbol, buffer: buffer_after(entries[i].buffer, tick) })
    } else if entries.len() < max_symbols {
        entries.push(EntryView { symbol: tick.symbol, buffer: buffer_after(empty_buffer(), tick) })
    } else {
        entries
    }
}

/// The cache after a batch of trades, taken in order.
pub open spec fn batch_updated(entries: Seq<EntryView>, max_symbols: nat, ticks: Seq<TickData>) -> Seq<
    EntryView,
>
    decreases ticks.len(),
{
    if ticks.len() == 0 {
        entries
    } else {
        updated(batch_updated(entries, max_symbols, ticks.drop_last()), max_symbols, ticks.last())
    }
}

/// The `n` newest of `held`, newest first; all of them where fewer are held.
pub open spec fn newest(held: Seq<TickData>, n: nat) -> Seq<TickData> {
    Seq::new(
        if n <= held.len() {
            n
        } else {
            held.len()
        },
        |i: int| held[held.len() - 1 - i],
    )
}

/// The current bars of the entries that have one, in order.
pub open spec fn bars_of(entries: Seq<EntryView>) -> Seq<MarketDataPoint>
    decreases entries.len(),
{
    if entries.len() == 0 {
        Seq::empty()
    } else {
        match entries.last().buffer.latest_market_data {
            Some(bar) => bars_of(entries.drop_last()).push(bar),
            None => bars_of(entries.drop_last()),
        }
    }
}

/// The buffers of up to `max_symbols` symbols, in the order in which the symbols
/// were first seen.
pub struct MarketDataCache {
    pub data: Vec<CacheEntry>,
    pub max_symbols: usize,
}

impl View for MarketDataCache {
    type V = Seq<EntryView>;

    open spec fn view(&self) -> Seq<EntryView> {
        Seq::new(self.data@.len(), |i: int| self.data@[i]@)
    }
}

impl MarketDataCache {
    /// No two entries share a symbol, and every buffer is in order.
    pub open spec fn wf(&self) -> bool {
        entries_wf(self@)
    }

    /// An empty cache for up to `max_symbols` symbols.
    pub fn new(max_symbols: usize) -> (r: MarketDataCache)
        ensures
            r.wf(),
            r@.len() == 0,
            r.max_symbols == max_symbols,
    {
        MarketDataCache { data: Vec::new(), max_symbols }
    }

    /// The slot of the buffer of `symbol`, if it has one.
    pub fn find(&self, symbol: &str) -> (r: Option<usize>)
        ensures
            match r {
                Some(i) => entry_at(self@, symbol@, i as int),
                None => !cached(self@, symbol@),
            },
            self.wf() && r.is_some() ==> r.unwrap() as int == entry_of(self@, symbol@),
    {
        let wanted: String = symbol.to_owned();
        let mut i: usize = 0;
        while i < self.data.len()
            invariant
                i <= self.data.len(),
                wanted@ == symbol@,
                forall|j: int| 0 <= j < i ==> !entry_at(self@, symbol@, j),
            decreases self.data.len() - i,
        {
            if self.data[i].symbol == wanted {
                proof {
                    assert(entry_at(self@, symbol@, i as int));
                    if self.wf() {
                        let c = entry_of(self@, symbol@);
                        assert(entry_at(self@, symbol@, c));
                        assert(c == i as int);
                    }
                }
                return Some(i);
            }
            i += 1;
        }
        None
    }

    /// Takes a trade into the buffer of its symbol; see [`updated`].
    pub fn update(&mut self, tick: TickData)
        requires
            old(self).wf(),
            tick.wf(),
        ensures
            final(self)@ == updated(old(self)@, old(self).max_symbols as nat, tick),
            final(self).max_symbols == old(self).max_symbols,
            final(self).wf(),
    {
        match self.find(tick.symbol.as_str()) {
            Some(i) => {
                self.data[i].buffer.push(tick);
                proof {
                    let before = old(self)@;
                    let entry = EntryView {
                        symbol: before[i as int].symbol,
                        buffer: buffer_after(before[i as int].buffer, tick),
                    };
                    assert(self@ =~= before.update(i as int, entry));
                    assert forall|a: int, b: int| 0 <= a < b < self@.len() implies self@[a].symbol@
                        != self@[b].symbol@ by {
                        assert(before[a].symbol@ != before[b].symbol@);
                    }
                    assert forall|k: int| 0 <= k < self@.len() implies (#[trigger] self@[k]).buffer.wf() by {
                        if k != i as int {
                            assert(self@[k] == before[k]);
                        }
                    }
                }
            },
            None => {
                if self.data.len() < self.max_symbols {
                    let symbol = tick.symbol.clone();
                    let mut buffer = TickBuffer::new();
                    buffer.push(tick);
                    self.data.push(CacheEntry { symbol, buffer });
                    proof {
                        let before = old(self)@;
                        let entry = EntryView { symbol: tick.symbol, buffer: buffer_after(empty_buffer(), tick) };
                        assert(self@ =~= before.push(entry));
                        assert forall|a: int, b: int| 0 <= a < b < self@.len() implies self@[a].symbol@
                            != self@[b].symbol@ by {
                            if b == before.len() {
                                assert(!entry_at(before, tick.symbol@, a));
                            } else {
                                assert(before[a].symbol@ != before[b].symbol@);
                            }
                        }
                        assert forall|k: int| 0 <= k < self@.len() implies (#[trigger] self@[k]).buffer.wf() by {
                            if k < before.len() {
                                assert(self@[k] == before[k]);
                            }
                        }
                    }
                } else {
                    proof {
                        assert(self@ =~= old(self)@);
                    }
                }
            },
        }
    }

    /// Takes the trades in, in order.
    pub fn batch_update(&mut self, ticks: Vec<TickData>)
        requires
            old(self).wf(),
            forall|i: int| 0 <= i < ticks@.len() ==> (#[trigger] ticks@[i]).wf(),
        ensures
            final(self)@ == batch_updated(old(self)@, old(self).max_symbols as nat, ticks@),
            final(self).max_symbols == old(self).max_symbols,
            final(self).wf(),
    {
        let mut i: usize = 0;
        while i < ticks.len()
            invariant
                i <= ticks.len(),
                self.wf(),
                self.max_symbols == old(self).max_symbols,
                self@ == batch_updated(old(self)@, old(self).max_symbols as nat, ticks@.take(i as int)),
                forall|k: int| 0 <= k < ticks@.len() ==> (#[trigger] ticks@[k]).wf(),
            decreases ticks.len() - i,
        {
            proof {
                assert(ticks@[i as int].wf());
                assert(ticks@.take(i + 1).drop_last() =~= ticks@.take(i as int));
            }
            self.update(ticks[i].duplicate());
            i += 1;
        }
        proof {
            assert(ticks@.take(ticks@.len() as int) =~= ticks@);
        }
    }

    /// The `n` most recent trades of `symbol`, newest first; `None` where the
    /// symbol has no buffer.
    pub fn get_history(&self, symbol: &str, n: usize) -> (r: Option<Vec<TickData>>)
        requires
            self.wf(),
        ensures
            match r {
                Some(v) => cached(self@, symbol@) && v@ == newest(
                    self@[entry_of(self@, symbol@)].buffer.data,
                    n as nat,
                ),
                None => !cached(self@, symbol@),
            },
    {
        match self.find(symbol) {
            Some(i) => Some(self.data[i].buffer.latest(n)),
            None => None,
        }
    }

    /// The current bar of `symbol`; `None` where the symbol has no buffer.
    pub fn get_market_data(&self, symbol: &str) -> (r: Option<MarketDataPoint>)
        requires
            self.wf(),
        ensures
            r == (if cached(self@, symbol@) {
                self@[entry_of(self@, symbol@)].buffer.latest_market_data
            } else {
                None
            }),
    {
        match self.find(symbol) {
            Some(i) => self.data[i].buffer.get_market_data(),
            None => None,
        }
    }

    /// The current bars of all symbols that have one, in the order of the symbols.
    pub fn get_all_market_data(&self) -> (r: Vec<MarketDataPoint>)
        ensures
            r@ == bars_of(self@),
    {
        let mut out: Vec<MarketDataPoint> = Vec::new();
        let mut i: usize = 0;
        while i < self.data.len()
            invariant
                i <= self.data.len(),
                out@ == bars_of(self@.take(i as int)),
            decreases self.data.len() - i,
        {
            proof {
                assert(self@.take(i + 1).drop_last() =~= self@.take(i as int));
            }
            match self.data[i].buffer.get_market_data() {
                Some(bar) => {
                    out.push(bar);
                },
                None => {},
            }
            i += 1;
        }
        proof {
            assert(self@.take(self@.len() as int) =~= self@);
        }
        out
    }

    /// The symbols that have a buffer, in the order in which they were first seen.
    pub fn get_symbols(&self) -> (r: Vec<String>)
        ensures
            r@.len() == self@.len(),
            forall|i: int| 0 <= i < r@.len() ==> r@[i] == self@[i].symbol,
    {
        let mut out: Vec<String> = Vec::new();
        let mut i: usize = 0;
        while i < self.data.len()
            invariant
                i <= self.data.len(),
                out@.len() == i,
                forall|k: int| 0 <= k < i ==> out@[k] == self@[k].symbol,
            decreases self.data.len() - i,
        {
            out.push(self.data[i].symbol.clone());
            i += 1;
        }
        out
    }

    /// Forgets `symbol` and its buffer.
    pub fn clear_symbol(&mut self, symbol: &str)
        requires
            old(self).wf(),
        ensures
            final(self)@ == (if cached(old(self)@, symbol@) {
                old(self)@.remove(entry_of(old(self)@, symbol@))
            } else {
                old(self)@
            }),
            !cached(final(self)@, symbol@),
            final(self).max_symbols == old(self).max_symbols,
            final(self).wf(),
    {
        match self.find(symbol) {
            Some(i) => {
                let _ = self.data.remove(i);
                proof {
                    let before = old(self)@;
                    let after = self@;
                    assert(after =~= before.remove(i as int));
                    assert forall|a: int, b: int| 0 <= a < b < after.len() implies after[a].symbol@
                        != after[b].symbol@ by {
                        let a0 = if a < i { a } else { a + 1 };
                        let b0 = if b < i { b } else { b + 1 };
                        assert(before[a0].symbol@ != before[b0].symbol@);
                    }
                    assert forall|k: int| 0 <= k < after.len() implies (#[trigger] after[k]).buffer.wf() by {
                        let k0 = if k < i { k } else { k + 1 };
                        assert(after[k] == before[k0]);
                    }
                    assert forall|k: int| !entry_at(after, symbol@, k) by {
                        if 0 <= k < after.len() {
                            let k0 = if k < i { k } else { k + 1 };
                            assert(after[k] == before[k0]);
                            if k0 < i {
                                assert(before[k0].symbol@ != before[i as int].symbol@);
                            } else {
                                assert(before[i as int].symbol@ != before[k0].symbol@);
                            }
                        }
                    }
                }
            },
            None => {
                proof {
                    assert(self@ =~= old(self)@);
                }
            },
        }
    }

    /// Forgets everything.
    pub fn clear(&mut self)
        ensures
            final(self)@.len() == 0,
            final(self).max_symbols == old(self).max_symbols,
            final(self).wf(),
    {
        self.data.clear();
    }
}

} // verus!
