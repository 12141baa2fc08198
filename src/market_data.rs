//! Market data: the fixed watchlist, the live-price cache fed by ticks,
//! instrument resolution and the best-performer ranking over fetched candles.
//!
//! Prices are integers in the smallest currency unit (paise). A quote fetched
//! on a cache miss is returned to the caller and not written into the cache:
//! only ticks fill it, so the cache always holds streamed prices.

use vstd::prelude::*;
use crate::ranking::{
    Performance, RankError, Ranker, best_index, closes_ok, perf_of, views,
};
use crate::text::same_text;

verus! {

/// One streamed price update.
#[derive(Debug, Clone)]
pub struct Tick {
    pub symbol: String,
    pub last_price: i64,
}

/// A tradable instrument as listed by the brokerage.
#[derive(Debug, Clone)]
pub struct Instrument {
    pub tradingsymbol: String,
    pub instrument_token: u32,
}

#[derive(Debug, Clone)]
struct PriceEntry {
    symbol: String,
    price: i64,
}

/// Why a market-data request failed.
#[derive(Debug, Clone, PartialEq, Eq)]
pub enum MarketDataError {
    /// The brokerage gave no last price for the symbol.
    QuoteUnavailable(String),
    /// No listed instrument carries the symbol.
    InstrumentNotFound(String),
}

/// Answer of the cache to a price query.
#[derive(Debug, Clone, Copy, PartialEq, Eq)]
pub enum PriceLookup {
    /// The symbol is cached at this price: no external call is needed.
    Cached(i64),
    /// The symbol is not cached: the caller fetches one quote.
    FetchQuote,
}

/// The cache after applying a batch of ticks in receipt order: the last
/// tick for a symbol wins.
pub open spec fn apply_ticks(m: Map<Seq<char>, i64>, ticks: Seq<Tick>) -> Map<Seq<char>, i64>
    decreases ticks.len(),
{
    if ticks.len() == 0 {
        m
    } else {
        apply_ticks(m, ticks.drop_last()).insert(ticks.last().symbol@, ticks.last().last_price)
    }
}

/// Token of the first instrument listed under `symbol`.
pub open spec fn first_token(insts: Seq<Instrument>, symbol: Seq<char>) -> Option<u32>
    decreases insts.len(),
{
    if insts.len() == 0 {
        None
    } else if insts[0].tradingsymbol@ == symbol {
        Some(insts[0].instrument_token)
    } else {
        first_token(insts.subrange(1, insts.len() as int), symbol)
    }
}

/// Symbol of the first instrument listed under `token`.
pub open spec fn first_symbol(insts: Seq<Instrument>, token: u32) -> Option<Seq<char>>
    decreases insts.len(),
{
    if insts.len() == 0 {
        None
    } else if insts[0].instrument_token == token {
        Some(insts[0].tradingsymbol@)
    } else {
        first_symbol(insts.subrange(1, insts.len() as int), token)
    }
}

/// Tokens of the symbols that resolve, in watchlist order.
pub open spec fn tokens_for(symbols: Seq<Seq<char>>, insts: Seq<Instrument>) -> Seq<u32>
    decreases symbols.len(),
{
    if symbols.len() == 0 {
        Seq::empty()
    } else {
        tokens_for(symbols.drop_last(), insts) + match first_token(insts, symbols.last()) {
            Some(t) => seq![t],
            None => Seq::<u32>::empty(),
        }
    }
}

/// Closes fetched for the `i`-th symbol; none where the series is missing.
pub open spec fn series_at(series: Seq<Vec<i64>>, i: int) -> Seq<i64> {
    if 0 <= i < series.len() {
        series[i]@
    } else {
        Seq::empty()
    }
}

pub open spec fn prefix_ok(series: Seq<Vec<i64>>, n: int) -> bool {
    forall|i: int| 0 <= i < n ==> closes_ok(#[trigger] series_at(series, i))
}

pub open spec fn perfs_of(series: Seq<Vec<i64>>, n: int) -> Seq<Performance> {
    Seq::new(n as nat, |i: int| perf_of(series_at(series, i)))
}

/// The result of ranking `symbols` over `series`: the best performer when
/// every symbol has usable candles, otherwise the error of the first
/// symbol that has none.
pub open spec fn ranking_outcome(
    r: Result<(String, Performance), RankError>,
    symbols: Seq<Seq<char>>,
    series: Seq<Vec<i64>>,
) -> bool {
    let n = symbols.len() as int;
    let b = best_index(perfs_of(series, n));
    match r {
        Ok((s, p)) => n > 0 && prefix_ok(series, n) && s@ == symbols[b] && p == perfs_of(series, n)[b],
        Err(RankError::NoData) => n == 0,
        Err(RankError::InsufficientData(s)) => exists|i: int|
            0 <= i < n && prefix_ok(series, i) && #[trigger] series_at(series, i).len() < 2 && s@ == symbols[i],
        Err(RankError::InvalidReferencePrice(s)) => exists|i: int|
            0 <= i < n && prefix_ok(series, i) && #[trigger] series_at(series, i).len() >= 2
                && series_at(series, i)[0] <= 0 && s@ == symbols[i],
    }
}

/// Start of the window `[now - window_secs, now]`, bounded below by `i64::MIN`.
pub open spec fn window_start(now: i64, window_secs: u64) -> int {
    if now - window_secs < i64::MIN {
        i64::MIN as int
    } else {
        now - window_secs
    }
}

/// The `(from, to)` Unix times of a ranking window ending at `now`.
pub fn history_window(now: i64, window_secs: u64) -> (r: (i64, i64))
    ensures
        r.0 == window_start(now, window_secs),
        r.1 == now,
{
    let from: i128 = now as i128 - window_secs as i128;
    if from < i64::MIN as i128 {
        (i64::MIN, now)
    } else {
        (from as i64, now)
    }
}

/// Symbol of the first instrument listed under `token`; streamed ticks
/// carry the token only.
pub fn symbol_for_token(instruments: &Vec<Instrument>, token: u32) -> (r: Option<String>)
    ensures
        match first_symbol(instruments@, token) {
            Some(s) => r is Some && r->0@ == s,
            None => r is None,
        },
{
    let mut i: usize = 0;
    assert(instruments@.subrange(0, instruments@.len() as int) =~= instruments@);
    while i < instruments.len()
        invariant
            i <= instruments@.len(),
            first_symbol(instruments@, token) == first_symbol(instruments@.subrange(i as int, instruments@.len() as int), token),
        decreases instruments@.len() - i,
    {
        let ghost rest = instruments@.subrange(i as int, instruments@.len() as int);
        assert(rest[0] == instruments@[i as int]);
        assert(rest.subrange(1, rest.len() as int) =~= instruments@.subrange(i + 1, instruments@.len() as int));
        if instruments[i].instrument_token == token {
            return Some(instruments[i].tradingsymbol.clone());
        }
        i = i + 1;
    }
    None
}

/// The symbols tracked by default.
pub open spec fn default_watchlist() -> Seq<Seq<char>> {
    seq!["RELIANCE"@, "TCS"@, "HDFCBANK"@, "INFY"@, "SBIN"@, "TATAMOTORS"@, "ITC"@]
}

/// The watchlist and the live-price cache.
pub struct MarketData {
    pub watchlist: Vec<String>,
    entries: Vec<PriceEntry>,
    prices: Ghost<Map<Seq<char>, i64>>,
}

impl View for MarketData {
    type V = Map<Seq<char>, i64>;

    /// Cached last price of each symbol.
    closed spec fn view(&self) -> Map<Seq<char>, i64> {
        self.prices@
    }
}

impl MarketData {
    /// The watchlist, in order.
    pub closed spec fn symbols(&self) -> Seq<Seq<char>> {
        views(self.watchlist@)
    }

    /// Each cached symbol has one entry, holding its cached price.
    pub closed spec fn wf(&self) -> bool {
        &&& forall|i: int, j: int|
            0 <= i < j < self.entries@.len() ==> (#[trigger] self.entries@[i]).symbol@ != (#[trigger] self.entries@[j]).symbol@
        &&& forall|i: int| 0 <= i < self.entries@.len() ==> {
            &&& self.prices@.contains_key((#[trigger] self.entries@[i]).symbol@)
            &&& self.prices@[self.entries@[i].symbol@] == self.entries@[i].price
        }
        &&& forall|k: Seq<char>| #[trigger] self.prices@.contains_key(k) ==>
            exists|i: int| 0 <= i < self.entries@.len() && (#[trigger] self.entries@[i]).symbol@ == k
    }

    /// An empty cache over `watchlist`, kept in its given order.
    pub fn with_watchlist(watchlist: Vec<String>) -> (r: Self)
        ensures
            r.wf(),
            r@ == Map::<Seq<char>, i64>::empty(),
            r.symbols() == views(watchlist@),
    {
        MarketData { watchlist, entries: Vec::new(), prices: Ghost(Map::empty()) }
    }

    /// An empty cache over the default watchlist.
    pub fn new() -> (r: Self)
        ensures
            r.wf(),
            r@ == Map::<Seq<char>, i64>::empty(),
            r.symbols() == default_watchlist(),
    {
        let watchlist = vec![
            "RELIANCE".to_owned(),
            "TCS".to_owned(),
            "HDFCBANK".to_owned(),
            "INFY".to_owned(),
            "SBIN".to_owned(),
            "TATAMOTORS".to_owned(),
            "ITC".to_owned(),
        ];
        assert(views(watchlist@) =~= default_watchlist());
        Self::with_watchlist(watchlist)
    }

    fn position(&self, symbol: &str) -> (r: Option<usize>)
        requires
            self.wf(),
        ensures
            match r {
                Some(i) => i < self.entries@.len() && self.entries@[i as int].symbol@ == symbol@,
                None => !self@.contains_key(symbol@),
            },
    {
        let mut i: usize = 0;
        while i < self.entries.len()
            invariant
                self.wf(),
                i <= self.entries@.len(),
                forall|j: int| 0 <= j < i ==> (#[trigger] self.entries@[j]).symbol@ != symbol@,
            decreases self.entries@.len() - i,
        {
            if same_text(self.entries[i].symbol.as_str(), symbol) {
                return Some(i);
            }
            i = i + 1;
        }
        None
    }

    /// Answers a price query from the cache alone. A cached symbol never
    /// leads to an external call; an absent one leads to exactly one quote
    /// fetch, whose answer goes through `quote_result`. The cache is only
    /// read.
    pub fn get_quote(&self, symbol: &str) -> (r: PriceLookup)
        requires
            self.wf(),
        ensures
            self@.contains_key(symbol@) ==> r == PriceLookup::Cached(self@[symbol@]),
            !self@.contains_key(symbol@) ==> r == PriceLookup::FetchQuote,
    {
        match self.position(symbol) {
            Some(i) => PriceLookup::Cached(self.entries[i].price),
            None => PriceLookup::FetchQuote,
        }
    }

    /// Records `price` as the last price of `symbol`.
    pub fn record_price(&mut self, symbol: String, price: i64)
        requires
            old(self).wf(),
        ensures
            final(self).wf(),
            final(self)@ == old(self)@.insert(symbol@, price),
            final(self).symbols() == old(self).symbols(),
    {
        let ghost key = symbol@;
        let ghost old_entries = self.entries@;
        match self.position(symbol.as_str()) {
            Some(i) => {
                self.entries.set(i, PriceEntry { symbol, price });
                self.prices = Ghost(self.prices@.insert(key, price));
                assert forall|k: Seq<char>| #[trigger] self.prices@.contains_key(k) implies
                    exists|j: int| 0 <= j < self.entries@.len() && (#[trigger] self.entries@[j]).symbol@ == k by {
                    if k != key {
                        let j = choose|j: int| 0 <= j < old_entries.len() && (#[trigger] old_entries[j]).symbol@ == k;
                        assert(self.entries@[j] == old_entries[j]);
                    } else {
                        assert(self.entries@[i as int].symbol@ == k);
                    }
                }
            },
            None => {
                self.entries.push(PriceEntry { symbol, price });
                self.prices = Ghost(self.prices@.insert(key, price));
                assert forall|k: Seq<char>| #[trigger] self.prices@.contains_key(k) implies
                    exists|j: int| 0 <= j < self.entries@.len() && (#[trigger] self.entries@[j]).symbol@ == k by {
                    if k != key {
                        let j = choose|j: int| 0 <= j < old_entries.len() && (#[trigger] old_entries[j]).symbol@ == k;
                        assert(self.entries@[j] == old_entries[j]);
                    } else {
                        assert(self.entries@[old_entries.len() as int].symbol@ == k);
                    }
                }
            },
        }
    }

    /// Writes a batch of ticks into the cache in receipt order.
    pub fn on_ticks(&mut self, ticks: &Vec<Tick>)
        requires
            old(self).wf(),
        ensures
            final(self).wf(),
            final(self)@ == apply_ticks(old(self)@, ticks@),
            final(self).symbols() == old(self).symbols(),
    {
        let ghost start = self@;
        let mut i: usize = 0;
        while i < ticks.len()
            invariant
                self.wf(),
                i <= ticks@.len(),
                self@ == apply_ticks(start, ticks@.subrange(0, i as int)),
                self.symbols() == old(self).symbols(),
            decreases ticks@.len() - i,
        {
            let t = &ticks[i];
            self.record_price(t.symbol.clone(), t.last_price);
            assert(ticks@.subrange(0, i + 1).drop_last() =~= ticks@.subrange(0, i as int));
            i = i + 1;
        }
        assert(ticks@.subrange(0, ticks@.len() as int) =~= ticks@);
    }

    /// Tokens to subscribe to: those of the watchlist symbols that resolve,
    /// in watchlist order. Empty means there is nothing to stream.
    pub fn subscription_tokens(&self, instruments: &Vec<Instrument>) -> (r: Vec<u32>)
        ensures
            r@ == tokens_for(self.symbols(), instruments@),
    {
        let mut tokens: Vec<u32> = Vec::new();
        let mut i: usize = 0;
        while i < self.watchlist.len()
            invariant
                i <= self.watchlist@.len(),
                tokens@ == tokens_for(views(self.watchlist@).subrange(0, i as int), instruments@),
            decreases self.watchlist@.len() - i,
        {
            let ghost syms = views(self.watchlist@);
            assert(syms.subrange(0, i + 1).drop_last() =~= syms.subrange(0, i as int));
            assert(syms.subrange(0, i + 1).last() == self.watchlist@[i as int]@);
            match Self::get_instrumental_token(instruments, self.watchlist[i].as_str()) {
                Ok(t) => {
                    tokens.push(t);
                },
                Err(_) => {},
            }
            assert(tokens@ =~= tokens_for(syms.subrange(0, i + 1), instruments@));
            i = i + 1;
        }
        assert(views(self.watchlist@).subrange(0, self.watchlist@.len() as int) =~= views(self.watchlist@));
        tokens
    }

    /// Token of the first instrument listed under `symbol`.
    pub fn get_instrumental_token(instruments: &Vec<Instrument>, symbol: &str) -> (r: Result<u32, MarketDataError>)
        ensures
            match first_token(instruments@, symbol@) {
                Some(t) => r == Ok::<u32, MarketDataError>(t),
                None => r is Err && r->Err_0 is InstrumentNotFound && r->Err_0->InstrumentNotFound_0@ == symbol@,
            },
    {
        let mut i: usize = 0;
        assert(instruments@.subrange(0, instruments@.len() as int) =~= instruments@);
        while i < instruments.len()
            invariant
                i <= instruments@.len(),
                first_token(instruments@, symbol@) == first_token(instruments@.subrange(i as int, instruments@.len() as int), symbol@),
            decreases instruments@.len() - i,
        {
            let ghost rest = instruments@.subrange(i as int, instruments@.len() as int);
            assert(rest[0] == instruments@[i as int]);
            assert(rest.subrange(1, rest.len() as int) =~= instruments@.subrange(i + 1, instruments@.len() as int));
            if same_text(instruments[i].tradingsymbol.as_str(), symbol) {
                return Ok(instruments[i].instrument_token);
            }
            i = i + 1;
        }
        Err(MarketDataError::InstrumentNotFound(symbol.to_owned()))
    }

    /// A ranker over a copy of the watchlist.
    pub fn ranker(&self) -> (r: Ranker)
        ensures
            r.wf(),
            r.symbols() == self.symbols(),
            r.ranked() == Seq::<Performance>::empty(),
    {
        let mut copy: Vec<String> = Vec::new();
        let mut i: usize = 0;
        while i < self.watchlist.len()
            invariant
                i <= self.watchlist@.len(),
                views(copy@) =~= views(self.watchlist@).subrange(0, i as int),
            decreases self.watchlist@.len() - i,
        {
            let ghost before = copy@;
            copy.push(self.watchlist[i].clone());
            assert(copy@ =~= before.push(self.watchlist@[i as int]));
            assert(views(copy@) =~= views(before).push(self.watchlist@[i as int]@));
            i = i + 1;
        }
        Ranker::new(copy)
    }

    /// Ranks the watchlist over the closes fetched for each symbol
    /// (`series[i]` for the `i`-th symbol, oldest first) and returns the best
    /// performer with its performance. Fails fast on the first symbol without
    /// usable candles; an empty watchlist gives `NoData`.
    pub fn best_performer(&self, series: &Vec<Vec<i64>>) -> (r: Result<(String, Performance), RankError>)
        ensures
            ranking_outcome(r, self.symbols(), series@),
    {
        let mut ranker = self.ranker();
        let n = self.watchlist.len();
        let empty: Vec<i64> = Vec::new();
        let mut i: usize = 0;
        while i < n
            invariant
                n == self.watchlist@.len(),
                i <= n,
                ranker.wf(),
                ranker.symbols() == views(self.watchlist@),
                ranker.ranked() =~= perfs_of(series@, i as int),
                prefix_ok(series@, i as int),
                empty@.len() == 0,
            decreases n - i,
        {
            let closes = if i < series.len() { &series[i] } else { &empty };
            assert(closes@ == series_at(series@, i as int));
            match ranker.feed(closes) {
                Err(e) => {
                    assert(prefix_ok(series@, i as int));
                    return Err(e);
                },
                Ok(()) => {},
            }
            assert(ranker.ranked() =~= perfs_of(series@, i + 1));
            i = i + 1;
        }
        ranker.finish()
    }
}

/// Turns the answer of the one quote fetched on a cache miss into the price
/// returned to the caller; the cache is not touched.
pub fn quote_result(symbol: &str, last_price: Option<i64>) -> (r: Result<i64, MarketDataError>)
    ensures
        match last_price {
            Some(p) => r == Ok::<i64, MarketDataError>(p),
            None => r is Err && r->Err_0 is QuoteUnavailable && r->Err_0->QuoteUnavailable_0@ == symbol@,
        },
{
    match last_price {
        Some(p) => Ok(p),
        None => Err(MarketDataError::QuoteUnavailable(symbol.to_owned())),
    }
}

/// Ticks never evict: a symbol cached before a batch is cached after it.
pub proof fn lemma_ticks_never_evict(m: Map<Seq<char>, i64>, ticks: Seq<Tick>, k: Seq<char>)
    requires
        m.contains_key(k),
    ensures
        apply_ticks(m, ticks).contains_key(k),
    decreases ticks.len(),
{
    if ticks.len() > 0 {
        lemma_ticks_never_evict(m, ticks.drop_last(), k);
    }
}

/// A batch of ticks changes only the symbols it carries.
pub proof fn lemma_ticks_touch_only_their_symbols(m: Map<Seq<char>, i64>, ticks: Seq<Tick>, k: Seq<char>)
    requires
        forall|i: int| 0 <= i < ticks.len() ==> (#[trigger] ticks[i]).symbol@ != k,
    ensures
        apply_ticks(m, ticks).contains_key(k) == m.contains_key(k),
        m.contains_key(k) ==> apply_ticks(m, ticks)[k] == m[k],
    decreases ticks.len(),
{
    if ticks.len() > 0 {
        assert(ticks.last() == ticks[ticks.len() - 1]);
        assert forall|i: int| 0 <= i < ticks.drop_last().len() implies (#[trigger] ticks.drop_last()[i]).symbol@ != k by {
            assert(ticks.drop_last()[i] == ticks[i]);
        }
        lemma_ticks_touch_only_their_symbols(m, ticks.drop_last(), k);
    }
}

} // verus!
