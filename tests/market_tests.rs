use trade_gateway::market_data::{
    history_window, symbol_for_token, quote_result, Instrument, MarketData, MarketDataError,
    PriceLookup, Tick,
};
use trade_gateway::ranking::{outperforms, Performance, RankError, Ranker};

fn md(symbols: &[&str]) -> MarketData {
    MarketData::with_watchlist(symbols.iter().map(|s| s.to_string()).collect())
}

fn tick(symbol: &str, price: i64) -> Tick {
    Tick { symbol: symbol.to_string(), last_price: price }
}

#[test]
fn ranking_picks_best_with_exact_performance() {
    let m = md(&["A", "B"]);
    let (sym, p) = m.best_performer(&vec![vec![100, 90], vec![100, 130]]).unwrap();
    assert_eq!(sym, "B");
    assert_eq!(p, Performance { first: 100, last: 130 });
    // (130 - 100) / 100 * 100 == 30.0
    assert_eq!((p.last - p.first) * 100, 30 * p.first);
}

#[test]
fn ranking_fails_on_single_candle() {
    let m = md(&["A", "B"]);
    let r = m.best_performer(&vec![vec![100], vec![100, 130]]);
    assert_eq!(r, Err(RankError::InsufficientData("A".to_string())));
    let r = m.best_performer(&vec![vec![100, 130]]);
    assert_eq!(r, Err(RankError::InsufficientData("B".to_string())));
}

#[test]
fn ranking_fails_on_non_positive_reference() {
    let m = md(&["A", "B"]);
    let r = m.best_performer(&vec![vec![100, 130], vec![0, 130]]);
    assert_eq!(r, Err(RankError::InvalidReferencePrice("B".to_string())));
}

#[test]
fn ranking_empty_watchlist_is_no_data() {
    let m = md(&[]);
    assert_eq!(m.best_performer(&vec![]), Err(RankError::NoData));
}

#[test]
fn ranking_ties_keep_watchlist_order() {
    let m = md(&["X", "Y", "Z"]);
    let (sym, _) = m.best_performer(&vec![vec![100, 110], vec![200, 220], vec![50, 55]]).unwrap();
    assert_eq!(sym, "X");
    let (sym, _) = m.best_performer(&vec![vec![100, 90], vec![200, 220], vec![50, 55]]).unwrap();
    assert_eq!(sym, "Y");
}

#[test]
fn ranker_steps_symbol_by_symbol() {
    let mut r = Ranker::new(vec!["A".to_string(), "B".to_string()]);
    assert_eq!(r.next_symbol(), Some("A".to_string()));
    assert_eq!(r.feed(&vec![100, 90]), Ok(()));
    assert_eq!(r.next_symbol(), Some("B".to_string()));
    assert_eq!(r.feed(&vec![100, 130]), Ok(()));
    assert_eq!(r.next_symbol(), None);
    assert_eq!(r.finish(), Ok(("B".to_string(), Performance { first: 100, last: 130 })));
}

#[test]
fn outperforms_compares_percentages() {
    let a = Performance { first: 100, last: 130 };
    let b = Performance { first: 1000, last: 1200 };
    assert!(outperforms(&a, &b));
    assert!(!outperforms(&b, &a));
    assert!(!outperforms(&a, &a));
    let big = Performance { first: i64::MAX, last: i64::MIN };
    assert!(!outperforms(&big, &a));
}

#[test]
fn cached_symbol_needs_no_fetch() {
    let mut m = md(&["TCS"]);
    assert_eq!(m.get_quote("TCS"), PriceLookup::FetchQuote);
    m.on_ticks(&vec![tick("TCS", 350_000)]);
    for _ in 0..3 {
        assert_eq!(m.get_quote("TCS"), PriceLookup::Cached(350_000));
    }
    assert_eq!(m.get_quote("INFY"), PriceLookup::FetchQuote);
}

#[test]
fn ticks_last_write_wins_per_symbol() {
    let mut m = MarketData::new();
    m.on_ticks(&vec![tick("TCS", 1), tick("ITC", 2), tick("TCS", 3)]);
    assert_eq!(m.get_quote("TCS"), PriceLookup::Cached(3));
    assert_eq!(m.get_quote("ITC"), PriceLookup::Cached(2));
    m.record_price("ITC".to_string(), 5);
    assert_eq!(m.get_quote("ITC"), PriceLookup::Cached(5));
    assert_eq!(m.get_quote("TCS"), PriceLookup::Cached(3));
}

#[test]
fn fallback_quote_result() {
    assert_eq!(quote_result("SBIN", Some(80_000)), Ok(80_000));
    assert_eq!(quote_result("SBIN", None), Err(MarketDataError::QuoteUnavailable("SBIN".to_string())));
}

#[test]
fn default_watchlist_order() {
    let m = MarketData::new();
    assert_eq!(m.watchlist, vec!["RELIANCE", "TCS", "HDFCBANK", "INFY", "SBIN", "TATAMOTORS", "ITC"]);
}

fn inst(symbol: &str, token: u32) -> Instrument {
    Instrument { tradingsymbol: symbol.to_string(), instrument_token: token }
}

#[test]
fn instrument_token_is_first_match() {
    let list = vec![inst("TCS", 1), inst("ITC", 2), inst("ITC", 3)];
    assert_eq!(MarketData::get_instrumental_token(&list, "ITC"), Ok(2));
    assert_eq!(
        MarketData::get_instrumental_token(&list, "SBIN"),
        Err(MarketDataError::InstrumentNotFound("SBIN".to_string()))
    );
}

#[test]
fn subscription_tokens_follow_watchlist() {
    let m = md(&["ITC", "SBIN", "TCS"]);
    let list = vec![inst("TCS", 11), inst("ITC", 22)];
    assert_eq!(m.subscription_tokens(&list), vec![22, 11]);
    assert!(m.subscription_tokens(&vec![]).is_empty());
}

#[test]
fn history_window_bounds() {
    assert_eq!(history_window(1_000, 20), (980, 1_000));
    assert_eq!(history_window(i64::MIN + 5, 20), (i64::MIN, i64::MIN + 5));
}

#[test]
fn token_resolves_to_first_symbol() {
    let list = vec![inst("TCS", 1), inst("ITC", 2), inst("ITCX", 2)];
    assert_eq!(symbol_for_token(&list, 2), Some("ITC".to_string()));
    assert_eq!(symbol_for_token(&list, 9), None);
}
