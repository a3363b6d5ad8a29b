use price_feed::error::{CoinFetchError, ErrorKind};
use price_feed::market::MarketData;
use price_feed::store::{entries_to_store, not_found_error, MarketTable};
use price_feed::worker::ExecutionOutcome;

fn record(id: &str, symbol: &str, price: f64) -> MarketData {
    let mut r = MarketData::with_identity(Some(id.to_string()), Some(symbol.to_string()));
    r.current_price = Some(price.to_bits());
    r
}

#[test]
fn idempotent_upsert() {
    let mut t = MarketTable::new();
    assert!(t.upsert(record("bitcoin", "btc", 60000.0)).is_ok());
    assert!(t.upsert(record("bitcoin", "btc", 60000.0)).is_ok());
    assert_eq!(t.len(), 1);
    let row = t.get("bitcoin").unwrap();
    assert_eq!(row.current_price, Some(60000.0f64.to_bits()));
    assert!(t.upsert(record("bitcoin", "btc", 61000.0)).is_ok());
    assert_eq!(t.len(), 1);
    let row = t.get("bitcoin").unwrap();
    assert_eq!(f64::from_bits(row.current_price.unwrap()), 61000.0);
    assert_eq!(row.id.as_deref(), Some("bitcoin"));
    assert_eq!(row.symbol.as_deref(), Some("btc"));
}

#[test]
fn upsert_replaces_every_field() {
    let mut t = MarketTable::new();
    let mut first = record("ethereum", "eth", 3000.0);
    first.name = Some("Ethereum".to_string());
    first.market_cap_rank = Some(2);
    t.upsert(first).unwrap();
    t.upsert(record("ethereum", "eth", 3100.0)).unwrap();
    let row = t.get("ethereum").unwrap();
    assert_eq!(row.name, None);
    assert_eq!(row.market_cap_rank, None);
}

#[test]
fn upsert_without_id_is_refused() {
    let mut t = MarketTable::new();
    let r = t.upsert(MarketData::with_identity(None, Some("btc".to_string())));
    assert_eq!(r, Err(ErrorKind::Store));
    assert_eq!(t.len(), 0);
}

#[test]
fn partial_failure_isolation() {
    let mut t = MarketTable::new();
    let page = vec![
        Some(record("bitcoin", "btc", 60000.0)),
        Some(MarketData::with_identity(None, Some("bad".to_string()))),
        Some(record("ethereum", "eth", 3000.0)),
    ];
    assert_eq!(t.store_page(&page), ExecutionOutcome::TaskCompleted);
    assert_eq!(t.len(), 2);
    assert!(t.get("bitcoin").is_some());
    assert!(t.get("ethereum").is_some());
}

#[test]
fn absent_entries_are_skipped() {
    let mut t = MarketTable::new();
    let page = vec![None, Some(record("solana", "sol", 150.0)), None];
    assert_eq!(t.store_page(&page), ExecutionOutcome::TaskCompleted);
    assert_eq!(t.len(), 1);
}

#[test]
fn page_of_only_absent_entries_completes() {
    let mut t = MarketTable::new();
    let page: Vec<Option<MarketData>> = vec![None, None];
    assert_eq!(t.store_page(&page), ExecutionOutcome::TaskCompleted);
    assert_eq!(t.len(), 0);
}

#[test]
fn empty_page_is_empty_queue() {
    let mut t = MarketTable::new();
    let page: Vec<Option<MarketData>> = Vec::new();
    assert_eq!(t.store_page(&page), ExecutionOutcome::EmptyQueue);
    assert_eq!(t.len(), 0);
}

#[test]
fn later_entry_in_page_wins() {
    let mut t = MarketTable::new();
    let page = vec![
        Some(record("bitcoin", "btc", 1.0)),
        Some(record("bitcoin", "btc", 2.0)),
    ];
    t.store_page(&page);
    assert_eq!(t.len(), 1);
    assert_eq!(t.get("bitcoin").unwrap().current_price, Some(2.0f64.to_bits()));
}

#[test]
fn find_by_symbol_found() {
    let mut t = MarketTable::new();
    t.upsert(record("bitcoin", "btc", 60000.0)).unwrap();
    t.upsert(record("ethereum", "eth", 3000.0)).unwrap();
    let d = t.find_by_symbol("eth").unwrap();
    assert_eq!(d.id, "ethereum");
    assert_eq!(d.symbol, "eth");
    assert_eq!(d.current_price, Some(3000.0f64.to_bits()));
}

#[test]
fn find_by_symbol_not_found() {
    let t = MarketTable::new();
    match t.find_by_symbol("doge") {
        Err(CoinFetchError::NotFoundError(m)) => assert_eq!(m, "Data for doge not found !"),
        other => panic!("expected not found, got {:?}", other),
    }
}

#[test]
fn response_needs_id_and_symbol() {
    let r = MarketData::with_identity(Some("bitcoin".to_string()), None);
    assert!(r.to_response().is_none());
    let full = record("bitcoin", "btc", 5.0);
    let d = full.to_response().unwrap();
    assert_eq!(d.id, "bitcoin");
    assert_eq!(d.current_price, Some(5.0f64.to_bits()));
    let copy = full.duplicate();
    assert_eq!(copy.current_price, full.current_price);
    assert_eq!(copy.id, full.id);
}

#[test]
fn storable_needs_identifier() {
    assert!(MarketData::with_identity(Some("x".to_string()), None).is_storable());
    assert!(!MarketData::with_identity(None, Some("x".to_string())).is_storable());
}

#[test]
fn entries_to_store_skips_absent_and_unidentified() {
    let page = vec![
        Some(record("bitcoin", "btc", 1.0)),
        None,
        Some(MarketData::with_identity(None, Some("bad".to_string()))),
        Some(record("ethereum", "eth", 2.0)),
    ];
    assert_eq!(entries_to_store(&page), vec![0, 3]);
    let empty: Vec<Option<MarketData>> = Vec::new();
    assert!(entries_to_store(&empty).is_empty());
}

#[test]
fn find_by_symbol_takes_most_recent_write() {
    let mut t = MarketTable::new();
    t.upsert(record("wrapped-bitcoin", "btc", 1.0)).unwrap();
    t.upsert(record("bitcoin", "btc", 2.0)).unwrap();
    assert_eq!(t.find_by_symbol("btc").unwrap().id, "bitcoin");
    t.upsert(record("wrapped-bitcoin", "btc", 3.0)).unwrap();
    assert_eq!(t.find_by_symbol("btc").unwrap().id, "wrapped-bitcoin");
}

#[test]
fn not_found_error_message() {
    match not_found_error("pepe") {
        CoinFetchError::NotFoundError(m) => assert_eq!(m, "Data for pepe not found !"),
        other => panic!("unexpected {:?}", other),
    }
}

#[test]
fn with_identity_leaves_other_fields_empty() {
    let r = MarketData::with_identity(Some("a".to_string()), Some("b".to_string()));
    assert_eq!(r.image, None);
    assert_eq!(r.market_cap, None);
    assert_eq!(r.max_supply, None);
    assert_eq!(r.ath_date, None);
    assert_eq!(r.last_updated, None);
}
