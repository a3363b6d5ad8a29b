use price_feed::error::{CoinFetchError, ErrorKind};
use price_feed::provider::{markets_path, page_request, request_url, Currency};
use price_feed::text::{push_decimal, str_eq};

#[test]
fn validation_gate_rejects_unknown_currency() {
    match page_request("not-a-currency", 1) {
        Err(CoinFetchError::ValidationError(m)) => {
            assert_eq!(m, "Unsupported currency: not-a-currency")
        }
        other => panic!("expected a validation error, got {:?}", other),
    }
}

#[test]
fn validation_error_is_client_error() {
    let e = page_request("xyz", 3).unwrap_err();
    assert_eq!(e.kind(), ErrorKind::Validation);
    assert_eq!(e.status_code(), 400);
    assert!(e.kind().is_client_error());
}

#[test]
fn page_request_for_usd_page_one() {
    let p = page_request("usd", 1).unwrap();
    assert_eq!(
        p,
        "coins/markets?vs_currency=usd&order=market_cap_desc&per_page=250&page=1&sparkline=false"
    );
}

#[test]
fn markets_path_multi_digit_page() {
    assert_eq!(
        markets_path(Currency::Eur, 1207),
        "coins/markets?vs_currency=eur&order=market_cap_desc&per_page=250&page=1207&sparkline=false"
    );
}

#[test]
fn markets_path_largest_page() {
    assert!(markets_path(Currency::Btc, u16::MAX).ends_with("&page=65535&sparkline=false"));
}

#[test]
fn currency_codes_round_trip() {
    let all = [
        Currency::Usd,
        Currency::Eur,
        Currency::Gbp,
        Currency::Jpy,
        Currency::Inr,
        Currency::Btc,
        Currency::Eth,
    ];
    for c in all {
        assert_eq!(Currency::parse(c.as_str()).unwrap(), c);
    }
}

#[test]
fn currency_parse_is_case_sensitive() {
    assert!(Currency::parse("USD").is_err());
    assert!(Currency::parse("").is_err());
    assert!(Currency::parse("usdt").is_err());
}

#[test]
fn request_url_joins_with_slash() {
    assert_eq!(
        request_url("https://api.example.com/api/v3", "coins/markets?page=2"),
        "https://api.example.com/api/v3/coins/markets?page=2"
    );
}

#[test]
fn decimal_rendering() {
    let mut s = String::from("n=");
    push_decimal(&mut s, 0);
    assert_eq!(s, "n=0");
    let mut t = String::new();
    push_decimal(&mut t, 18446744073709551615);
    assert_eq!(t, "18446744073709551615");
    let mut u = String::new();
    push_decimal(&mut u, 250);
    assert_eq!(u, "250");
}

#[test]
fn string_equality() {
    assert!(str_eq("abc", "abc"));
    assert!(str_eq("", ""));
    assert!(!str_eq("abc", "abd"));
    assert!(!str_eq("abc", "ab"));
}

#[test]
fn error_statuses_and_messages() {
    let g = CoinFetchError::GeckoError("connection refused".to_string());
    assert_eq!(g.status_code(), 500);
    assert_eq!(g.message(), "Failed to fetch result from CoinGecko");
    assert_eq!(g.kind(), ErrorKind::Transport);
    let u = CoinFetchError::UnexpectedError("expected value at line 1".to_string());
    assert_eq!(u.status_code(), 500);
    assert_eq!(u.message(), "expected value at line 1");
    assert_eq!(u.kind(), ErrorKind::Schema);
    let n = CoinFetchError::NotFoundError("Data for xyz not found !".to_string());
    assert_eq!(n.status_code(), 404);
    let r = n.error_response();
    assert_eq!(r.code, 404);
    assert_eq!(r.message, "Data for xyz not found !");
    assert!(!ErrorKind::Commit.is_client_error());
    assert!(!ErrorKind::Store.is_client_error());
    assert!(ErrorKind::NotFound.is_client_error());
}
