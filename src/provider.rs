use vstd::prelude::*;
use vstd::string::StringExecFns;
use crate::error::CoinFetchError;
use crate::text::{decimal, push_decimal, str_eq};

verus! {

/// Number of records asked for in one page.
pub const PAGE_SIZE: u64 = 250;

/// The currencies that market data can be quoted in.
#[derive(Clone, Copy, Debug, PartialEq, Eq, Structural)]
pub enum Currency {
    Usd,
    Eur,
    Gbp,
    Jpy,
    Inr,
    Btc,
    Eth,
}

/// The provider's code for a currency.
pub open spec fn currency_code(c: Currency) -> Seq<char> {
    match c {
        Currency::Usd => "usd"@,
        Currency::Eur => "eur"@,
        Currency::Gbp => "gbp"@,
        Currency::Jpy => "jpy"@,
        Currency::Inr => "inr"@,
        Currency::Btc => "btc"@,
        Currency::Eth => "eth"@,
    }
}

pub open spec fn is_supported_code(s: Seq<char>) -> bool {
    exists|c: Currency| currency_code(c) == s
}

/// The message of the error for an unsupported currency code.
pub open spec fn unsupported_message(s: Seq<char>) -> Seq<char> {
    "Unsupported currency: "@ + s
}

/// The relative path and query of the request for one page of market data.
pub open spec fn markets_path_of(c: Currency, page: nat) -> Seq<char> {
    "coins/markets?vs_currency="@ + currency_code(c) + "&order=market_cap_desc&per_page="@
        + decimal(PAGE_SIZE as nat) + "&page="@ + decimal(page) + "&sparkline=false"@
}

/// The full URL of a request: the base, a slash, then the relative path.
pub open spec fn url_of(base: Seq<char>, path: Seq<char>) -> Seq<char> {
    base + "/"@ + path
}

impl Currency {
    pub fn as_str(&self) -> (r: &'static str)
        ensures
            r@ == currency_code(*self),
    {
        match self {
            Currency::Usd => "usd",
            Currency::Eur => "eur",
            Currency::Gbp => "gbp",
            Currency::Jpy => "jpy",
            Currency::Inr => "inr",
            Currency::Btc => "btc",
            Currency::Eth => "eth",
        }
    }

    /// Reads a currency code; anything outside the supported set is a
    /// validation error.
    pub fn parse(s: &str) -> (r: Result<Currency, CoinFetchError>)
        ensures
            r is Ok <==> is_supported_code(s@),
            r matches Ok(c) ==> currency_code(c) == s@,
            r matches Err(e) ==> e matches CoinFetchError::ValidationError(m)
                && m@ == unsupported_message(s@),
    {
        let r = Currency::parse_code(s);
        if let Ok(c) = r {
            assert(currency_code(c) == s@);
        }
        r
    }

    fn parse_code(s: &str) -> (r: Result<Currency, CoinFetchError>)
        ensures
            r matches Ok(c) ==> currency_code(c) == s@,
            r is Err ==> !is_supported_code(s@),
            r matches Err(e) ==> e matches CoinFetchError::ValidationError(m)
                && m@ == unsupported_message(s@),
    {
        if str_eq(s, "usd") {
            Ok(Currency::Usd)
        } else if str_eq(s, "eur") {
            Ok(Currency::Eur)
        } else if str_eq(s, "gbp") {
            Ok(Currency::Gbp)
        } else if str_eq(s, "jpy") {
            Ok(Currency::Jpy)
        } else if str_eq(s, "inr") {
            Ok(Currency::Inr)
        } else if str_eq(s, "btc") {
            Ok(Currency::Btc)
        } else if str_eq(s, "eth") {
            Ok(Currency::Eth)
        } else {
            assert forall|c: Currency| currency_code(c) != s@ by {
                match c {
                    Currency::Usd => {},
                    Currency::Eur => {},
                    Currency::Gbp => {},
                    Currency::Jpy => {},
                    Currency::Inr => {},
                    Currency::Btc => {},
                    Currency::Eth => {},
                }
            }
            let mut m = String::from_str("Unsupported currency: ");
            m.append(s);
            Err(CoinFetchError::ValidationError(m))
        }
    }
}

/// The relative path and query that ask the provider for one page of
/// market data, ordered by descending market capitalisation.
pub fn markets_path(currency: Currency, page: u16) -> (r: String)
    ensures
        r@ == markets_path_of(currency, page as nat),
{
    let mut p = String::from_str("coins/markets?vs_currency=");
    p.append(currency.as_str());
    p.append("&order=market_cap_desc&per_page=");
    push_decimal(&mut p, PAGE_SIZE);
    p.append("&page=");
    push_decimal(&mut p, page as u64);
    p.append("&sparkline=false");
    p
}

/// Validates the currency code, then builds the page request. An
/// unsupported code fails before any request exists to be sent.
pub fn page_request(currency: &str, page: u16) -> (r: Result<String, CoinFetchError>)
    ensures
        r is Ok <==> is_supported_code(currency@),
        r matches Ok(p) ==> exists|c: Currency|
            currency_code(c) == currency@ && p@ == #[trigger] markets_path_of(c, page as nat),
        r matches Err(e) ==> e matches CoinFetchError::ValidationError(m)
            && m@ == unsupported_message(currency@),
{
    match Currency::parse(currency) {
        Ok(c) => Ok(markets_path(c, page)),
        Err(e) => Err(e),
    }
}

/// Joins the provider's base URL and a relative request path.
pub fn request_url(base: &str, path: &str) -> (r: String)
    ensures
        r@ == url_of(base@, path@),
{
    let mut u = String::from_str(base);
    u.append("/");
    u.append(path);
    u
}

} // verus!
