use vstd::prelude::*;

verus! {

/// One asset's market snapshot. Every field may be absent upstream.
/// Numeric fields hold the IEEE-754 bit pattern of the provider's value
/// (`f64::to_bits`), so that records compare and store exactly.
#[derive(Debug)]
pub struct MarketData {
    pub id: Option<String>,
    pub symbol: Option<String>,
    pub name: Option<String>,
    pub image: Option<String>,
    pub current_price: Option<u64>,
    pub market_cap: Option<u64>,
    pub market_cap_rank: Option<i32>,
    pub fully_diluted_valuation: Option<u64>,
    pub total_volume: Option<u64>,
    pub high_24h: Option<u64>,
    pub low_24h: Option<u64>,
    pub price_change_24h: Option<u64>,
    pub price_change_percentage_24h: Option<u64>,
    pub market_cap_change_24h: Option<u64>,
    pub market_cap_change_percentage_24h: Option<u64>,
    pub circulating_supply: Option<u64>,
    pub total_supply: Option<u64>,
    pub max_supply: Option<u64>,
    pub ath: Option<u64>,
    pub ath_change_percentage: Option<u64>,
    pub ath_date: Option<String>,
    pub atl: Option<u64>,
    pub atl_change_percentage: Option<u64>,
    pub atl_date: Option<String>,
    pub last_updated: Option<String>,
}

/// What the read API returns for one stored asset.
#[derive(Debug)]
pub struct ResponseData {
    pub id: String,
    pub symbol: String,
    pub name: Option<String>,
    pub image: Option<String>,
    pub current_price: Option<u64>,
    pub market_cap: Option<u64>,
    pub market_cap_rank: Option<i32>,
    pub fully_diluted_valuation: Option<u64>,
    pub total_volume: Option<u64>,
    pub high_24h: Option<u64>,
    pub low_24h: Option<u64>,
    pub price_change_24h: Option<u64>,
    pub price_change_percentage_24h: Option<u64>,
    pub market_cap_change_24h: Option<u64>,
    pub market_cap_change_percentage_24h: Option<u64>,
    pub circulating_supply: Option<u64>,
    pub total_supply: Option<u64>,
    pub max_supply: Option<u64>,
}

pub(crate) fn copy_text(s: &Option<String>) -> (r: Option<String>)
    ensures
        r == *s,
{
    match s {
        Some(t) => Some(t.clone()),
        None => None,
    }
}

/// The response for a stored record: its identifier, symbol, descriptive
/// fields and current market figures.
pub open spec fn response_of(r: MarketData) -> ResponseData {
    ResponseData {
        id: r.id->Some_0,
        symbol: r.symbol->Some_0,
        name: r.name,
        image: r.image,
        current_price: r.current_price,
        market_cap: r.market_cap,
        market_cap_rank: r.market_cap_rank,
        fully_diluted_valuation: r.fully_diluted_valuation,
        total_volume: r.total_volume,
        high_24h: r.high_24h,
        low_24h: r.low_24h,
        price_change_24h: r.price_change_24h,
        price_change_percentage_24h: r.price_change_percentage_24h,
        market_cap_change_24h: r.market_cap_change_24h,
        market_cap_change_percentage_24h: r.market_cap_change_percentage_24h,
        circulating_supply: r.circulating_supply,
        total_supply: r.total_supply,
        max_supply: r.max_supply,
    }
}

impl MarketData {
    /// A record with the given identifier and symbol and no other field.
    pub fn with_identity(id: Option<String>, symbol: Option<String>) -> (r: MarketData)
        ensures
            r == (MarketData {
                id,
                symbol,
                name: None,
                image: None,
                current_price: None,
                market_cap: None,
                market_cap_rank: None,
                fully_diluted_valuation: None,
                total_volume: None,
                high_24h: None,
                low_24h: None,
                price_change_24h: None,
                price_change_percentage_24h: None,
                market_cap_change_24h: None,
                market_cap_change_percentage_24h: None,
                circulating_supply: None,
                total_supply: None,
                max_supply: None,
                ath: None,
                ath_change_percentage: None,
                ath_date: None,
                atl: None,
                atl_change_percentage: None,
                atl_date: None,
                last_updated: None,
            }),
    {
        MarketData {
            id,
            symbol,
            name: None,
            image: None,
            current_price: None,
            market_cap: None,
            market_cap_rank: None,
            fully_diluted_valuation: None,
            total_volume: None,
            high_24h: None,
            low_24h: None,
            price_change_24h: None,
            price_change_percentage_24h: None,
            market_cap_change_24h: None,
            market_cap_change_percentage_24h: None,
            circulating_supply: None,
            total_supply: None,
            max_supply: None,
            ath: None,
            ath_change_percentage: None,
            ath_date: None,
            atl: None,
            atl_change_percentage: None,
            atl_date: None,
            last_updated: None,
        }
    }

    /// Whether the record can be stored: only a record with an identifier
    /// has a key.
    pub fn is_storable(&self) -> (r: bool)
        ensures
            r == self.id is Some,
    {
        self.id.is_some()
    }

    /// An exact copy of the record.
    pub fn duplicate(&self) -> (r: MarketData)
        ensures
            r == *self,
    {
        MarketData {
            id: copy_text(&self.id),
            symbol: copy_text(&self.symbol),
            name: copy_text(&self.name),
            image: copy_text(&self.image),
            current_price: self.current_price,
            market_cap: self.market_cap,
            market_cap_rank: self.market_cap_rank,
            fully_diluted_valuation: self.fully_diluted_valuation,
            total_volume: self.total_volume,
            high_24h: self.high_24h,
            low_24h: self.low_24h,
            price_change_24h: self.price_change_24h,
            price_change_percentage_24h: self.price_change_percentage_24h,
            market_cap_change_24h: self.market_cap_change_24h,
            market_cap_change_percentage_24h: self.market_cap_change_percentage_24h,
            circulating_supply: self.circulating_supply,
            total_supply: self.total_supply,
            max_supply: self.max_supply,
            ath: self.ath,
            ath_change_percentage: self.ath_change_percentage,
            ath_date: copy_text(&self.ath_date),
            atl: self.atl,
            atl_change_percentage: self.atl_change_percentage,
            atl_date: copy_text(&self.atl_date),
            last_updated: copy_text(&self.last_updated),
        }
    }

    /// The read API's view of a stored record; `None` when the record has
    /// no identifier or no symbol.
    pub fn to_response(&self) -> (r: Option<ResponseData>)
        ensures
            r is Some <==> (self.id is Some && self.symbol is Some),
            r matches Some(d) ==> d == response_of(*self),
    {
        match (&self.id, &self.symbol) {
            (Some(id), Some(symbol)) => Some(ResponseData {
                id: id.clone(),
                symbol: symbol.clone(),
                name: copy_text(&self.name),
                image: copy_text(&self.image),
                current_price: self.current_price,
                market_cap: self.market_cap,
                market_cap_rank: self.market_cap_rank,
                fully_diluted_valuation: self.fully_diluted_valuation,
                total_volume: self.total_volume,
                high_24h: self.high_24h,
                low_24h: self.low_24h,
                price_change_24h: self.price_change_24h,
                price_change_percentage_24h: self.price_change_percentage_24h,
                market_cap_change_24h: self.market_cap_change_24h,
                market_cap_change_percentage_24h: self.market_cap_change_percentage_24h,
                circulating_supply: self.circulating_supply,
                total_supply: self.total_supply,
                max_supply: self.max_supply,
            }),
            _ => None,
        }
    }
}

} // verus!
