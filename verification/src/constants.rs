//! Market venues, their REST roots, and the fixed shape of one download:
//! the page limit and the column headers of the output file.
use vstd::prelude::*;

verus! {

/// Trading venue; selects the REST root and whether a contract-type
/// discriminator is sent with each query.
#[derive(Copy, Clone, PartialEq, Eq, Structural, Debug, Hash)]
pub enum MARKET {
    Spot,
    UsdFutures,
    CoinFutures,
}

/// Largest number of candles one API call returns; a page of exactly this
/// many candles means more data may exist.
pub const KLINE_LIMIT: usize = 1000;

pub open spec fn spec_market_name(m: MARKET) -> Seq<char> {
    match m {
        MARKET::Spot => "Spot"@,
        MARKET::UsdFutures => "UsdFutures"@,
        MARKET::CoinFutures => "CoinFutures"@,
    }
}

pub open spec fn spec_base_url(m: MARKET) -> Seq<char> {
    match m {
        MARKET::Spot => "https://api.binance.com/api/v3/"@,
        MARKET::UsdFutures => "https://fapi.binance.com/fapi/v1/"@,
        MARKET::CoinFutures => "https://dapi.binance.com/dapi/v1/"@,
    }
}

impl MARKET {
    /// The variant's name, used in output file names.
    pub fn market_name(self) -> (r: &'static str)
        ensures
            r@ == spec_market_name(self),
    {
        match self {
            MARKET::Spot => "Spot",
            MARKET::UsdFutures => "UsdFutures",
            MARKET::CoinFutures => "CoinFutures",
        }
    }

    /// The REST root that queries for this venue are issued against.
    pub fn base_url(self) -> (r: &'static str)
        ensures
            r@ == spec_base_url(self),
    {
        match self {
            MARKET::Spot => "https://api.binance.com/api/v3/",
            MARKET::UsdFutures => "https://fapi.binance.com/fapi/v1/",
            MARKET::CoinFutures => "https://dapi.binance.com/dapi/v1/",
        }
    }
}

pub open spec fn spec_headers() -> Seq<Seq<char>> {
    seq![
        "Open_Time"@,
        "Open"@,
        "High"@,
        "Low"@,
        "Close"@,
        "Volume"@,
        "Close"@,
        "Quote_Asset_Volume"@,
        "Number_Of_Trades"@,
        "Taker_Buy_Base_Asset_Volume"@,
        "Taker_Buy_Quote_Asset_Volume"@,
    ]
}

/// The eleven column labels of the output file, in writing order.
/// The fifth and seventh labels are both "Close": the upstream naming
/// keeps the close-time column under the same label as the close price.
pub fn headers() -> (r: Vec<&'static str>)
    ensures
        r.deep_view() == spec_headers(),
{
    let r: Vec<&'static str> = vec![
        "Open_Time",
        "Open",
        "High",
        "Low",
        "Close",
        "Volume",
        "Close",
        "Quote_Asset_Volume",
        "Number_Of_Trades",
        "Taker_Buy_Base_Asset_Volume",
        "Taker_Buy_Quote_Asset_Volume",
    ];
    proof {
        assert(r.deep_view() =~= spec_headers());
    }
    r
}

} // verus!
