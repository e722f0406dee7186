//! Value types of the downloader: the per-symbol request, one candle record,
//! and the shapes of the instrument directory that the exchange serves.
use vstd::prelude::*;

use crate::constants::MARKET;

verus! {

/// One logical download task: venue, instrument, bucket width, window and
/// output directory. Each pagination step derives a new value differing only
/// in `start_time`.
#[derive(Clone, Debug)]
pub struct FetchProps {
    pub api_base_url: String,
    pub market: MARKET,
    pub contract_type: String,
    pub symbol: String,
    pub interval: String,
    /// Window start, epoch milliseconds UTC; never greater than `end_time`
    /// on a request that is issued.
    pub start_time: i64,
    /// Window end, epoch milliseconds UTC.
    pub end_time: i64,
    /// Directory the output file is written into; must already exist.
    pub director: String,
}

/// A tagged message about a fetch, as surrounding tooling passes it around.
#[derive(Debug)]
pub struct FetchPropsAction {
    pub type_: String,
    pub payload: String,
}

/// One time-bucket record. Prices and volumes stay as the strings the
/// exchange served, preserving its precision; only the two times and the
/// trade count are numeric. The final field of the raw twelve-field record
/// is carried but never written to the output.
#[derive(Clone, Debug)]
pub struct Candle {
    pub open_time: i64,
    pub open: String,
    pub high: String,
    pub low: String,
    pub close: String,
    pub volume: String,
    pub close_time: u64,
    pub quote_asset_volume: String,
    pub trade_count: u64,
    pub taker_buy_base_volume: String,
    pub taker_buy_quote_volume: String,
    pub ignore: String,
}

/// The instrument directory one `exchangeInfo` call returns.
#[derive(Debug)]
pub struct ExchangeInfo {
    pub rate_limits: Option<Vec<RateLimit>>,
    pub server_time: Option<i64>,
    pub assets: Option<Vec<Asset>>,
    pub symbols: Vec<Symbol>,
    pub timezone: String,
}

#[derive(Debug)]
pub struct Asset {
    pub asset: String,
    pub margin_available: bool,
    pub auto_asset_exchange: Option<String>,
}

#[derive(Debug)]
pub struct RateLimit {
    pub interval: String,
    pub interval_num: i64,
    pub limit: i64,
    pub rate_limit_type: String,
}

/// One instrument directory entry. An entry is tradable when its `status`
/// is absent or reads "TRADING".
#[derive(Debug)]
pub struct Symbol {
    pub symbol: String,
    pub pair: Option<String>,
    pub contract_type: Option<String>,
    pub delivery_date: Option<i64>,
    pub onboard_date: Option<i64>,
    pub status: Option<String>,
    pub maint_margin_percent: Option<String>,
    pub required_margin_percent: Option<String>,
    pub base_asset: String,
    pub quote_asset: String,
    pub margin_asset: Option<String>,
    pub price_precision: Option<i64>,
    pub quantity_precision: Option<i64>,
    pub base_asset_precision: Option<i64>,
    pub quote_precision: Option<i64>,
    pub underlying_type: Option<String>,
    pub underlying_sub_type: Option<Vec<String>>,
    pub settle_plan: Option<i64>,
    pub trigger_protect: Option<String>,
    pub filters: Vec<Filter>,
    pub order_type: Option<Vec<String>>,
    pub time_in_force: Option<Vec<String>>,
    pub liquidation_fee: Option<String>,
    pub market_take_bound: Option<String>,
}

#[derive(Debug)]
pub struct Filter {
    pub filter_type: Option<String>,
    pub max_price: Option<String>,
    pub min_price: Option<String>,
    pub tick_size: Option<String>,
    pub max_qty: Option<String>,
    pub min_qty: Option<String>,
    pub step_size: Option<String>,
    pub limit: Option<i64>,
    pub notional: Option<String>,
    pub multiplier_up: Option<String>,
    pub multiplier_down: Option<String>,
    pub multiplier_decimal: Option<String>,
}

} // verus!
