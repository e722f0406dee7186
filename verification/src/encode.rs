//! Laying candles out as output rows, and naming the output file. The file
//! name carries the first request's start time, so a retried run targets
//! the same artifact; writing the rows out is the caller's business.
use vstd::prelude::*;
use vstd::string::StringExecFns;

use crate::constants::spec_market_name;
use crate::numstr::i64_to_string;
use crate::numstr::spec_i64_str;
use crate::numstr::spec_u64_digits;
use crate::numstr::u64_to_string;
use crate::types::Candle;
use crate::types::FetchProps;

verus! {

/// The eleven cells one candle contributes, in column order; the raw
/// record's final field is not written.
pub open spec fn spec_candle_row(c: Candle) -> Seq<Seq<char>> {
    seq![
        spec_i64_str(c.open_time as int),
        c.open@,
        c.high@,
        c.low@,
        c.close@,
        c.volume@,
        spec_u64_digits(c.close_time as nat),
        c.quote_asset_volume@,
        spec_u64_digits(c.trade_count as nat),
        c.taker_buy_base_volume@,
        c.taker_buy_quote_volume@,
    ]
}

/// Turns candles into output rows, one row of eleven cells per candle, in
/// order.
pub fn encode_candle(candles: Vec<Candle>) -> (r: Vec<Vec<String>>)
    ensures
        r@.len() == candles@.len(),
        forall|i: int|
            0 <= i < candles@.len() ==> (#[trigger] r@[i]).deep_view() == spec_candle_row(
                candles@[i],
            ),
{
    let mut r: Vec<Vec<String>> = Vec::new();
    let mut idx: usize = 0;
    while idx < candles.len()
        invariant
            idx <= candles@.len(),
            r@.len() == idx,
            forall|i: int|
                0 <= i < idx ==> (#[trigger] r@[i]).deep_view() == spec_candle_row(candles@[i]),
        decreases candles@.len() - idx,
    {
        let c = &candles[idx];
        let mut row: Vec<String> = Vec::new();
        row.push(i64_to_string(c.open_time));
        row.push(c.open.clone());
        row.push(c.high.clone());
        row.push(c.low.clone());
        row.push(c.close.clone());
        row.push(c.volume.clone());
        row.push(u64_to_string(c.close_time));
        row.push(c.quote_asset_volume.clone());
        row.push(u64_to_string(c.trade_count));
        row.push(c.taker_buy_base_volume.clone());
        row.push(c.taker_buy_quote_volume.clone());
        proof {
            assert(row.deep_view() =~~= spec_candle_row(candles@[idx as int]));
        }
        r.push(row);
        idx += 1;
    }
    r
}

/// The deterministic destination path of one download:
/// `{director}/{symbol}_{market}_{interval}_{initStart}_{end}.csv`, with the
/// first request's start so every page of one task names the same file.
pub open spec fn spec_csv_file_path(p: FetchProps, init_start_time: i64) -> Seq<char> {
    p.director@ + "/"@ + p.symbol@ + "_"@ + spec_market_name(p.market) + "_"@ + p.interval@ + "_"@
        + spec_i64_str(init_start_time as int) + "_"@ + spec_i64_str(p.end_time as int) + ".csv"@
}

/// Renders the destination path for one download task.
pub fn csv_file_path(fetch_props: &FetchProps, init_start_time: i64) -> (r: String)
    ensures
        r@ == spec_csv_file_path(*fetch_props, init_start_time),
{
    let mut s = fetch_props.director.clone();
    s.append("/");
    s.append(fetch_props.symbol.as_str());
    s.append("_");
    s.append(fetch_props.market.market_name());
    s.append("_");
    s.append(fetch_props.interval.as_str());
    s.append("_");
    let start_str = i64_to_string(init_start_time);
    s.append(start_str.as_str());
    s.append("_");
    let end_str = i64_to_string(fetch_props.end_time);
    s.append(end_str.as_str());
    s.append(".csv");
    s
}

} // verus!
