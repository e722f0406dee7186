//! Building the query string for one page request: the fixed parameters in
//! a stable order, url-encoded behind the "klines?" route. Futures venues
//! carry a contract-type discriminator; spot does not.
use vstd::prelude::*;
use vstd::string::StringExecFns;

use crate::constants::MARKET;
use crate::numstr::i64_to_string;
use crate::numstr::spec_i64_str;
use crate::types::FetchProps;

verus! {

/// The url-encoded form of the given key/value pairs, keys sorted, joined
/// with '&'.
pub uninterp spec fn qs_encode(pairs: Seq<(Seq<char>, Seq<char>)>) -> Seq<char>;

pub open spec fn pairs_view(ps: Seq<(String, String)>) -> Seq<(Seq<char>, Seq<char>)> {
    ps.map_values(|p: (String, String)| (p.0@, p.1@))
}

/// Relies on serde_qs::to_string over a key-sorted map: it yields the
/// url-encoded key=value pairs joined with '&', and the output depends on
/// the given pairs alone.
#[verifier::external_body]
fn encode_query_pairs(pairs: &Vec<(String, String)>) -> (r: String)
    ensures
        r@ == qs_encode(pairs_view(pairs@)),
{
    let map: std::collections::BTreeMap<&str, &str> = pairs.iter().map(
        |p| (p.0.as_str(), p.1.as_str()),
    ).collect();
    serde_qs::to_string(&map).unwrap_or_default()
}

/// The parameters one page request carries, in the order they are handed to
/// the encoder: instrument, bucket width, window bounds as digit strings,
/// the fixed page limit, and the contract type off the spot venue.
pub open spec fn spec_query_pairs(p: FetchProps) -> Seq<(Seq<char>, Seq<char>)> {
    let base = seq![
        ("symbol"@, p.symbol@),
        ("interval"@, p.interval@),
        ("startTime"@, spec_i64_str(p.start_time as int)),
        ("endTime"@, spec_i64_str(p.end_time as int)),
        ("limit"@, "1000"@),
    ];
    if p.market is Spot {
        base
    } else {
        base.push(("contractType"@, p.contract_type@))
    }
}

/// Builds the query string for one page of candle data.
pub fn generate_query_string(fetch_props: FetchProps) -> (r: String)
    ensures
        r@ == "klines?"@ + qs_encode(spec_query_pairs(fetch_props)),
{
    let is_spot = match fetch_props.market {
        MARKET::Spot => true,
        _ => false,
    };
    let mut pairs: Vec<(String, String)> = Vec::new();
    pairs.push(("symbol".to_owned(), fetch_props.symbol.clone()));
    pairs.push(("interval".to_owned(), fetch_props.interval.clone()));
    pairs.push(("startTime".to_owned(), i64_to_string(fetch_props.start_time)));
    pairs.push(("endTime".to_owned(), i64_to_string(fetch_props.end_time)));
    pairs.push(("limit".to_owned(), "1000".to_owned()));
    if !is_spot {
        pairs.push(("contractType".to_owned(), fetch_props.contract_type.clone()));
    }
    proof {
        assert(pairs_view(pairs@) =~~= spec_query_pairs(fetch_props));
    }
    let encoded = encode_query_pairs(&pairs);
    let mut out = "klines?".to_owned();
    out.append(encoded.as_str());
    out
}

} // verus!
