//! The per-symbol decisions of a multi-symbol run: skip a symbol whose
//! output file already exists (the resume mechanism — a completed prior run
//! causes no further network traffic and leaves the file untouched), try a
//! fresh symbol a bounded number of times, then give up and move on.
use vstd::prelude::*;

use crate::types::FetchProps;

verus! {

/// How often one symbol's download is attempted before it is abandoned.
pub const RETRY_LIMIT: u64 = 3;

/// The span the window covers when no start is given: thirty days of
/// milliseconds.
pub const DEFAULT_WINDOW_MS: i64 = 2592000000;

/// The orchestrator's next move for one symbol.
#[derive(Copy, Clone, PartialEq, Eq, Structural, Debug)]
pub enum SymbolAction {
    Skip,
    Attempt,
    GiveUp,
}

/// Decides one symbol's next move: an existing output file is skipped
/// outright, a fresh symbol is attempted while tries remain, and a symbol
/// whose tries are spent is given up — the run itself goes on.
pub fn orchestrate_symbol(output_exists: bool, failed_attempts: u64) -> (r: SymbolAction)
    ensures
        (r is Skip) <==> output_exists,
        (r is Attempt) <==> (!output_exists && failed_attempts < RETRY_LIMIT),
        (r is GiveUp) <==> (!output_exists && failed_attempts >= RETRY_LIMIT),
{
    if output_exists {
        SymbolAction::Skip
    } else if failed_attempts < RETRY_LIMIT {
        SymbolAction::Attempt
    } else {
        SymbolAction::GiveUp
    }
}

/// The request for one symbol, derived from the run's template: only the
/// symbol differs.
pub fn props_for_symbol(template: &FetchProps, symbol: String) -> (r: FetchProps)
    ensures
        r.symbol == symbol,
        r.api_base_url == template.api_base_url,
        r.market == template.market,
        r.contract_type == template.contract_type,
        r.interval == template.interval,
        r.start_time == template.start_time,
        r.end_time == template.end_time,
        r.director == template.director,
{
    FetchProps {
        api_base_url: template.api_base_url.clone(),
        market: template.market,
        contract_type: template.contract_type.clone(),
        symbol,
        interval: template.interval.clone(),
        start_time: template.start_time,
        end_time: template.end_time,
        director: template.director.clone(),
    }
}

/// The default window start: thirty days before the given end.
pub fn default_start_time(end_ms: i64) -> (r: i64)
    requires
        end_ms - DEFAULT_WINDOW_MS >= i64::MIN,
    ensures
        r == end_ms - DEFAULT_WINDOW_MS,
{
    end_ms - DEFAULT_WINDOW_MS
}

} // verus!
