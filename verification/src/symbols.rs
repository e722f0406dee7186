//! Filtering the instrument directory to the symbols that can be traded
//! now: an entry counts as tradable when its status is absent or reads
//! "TRADING". Order is kept as the directory served it.
use vstd::prelude::*;

use crate::types::ExchangeInfo;
use crate::types::Symbol;

verus! {

pub open spec fn spec_tradable(s: Symbol) -> bool {
    match s.status {
        Some(v) => v@ == "TRADING"@,
        None => true,
    }
}

/// The names of the tradable entries, in directory order.
pub open spec fn spec_trading_symbols(ss: Seq<Symbol>) -> Seq<Seq<char>>
    decreases ss.len(),
{
    if ss.len() == 0 {
        Seq::empty()
    } else {
        let rest = spec_trading_symbols(ss.drop_last());
        if spec_tradable(ss.last()) {
            rest.push(ss.last().symbol@)
        } else {
            rest
        }
    }
}

/// Keeps, in served order, each symbol whose status is absent or "TRADING".
pub fn get_trading_symbols(exchange_info: &ExchangeInfo) -> (r: Vec<String>)
    ensures
        r.deep_view() == spec_trading_symbols(exchange_info.symbols@),
{
    let trading: String = "TRADING".to_owned();
    let mut r: Vec<String> = Vec::new();
    let mut i: usize = 0;
    while i < exchange_info.symbols.len()
        invariant
            i <= exchange_info.symbols@.len(),
            trading@ == "TRADING"@,
            r.deep_view() == spec_trading_symbols(exchange_info.symbols@.take(i as int)),
        decreases exchange_info.symbols@.len() - i,
    {
        let sym = &exchange_info.symbols[i];
        let keep = match &sym.status {
            Some(v) => *v == trading,
            None => true,
        };
        if keep {
            r.push(sym.symbol.clone());
        }
        proof {
            let pre = exchange_info.symbols@.take(i as int);
            let post = exchange_info.symbols@.take(i as int + 1);
            assert(post.drop_last() =~= pre);
            assert(post.last() == exchange_info.symbols@[i as int]);
            assert(r.deep_view() =~~= spec_trading_symbols(post));
        }
        i += 1;
    }
    proof {
        assert(exchange_info.symbols@.take(exchange_info.symbols@.len() as int)
            =~= exchange_info.symbols@);
    }
    r
}

} // verus!
