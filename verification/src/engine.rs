//! The pagination engine: one download is a chain of bounded requests. Each
//! answered page either ends the chain (a short page) or advances the window
//! to the open time of the page's last candle; that boundary candle is
//! removed from the accumulator and re-fetched as the head of the next page,
//! so the seam never drops or doubles a record.
//!
//! The engine itself never touches the network: callers issue one request
//! per step (`generate_query_string` on `state.props` gives the query) and
//! hand the decoded page to `apply_page`.
use vstd::prelude::*;

use crate::constants::KLINE_LIMIT;
use crate::types::Candle;
use crate::types::FetchProps;

verus! {

/// The engine's state between two round trips: the request to issue next,
/// the start of the very first request (it names the output file), and the
/// candles gathered so far.
pub struct FetchState {
    pub props: FetchProps,
    pub init_start_time: i64,
    pub candles: Vec<Candle>,
}

/// What one answered page means: either the chain goes on with a new state
/// (exactly one more round trip is owed), or the series is complete.
pub enum StepOutcome {
    Continue(FetchState),
    Finished(Vec<Candle>),
}

/// Starts one symbol's download. The caller must hold the window invariant;
/// a violated window is a caller error, never silently swapped.
pub fn get_historical_candlesticks(fetch_props: FetchProps) -> (r: FetchState)
    requires
        fetch_props.start_time <= fetch_props.end_time,
    ensures
        r.props == fetch_props,
        r.init_start_time == fetch_props.start_time,
        r.candles@ == Seq::<Candle>::empty(),
{
    let init = fetch_props.start_time;
    FetchState { props: fetch_props, init_start_time: init, candles: Vec::new() }
}

/// Feeds the page one round trip returned into the engine. A page shorter
/// than `KLINE_LIMIT` finishes the series as the accumulator plus the whole
/// page; a full page is appended without its last candle, whose open time
/// becomes the next window start.
pub fn apply_page(state: FetchState, page: Vec<Candle>) -> (r: StepOutcome)
    requires
        state.props.start_time <= state.props.end_time,
    ensures
        (r is Continue) <==> page@.len() >= KLINE_LIMIT,
        page@.len() < KLINE_LIMIT ==> (r matches StepOutcome::Finished(s) && s@ == state.candles@
            + page@),
        page@.len() >= KLINE_LIMIT ==> (r matches StepOutcome::Continue(st) && {
            &&& st.candles@ == state.candles@ + page@.drop_last()
            &&& st.props.start_time == page@.last().open_time
            &&& st.props.end_time == state.props.end_time
            &&& st.props.api_base_url == state.props.api_base_url
            &&& st.props.market == state.props.market
            &&& st.props.contract_type == state.props.contract_type
            &&& st.props.symbol == state.props.symbol
            &&& st.props.interval == state.props.interval
            &&& st.props.director == state.props.director
            &&& st.init_start_time == state.init_start_time
        }),
{
    let mut st = state;
    let mut page = page;
    let ghost page0 = page@;
    let ghost acc0 = st.candles@;
    if page.len() < KLINE_LIMIT {
        st.candles.append(&mut page);
        StepOutcome::Finished(st.candles)
    } else {
        let next_start = page[page.len() - 1].open_time;
        st.candles.append(&mut page);
        let _ = st.candles.pop();
        st.props.start_time = next_start;
        proof {
            assert(st.candles@ =~= acc0 + page0.drop_last());
        }
        StepOutcome::Continue(st)
    }
}

/// The series a run of `apply_page` steps yields from accumulator `acc`
/// when the successive round trips answer `pages`, read left to right until
/// the first short page. Each branch restates one `apply_page` ensures
/// clause, so a caller's loop meets this by induction on its steps.
pub open spec fn series_after(acc: Seq<Candle>, pages: Seq<Seq<Candle>>) -> Seq<Candle>
    decreases pages.len(),
{
    if pages.len() == 0 {
        acc
    } else if pages.first().len() < KLINE_LIMIT {
        acc + pages.first()
    } else {
        series_after(acc + pages.first().drop_last(), pages.drop_first())
    }
}

/// The engine's final series for one symbol: a run from an empty accumulator.
pub open spec fn engine_series(pages: Seq<Seq<Candle>>) -> Seq<Candle> {
    series_after(Seq::empty(), pages)
}

/// How many round trips a run over `pages` performs: every full page costs
/// one more, the first short page is the last.
pub open spec fn pages_used(pages: Seq<Seq<Candle>>) -> int
    decreases pages.len(),
{
    if pages.len() == 0 {
        0
    } else if pages.first().len() < KLINE_LIMIT {
        1
    } else {
        1 + pages_used(pages.drop_first())
    }
}

/// The pages flattened as the engine keeps them: a full page without its
/// boundary candle, the closing short page whole.
pub open spec fn flat_series(pages: Seq<Seq<Candle>>) -> Seq<Candle>
    decreases pages.len(),
{
    if pages.len() == 0 {
        Seq::empty()
    } else if pages.first().len() < KLINE_LIMIT {
        pages.first()
    } else {
        pages.first().drop_last() + flat_series(pages.drop_first())
    }
}

pub open spec fn total_len(pages: Seq<Seq<Candle>>) -> int
    decreases pages.len(),
{
    if pages.len() == 0 {
        0
    } else {
        pages.first().len() + total_len(pages.drop_first())
    }
}

pub open spec fn strictly_increasing(s: Seq<Candle>) -> bool {
    forall|i: int, j: int| 0 <= i < j < s.len() ==> s[i].open_time < s[j].open_time
}

pub open spec fn gaps_within(s: Seq<Candle>, width: int) -> bool {
    forall|i: int|
        0 <= i && i + 1 < s.len() ==> (#[trigger] s[i + 1]).open_time - s[i].open_time <= width
}

/// How often open time `t` occurs in the series.
pub open spec fn count_time(s: Seq<Candle>, t: i64) -> int
    decreases s.len(),
{
    if s.len() == 0 {
        0
    } else {
        count_time(s.drop_last(), t) + if s.last().open_time == t {
            1int
        } else {
            0int
        }
    }
}

/// What the engine may assume of the remote's successive answers to one
/// download: pages hold candles in strictly increasing open-time order with
/// bucket-width gaps, every page before the closing one is full, the first
/// page begins at or after the requested start, and each follow-up page
/// begins with the previous page's boundary candle (the start-time filter
/// is inclusive, so that candle is served again).
pub open spec fn wf_page_chain(pages: Seq<Seq<Candle>>, start: int, width: int) -> bool {
    &&& pages.len() > 0
    &&& forall|k: int|
        0 <= k < pages.len() ==> strictly_increasing(#[trigger] pages[k]) && gaps_within(
            pages[k],
            width,
        )
    &&& forall|k: int| 0 <= k < pages.len() - 1 ==> (#[trigger] pages[k]).len() == KLINE_LIMIT
    &&& pages.last().len() < KLINE_LIMIT
    &&& (pages[0].len() > 0 ==> pages[0][0].open_time >= start)
    &&& forall|k: int|
        0 <= k < pages.len() - 1 ==> (#[trigger] pages[k + 1]).len() > 0 && pages[k + 1][0]
            == pages[k].last()
}

proof fn lemma_series_after_flat(acc: Seq<Candle>, pages: Seq<Seq<Candle>>)
    ensures
        series_after(acc, pages) == acc + flat_series(pages),
    decreases pages.len(),
{
    if pages.len() == 0 {
        assert(series_after(acc, pages) =~= acc + flat_series(pages));
    } else if pages.first().len() < KLINE_LIMIT {
    } else {
        lemma_series_after_flat(acc + pages.first().drop_last(), pages.drop_first());
        assert((acc + pages.first().drop_last()) + flat_series(pages.drop_first()) =~= acc
            + flat_series(pages));
    }
}

proof fn lemma_count_zero(s: Seq<Candle>, t: i64)
    requires
        forall|i: int| 0 <= i < s.len() ==> (#[trigger] s[i]).open_time != t,
    ensures
        count_time(s, t) == 0,
    decreases s.len(),
{
    if s.len() > 0 {
        lemma_count_zero(s.drop_last(), t);
    }
}

proof fn lemma_count_unique(s: Seq<Candle>, t: i64, idx: int)
    requires
        strictly_increasing(s),
        0 <= idx < s.len(),
        s[idx].open_time == t,
    ensures
        count_time(s, t) == 1,
    decreases s.len(),
{
    if idx == s.len() - 1 {
        lemma_count_zero(s.drop_last(), t);
    } else {
        assert(strictly_increasing(s.drop_last()));
        lemma_count_unique(s.drop_last(), t, idx);
    }
}

proof fn lemma_flat_chain(pages: Seq<Seq<Candle>>, width: int)
    requires
        pages.len() > 0,
        forall|k: int|
            0 <= k < pages.len() ==> strictly_increasing(#[trigger] pages[k]) && gaps_within(
                pages[k],
                width,
            ),
        forall|k: int| 0 <= k < pages.len() - 1 ==> (#[trigger] pages[k]).len() == KLINE_LIMIT,
        pages.last().len() < KLINE_LIMIT,
        forall|k: int|
            0 <= k < pages.len() - 1 ==> (#[trigger] pages[k + 1]).len() > 0 && pages[k + 1][0]
                == pages[k].last(),
    ensures
        strictly_increasing(flat_series(pages)),
        gaps_within(flat_series(pages), width),
        flat_series(pages).len() == total_len(pages) - (pages.len() - 1),
        pages[0].len() > 0 ==> flat_series(pages).len() > 0 && flat_series(pages)[0]
            == pages[0][0],
        flat_series(pages).len() > 0 ==> pages[0].len() > 0,
        forall|k: int|
            0 <= k < pages.len() - 1 ==> flat_series(pages).contains(#[trigger] pages[k].last()),
        pages_used(pages) == pages.len(),
    decreases pages.len(),
{
    let s = flat_series(pages);
    assert(pages.first() == pages[0]);
    if pages.len() == 1 {
        assert(pages.last() == pages[0]);
        assert(s == pages[0]);
        assert(strictly_increasing(pages[0]) && gaps_within(pages[0], width));
        assert(pages.drop_first().len() == 0);
        assert(total_len(pages.drop_first()) == 0);
        assert(total_len(pages) == pages[0].len());
    } else {
        let p0 = pages.first();
        let rest = pages.drop_first();
        assert(pages[0].len() == KLINE_LIMIT);
        assert forall|k: int| 0 <= k < rest.len() implies strictly_increasing(#[trigger] rest[k])
            && gaps_within(rest[k], width) by {
            assert(rest[k] == pages[k + 1]);
        }
        assert forall|k: int| 0 <= k < rest.len() - 1 implies (#[trigger] rest[k]).len()
            == KLINE_LIMIT by {
            assert(rest[k] == pages[k + 1]);
        }
        assert(rest.last() == pages.last());
        assert forall|k: int| 0 <= k < rest.len() - 1 implies (#[trigger] rest[k + 1]).len() > 0
            && rest[k + 1][0] == rest[k].last() by {
            assert(rest[k + 1] == pages[k + 2]);
            assert(rest[k] == pages[k + 1]);
            assert(pages[k + 2].len() > 0 && pages[k + 2][0] == pages[k + 1].last());
        }
        lemma_flat_chain(rest, width);
        let s1 = flat_series(rest);
        let trimmed = p0.drop_last();
        assert(s == trimmed + s1);
        assert(pages[1].len() > 0 && pages[1][0] == pages[0].last());
        assert(rest[0] == pages[1]);
        assert(s1.len() > 0);
        assert(s1[0] == p0.last());
        assert(trimmed.len() == KLINE_LIMIT - 1);
        assert(strictly_increasing(p0) && gaps_within(p0, width));
        assert forall|i: int, j: int| 0 <= i < j < s.len() implies s[i].open_time
            < s[j].open_time by {
            if j < trimmed.len() {
                assert(s[i] == p0[i] && s[j] == p0[j]);
            } else if i >= trimmed.len() {
                assert(s[i] == s1[i - trimmed.len()] && s[j] == s1[j - trimmed.len()]);
            } else {
                assert(s[i] == p0[i]);
                assert(s[j] == s1[j - trimmed.len()]);
                assert(p0[i].open_time < p0[p0.len() - 1].open_time);
                if j - trimmed.len() > 0 {
                    assert(s1[0].open_time < s1[j - trimmed.len()].open_time);
                }
            }
        }
        assert forall|i: int| 0 <= i && i + 1 < s.len() implies (#[trigger] s[i + 1]).open_time
            - s[i].open_time <= width by {
            if i + 1 < trimmed.len() {
                assert(s[i] == p0[i] && s[i + 1] == p0[i + 1]);
            } else if i + 1 == trimmed.len() {
                assert(s[i] == p0[i]);
                assert(s[i + 1] == s1[0]);
                assert(s1[0] == p0[p0.len() - 1]);
                assert(p0[i + 1].open_time - p0[i].open_time <= width);
            } else {
                assert(s[i] == s1[i - trimmed.len()] && s[i + 1] == s1[i + 1 - trimmed.len()]);
                assert(s1[(i - trimmed.len()) + 1].open_time - s1[i - trimmed.len()].open_time
                    <= width);
            }
        }
        assert(total_len(pages) == p0.len() + total_len(rest));
        assert(s.len() == trimmed.len() + s1.len());
        assert(s[0] == trimmed[0]);
        assert(trimmed[0] == p0[0]);
        assert forall|k: int| 0 <= k < pages.len() - 1 implies s.contains(
            #[trigger] pages[k].last(),
        ) by {
            if k == 0 {
                assert(s[trimmed.len() as int] == s1[0]);
                assert(s1[0] == pages[0].last());
                assert(s.contains(pages[0].last()));
            } else {
                assert(pages[k] == rest[k - 1]);
                assert(s1.contains(rest[k - 1].last()));
                let w = choose|w: int| 0 <= w < s1.len() && s1[w] == rest[k - 1].last();
                assert(s[trimmed.len() + w] == s1[w]);
                assert(s.contains(pages[k].last()));
            }
        }
    }
}

/// Law: over a well-formed page chain the run makes one round trip per page,
/// and its final series is strictly increasing in open time, begins at or
/// after the requested start, keeps gaps within one bucket width, holds each
/// page-boundary candle exactly once, and has one row per distinct candle
/// served.
pub proof fn lemma_engine_series(pages: Seq<Seq<Candle>>, start: int, width: int)
    requires
        wf_page_chain(pages, start, width),
    ensures
        pages_used(pages) == pages.len(),
        strictly_increasing(engine_series(pages)),
        gaps_within(engine_series(pages), width),
        engine_series(pages).len() > 0 ==> engine_series(pages)[0].open_time >= start,
        engine_series(pages).len() == total_len(pages) - (pages.len() - 1),
        forall|k: int|
            0 <= k < pages.len() - 1 ==> count_time(
                engine_series(pages),
                (#[trigger] pages[k].last()).open_time,
            ) == 1,
{
    lemma_series_after_flat(Seq::empty(), pages);
    assert(engine_series(pages) =~= flat_series(pages));
    lemma_flat_chain(pages, width);
    let s = engine_series(pages);
    assert forall|k: int| 0 <= k < pages.len() - 1 implies count_time(
        s,
        (#[trigger] pages[k].last()).open_time,
    ) == 1 by {
        assert(s.contains(pages[k].last()));
        let w = choose|w: int| 0 <= w < s.len() && s[w] == pages[k].last();
        lemma_count_unique(s, pages[k].last().open_time, w);
    }
}

} // verus!
