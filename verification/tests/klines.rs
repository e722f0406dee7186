use binance_klines::constants::headers;
use binance_klines::constants::MARKET;
use binance_klines::encode::csv_file_path;
use binance_klines::encode::encode_candle;
use binance_klines::engine::apply_page;
use binance_klines::engine::get_historical_candlesticks;
use binance_klines::engine::StepOutcome;
use binance_klines::orchestrate::default_start_time;
use binance_klines::orchestrate::orchestrate_symbol;
use binance_klines::orchestrate::props_for_symbol;
use binance_klines::orchestrate::SymbolAction;
use binance_klines::query::generate_query_string;
use binance_klines::types::Candle;
use binance_klines::types::FetchProps;

fn props(market: MARKET, start: i64, end: i64) -> FetchProps {
    FetchProps {
        api_base_url: "https://api.binance.com/api/v3/".to_string(),
        market,
        contract_type: if matches!(market, MARKET::Spot) {
            String::new()
        } else {
            "PERPETUAL".to_string()
        },
        symbol: "BTCUSDT".to_string(),
        interval: "1h".to_string(),
        start_time: start,
        end_time: end,
        director: "out".to_string(),
    }
}

fn candle(open_time: i64) -> Candle {
    Candle {
        open_time,
        open: "1.0".to_string(),
        high: "2.0".to_string(),
        low: "0.5".to_string(),
        close: "1.5".to_string(),
        volume: "10".to_string(),
        close_time: (open_time + 3599999) as u64,
        quote_asset_volume: "15".to_string(),
        trade_count: 42,
        taker_buy_base_volume: "5".to_string(),
        taker_buy_quote_volume: "7".to_string(),
        ignore: "0".to_string(),
    }
}

#[test]
fn all_symbols() {}

#[test]
fn query_string_spot_is_stable() {
    let p = props(MARKET::Spot, 100, 200);
    let q = generate_query_string(p);
    assert_eq!(
        q,
        "klines?endTime=200&interval=1h&limit=1000&startTime=100&symbol=BTCUSDT"
    );
}

#[test]
fn query_string_futures_carries_contract_type() {
    let p = props(MARKET::UsdFutures, -5, 9_000_000_000_000);
    let q = generate_query_string(p);
    assert_eq!(
        q,
        "klines?contractType=PERPETUAL&endTime=9000000000000&interval=1h&limit=1000&startTime=-5&symbol=BTCUSDT"
    );
}

#[test]
fn headers_list_duplicates_close_label() {
    let h = headers();
    assert_eq!(h.len(), 11);
    assert_eq!(h[0], "Open_Time");
    assert_eq!(h[4], "Close");
    assert_eq!(h[6], "Close");
    assert_eq!(h[10], "Taker_Buy_Quote_Asset_Volume");
}

#[test]
fn encode_candle_lays_out_eleven_cells() {
    let rows = encode_candle(vec![candle(1700000000000)]);
    assert_eq!(rows.len(), 1);
    assert_eq!(
        rows[0],
        vec![
            "1700000000000",
            "1.0",
            "2.0",
            "0.5",
            "1.5",
            "10",
            "1700003599999",
            "15",
            "42",
            "5",
            "7"
        ]
    );
}

#[test]
fn csv_file_path_is_deterministic() {
    let p = props(MARKET::Spot, 100, 200);
    assert_eq!(csv_file_path(&p, 100), "out/BTCUSDT_Spot_1h_100_200.csv");
    // A later pagination step keeps naming the file by the first start.
    let stepped = FetchProps {
        start_time: 150,
        ..p
    };
    assert_eq!(csv_file_path(&stepped, 100), "out/BTCUSDT_Spot_1h_100_200.csv");
}

#[test]
fn short_page_finishes_without_another_round_trip() {
    let state = get_historical_candlesticks(props(MARKET::Spot, 0, 10_000_000));
    let page: Vec<Candle> = (0i64..3).map(|k| candle(k * 100)).collect();
    match apply_page(state, page) {
        StepOutcome::Finished(series) => {
            assert_eq!(series.len(), 3);
            assert_eq!(series[0].open_time, 0);
            assert_eq!(series[2].open_time, 200);
        }
        StepOutcome::Continue(_) => panic!("a short page must finish the series"),
    }
}

#[test]
fn full_page_triggers_exactly_one_more_round_trip() {
    let w: i64 = 3_600_000;
    let state = get_historical_candlesticks(props(MARKET::Spot, 0, i64::MAX));
    let page: Vec<Candle> = (0i64..1000).map(|k| candle(k * w)).collect();
    match apply_page(state, page) {
        StepOutcome::Continue(st) => {
            // The boundary candle seeds the next window and left the accumulator.
            assert_eq!(st.props.start_time, 999 * w);
            assert_eq!(st.candles.len(), 999);
            assert_eq!(st.candles.last().unwrap().open_time, 998 * w);
            assert_eq!(st.init_start_time, 0);
            assert_eq!(st.props.symbol, "BTCUSDT");
        }
        StepOutcome::Finished(_) => panic!("a full page must continue the chain"),
    }
}

#[test]
fn boundary_candle_appears_exactly_once_across_pages() {
    let w: i64 = 3_600_000;
    let mut state = get_historical_candlesticks(props(MARKET::Spot, 0, i64::MAX));
    // The remote re-serves the boundary candle at the head of the next page.
    let page1: Vec<Candle> = (0i64..1000).map(|k| candle(k * w)).collect();
    let page2: Vec<Candle> = (999i64..1500).map(|k| candle(k * w)).collect();
    state = match apply_page(state, page1) {
        StepOutcome::Continue(st) => st,
        StepOutcome::Finished(_) => panic!("first page is full"),
    };
    let series = match apply_page(state, page2) {
        StepOutcome::Finished(series) => series,
        StepOutcome::Continue(_) => panic!("second page is short"),
    };
    assert_eq!(series.len(), 1500);
    let boundary = 999 * w;
    let hits = series.iter().filter(|c| c.open_time == boundary).count();
    assert_eq!(hits, 1);
}

#[test]
fn three_pages_give_three_round_trips_and_no_gaps() {
    let w: i64 = 3_600_000;
    let t0: i64 = 1_640_995_200_000;
    let mut state = get_historical_candlesticks(props(MARKET::Spot, t0, t0 + 2500 * w));
    let pages: Vec<Vec<Candle>> = vec![
        (0i64..1000).map(|k| candle(t0 + k * w)).collect(),
        (999i64..1999).map(|k| candle(t0 + k * w)).collect(),
        (1998i64..2500).map(|k| candle(t0 + k * w)).collect(),
    ];
    let mut round_trips = 0usize;
    let mut finished: Option<Vec<Candle>> = None;
    for page in pages {
        assert!(finished.is_none(), "the chain must not outlive the short page");
        round_trips += 1;
        match apply_page(state, page) {
            StepOutcome::Continue(st) => {
                assert!(st.props.start_time <= st.props.end_time);
                state = st;
            }
            StepOutcome::Finished(series) => {
                finished = Some(series);
                state = get_historical_candlesticks(props(MARKET::Spot, 0, 0));
            }
        }
    }
    assert_eq!(round_trips, 3);
    let series = finished.expect("the final short page finishes the series");
    assert_eq!(series.len(), 2500);
    assert_eq!(series[0].open_time, t0);
    for i in 0..series.len() - 1 {
        let step = series[i + 1].open_time - series[i].open_time;
        assert!(step > 0, "open times must strictly increase");
        assert!(step <= w, "no gap may exceed one interval width");
    }
}

#[test]
fn existing_output_skips_without_any_attempt() {
    assert_eq!(orchestrate_symbol(true, 0), SymbolAction::Skip);
    assert_eq!(orchestrate_symbol(true, 2), SymbolAction::Skip);
}

#[test]
fn fresh_symbol_gets_three_attempts() {
    assert_eq!(orchestrate_symbol(false, 0), SymbolAction::Attempt);
    assert_eq!(orchestrate_symbol(false, 2), SymbolAction::Attempt);
    assert_eq!(orchestrate_symbol(false, 3), SymbolAction::GiveUp);
}

#[test]
fn props_for_symbol_changes_only_the_symbol() {
    let template = props(MARKET::Spot, 7, 11);
    let p = props_for_symbol(&template, "ETHUSDT".to_string());
    assert_eq!(p.symbol, "ETHUSDT");
    assert_eq!(p.api_base_url, template.api_base_url);
    assert_eq!(p.start_time, 7);
    assert_eq!(p.end_time, 11);
    assert_eq!(p.director, "out");
}

#[test]
fn default_window_is_thirty_days() {
    assert_eq!(default_start_time(2_592_000_000), 0);
    assert_eq!(default_start_time(1_700_000_000_000), 1_697_408_000_000);
}

#[test]
fn market_names_and_roots() {
    assert_eq!(MARKET::Spot.market_name(), "Spot");
    assert_eq!(MARKET::UsdFutures.market_name(), "UsdFutures");
    assert_eq!(MARKET::CoinFutures.market_name(), "CoinFutures");
    assert_eq!(MARKET::Spot.base_url(), "https://api.binance.com/api/v3/");
    assert_eq!(MARKET::UsdFutures.base_url(), "https://fapi.binance.com/fapi/v1/");
    assert_eq!(MARKET::CoinFutures.base_url(), "https://dapi.binance.com/dapi/v1/");
}
