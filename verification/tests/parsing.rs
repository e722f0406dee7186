use binance_klines::numstr::i64_to_string;
use binance_klines::numstr::parse_i64;
use binance_klines::numstr::u64_to_string;
use binance_klines::symbols::get_trading_symbols;
use binance_klines::time_parse::parse_date_time;
use binance_klines::time_parse::TimeParseError;
use binance_klines::types::ExchangeInfo;
use binance_klines::types::Symbol;

fn sym(name: &str, status: Option<&str>) -> Symbol {
    Symbol {
        symbol: name.to_string(),
        pair: None,
        contract_type: None,
        delivery_date: None,
        onboard_date: None,
        status: status.map(|s| s.to_string()),
        maint_margin_percent: None,
        required_margin_percent: None,
        base_asset: "BTC".to_string(),
        quote_asset: "USDT".to_string(),
        margin_asset: None,
        price_precision: None,
        quantity_precision: None,
        base_asset_precision: None,
        quote_precision: None,
        underlying_type: None,
        underlying_sub_type: None,
        settle_plan: None,
        trigger_protect: None,
        filters: Vec::new(),
        order_type: None,
        time_in_force: None,
        liquidation_fee: None,
        market_take_bound: None,
    }
}

#[test]
fn epoch_millis_string_parses_to_that_instant() {
    assert_eq!(parse_date_time("1700000000000"), Ok(1_700_000_000_000));
}

#[test]
fn sub_second_millis_come_back_unchanged() {
    assert_eq!(parse_date_time("1700000000123"), Ok(1_700_000_000_123));
    assert_eq!(parse_date_time("-1500"), Ok(-1500));
}

#[test]
fn out_of_range_integer_is_an_invalid_time_format() {
    // Fits in i64, but denotes no representable instant, and is no
    // wall-clock string either.
    assert_eq!(
        parse_date_time("9000000000000000000"),
        Err(TimeParseError::InvalidTimeFormat)
    );
}

#[test]
fn civil_string_parses_as_utc_midnight() {
    assert_eq!(parse_date_time("2022-01-01 00:00:00"), Ok(1_640_995_200_000));
    assert_eq!(parse_date_time("1970-01-01 00:00:01"), Ok(1000));
}

#[test]
fn garbage_is_an_invalid_time_format() {
    assert_eq!(
        parse_date_time("not-a-date"),
        Err(TimeParseError::InvalidTimeFormat)
    );
    assert_eq!(parse_date_time(""), Err(TimeParseError::InvalidTimeFormat));
    assert_eq!(
        parse_date_time("2022-01-01T00:00:00"),
        Err(TimeParseError::InvalidTimeFormat)
    );
}

#[test]
fn integer_grammar_matches_the_machine() {
    assert_eq!(parse_i64("0"), Some(0));
    assert_eq!(parse_i64("+7"), Some(7));
    assert_eq!(parse_i64("-0012"), Some(-12));
    assert_eq!(parse_i64("9223372036854775807"), Some(i64::MAX));
    assert_eq!(parse_i64("-9223372036854775808"), Some(i64::MIN));
    assert_eq!(parse_i64("9223372036854775808"), None);
    assert_eq!(parse_i64("99999999999999999999999999"), None);
    assert_eq!(parse_i64(""), None);
    assert_eq!(parse_i64("+"), None);
    assert_eq!(parse_i64("12a"), None);
}

#[test]
fn decimal_rendering_round_trips() {
    assert_eq!(u64_to_string(0), "0");
    assert_eq!(u64_to_string(18446744073709551615), "18446744073709551615");
    assert_eq!(i64_to_string(-42), "-42");
    assert_eq!(i64_to_string(i64::MIN), "-9223372036854775808");
    assert_eq!(parse_i64(&i64_to_string(1234567890123)), Some(1234567890123));
}

#[test]
fn tradable_filter_keeps_trading_and_absent_statuses() {
    let info = ExchangeInfo {
        rate_limits: None,
        server_time: None,
        assets: None,
        symbols: vec![
            sym("AAAUSDT", Some("TRADING")),
            sym("BBBUSDT", Some("BREAK")),
            sym("CCCUSDT", None),
        ],
        timezone: "UTC".to_string(),
    };
    let names = get_trading_symbols(&info);
    assert_eq!(names, vec!["AAAUSDT".to_string(), "CCCUSDT".to_string()]);
}

#[test]
fn tradable_filter_keeps_directory_order() {
    let info = ExchangeInfo {
        rate_limits: None,
        server_time: None,
        assets: None,
        symbols: vec![
            sym("ZZZUSDT", None),
            sym("MMMUSDT", Some("TRADING")),
            sym("AAAUSDT", Some("TRADING")),
        ],
        timezone: "UTC".to_string(),
    };
    let names = get_trading_symbols(&info);
    assert_eq!(
        names,
        vec![
            "ZZZUSDT".to_string(),
            "MMMUSDT".to_string(),
            "AAAUSDT".to_string()
        ]
    );
}
