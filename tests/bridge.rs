use tradier_bridge::codec::{from_day_seconds, to_day_seconds, REFERENCE_EPOCH_SECONDS, SECONDS_PER_DAY};
use tradier_bridge::market::{
    clamp_start, fetch_history, history_from_answer, history_query, newest_first, HistoryError,
    HistoryQuery, DEFAULT_RETENTION_WINDOW_SECONDS,
};
use tradier_bridge::marshal::{copy_into, write_records, NAME_BUFFER_LEN};
use tradier_bridge::orders::{
    decode_amount, first_account, narrow_order_id, prepare_market_order, OrderError, Side,
};
use tradier_bridge::provider::Bar;
use tradier_bridge::session::{Session, SessionConfig};
use tradier_bridge::surface::{apply_login, asset, command, login_config, AssetError};

fn logged_in() -> Session {
    let mut s = Session::new();
    s.set_session_config(SessionConfig {
        base_url: "https://sandbox.tradier.com".to_string(),
        access_token: "token".to_string(),
    });
    s
}

fn bars(stamps: &[i64]) -> Vec<Bar<u32>> {
    stamps
        .iter()
        .enumerate()
        .map(|(i, t)| Bar { timestamp: *t, quote: i as u32 })
        .collect()
}

#[test]
fn reference_instant_is_day_zero() {
    // 1899-12-30T00:00:00Z
    assert_eq!(to_day_seconds(-2209161600), 0);
    assert_eq!(to_day_seconds(REFERENCE_EPOCH_SECONDS), 0);
}

#[test]
fn next_day_is_day_one() {
    // 1899-12-31T00:00:00Z
    let d = to_day_seconds(-2209075200);
    assert_eq!(d, 86400);
    assert_eq!(d / SECONDS_PER_DAY as i128, 1);
}

#[test]
fn unix_epoch_day_count() {
    // 1970-01-01 is day 25569 of the encoding.
    assert_eq!(to_day_seconds(0), 25569 * 86400);
}

#[test]
fn day_seconds_round_trip_whole_seconds() {
    for t in [0i64, 1, -1, 1_700_000_000, -2209161600, i64::MAX, i64::MIN] {
        assert_eq!(from_day_seconds(to_day_seconds(t)), Some(t));
    }
}

#[test]
fn from_day_seconds_out_of_range() {
    assert_eq!(from_day_seconds(i64::MAX as i128 + 2209161600 + 1), None);
    assert_eq!(from_day_seconds(i64::MIN as i128), None);
    assert_eq!(from_day_seconds(0), Some(-2209161600));
}

#[test]
fn clamp_ninety_days_back() {
    let now: i64 = 1_700_000_000;
    let requested = now - 90 * 86400;
    let start = clamp_start(requested, now, DEFAULT_RETENTION_WINDOW_SECONDS);
    assert_eq!(start, now - DEFAULT_RETENTION_WINDOW_SECONDS);
    assert_eq!(start, now - 29 * 86400);
}

#[test]
fn clamp_keeps_recent_start() {
    let now: i64 = 1_700_000_000;
    assert_eq!(clamp_start(now - 3600, now, DEFAULT_RETENTION_WINDOW_SECONDS), now - 3600);
    assert_eq!(clamp_start(5, i64::MIN, DEFAULT_RETENTION_WINDOW_SECONDS), 5);
}

#[test]
fn history_query_clamps_start() {
    let now: i64 = 1_700_000_000;
    let start_day = to_day_seconds(now - 90 * 86400);
    let end_day = to_day_seconds(now);
    let q = history_query(true, start_day, end_day, 1, now, DEFAULT_RETENTION_WINDOW_SECONDS);
    assert_eq!(
        q,
        Ok(HistoryQuery { start: now - 29 * 86400, end: now })
    );
}

#[test]
fn history_query_errors() {
    assert_eq!(history_query(false, 0, 0, 1, 0, DEFAULT_RETENTION_WINDOW_SECONDS), Err(HistoryError::SessionNotReady));
    assert_eq!(history_query(true, 0, 0, 5, 0, DEFAULT_RETENTION_WINDOW_SECONDS), Err(HistoryError::UnsupportedGranularity));
    assert_eq!(
        history_query(true, i128::MAX, 0, 1, 0, DEFAULT_RETENTION_WINDOW_SECONDS),
        Err(HistoryError::DateOutOfRange)
    );
}

#[test]
fn truncates_to_max_ticks() {
    let out = newest_first(bars(&[100, 160, 220, 280, 340]), 3);
    assert_eq!(out.len(), 3);
    let times: Vec<i128> = out.iter().map(|c| c.time).collect();
    assert_eq!(times, vec![340 + 2209161600, 280 + 2209161600, 220 + 2209161600]);
    let quotes: Vec<u32> = out.iter().map(|c| c.quote).collect();
    assert_eq!(quotes, vec![4, 3, 2]);
}

#[test]
fn fewer_bars_than_max_ticks() {
    let out = newest_first(bars(&[100, 160]), 10);
    assert_eq!(out.len(), 2);
    assert_eq!(out[0].quote, 1);
    assert_eq!(out[1].quote, 0);
}

#[test]
fn zero_max_ticks_and_empty() {
    assert_eq!(newest_first(bars(&[100, 160]), 0).len(), 0);
    assert_eq!(newest_first(bars(&[]), 5).len(), 0);
}

#[test]
fn output_is_newest_first() {
    let out = newest_first(bars(&[60, 120, 180, 240]), 4);
    for w in out.windows(2) {
        assert!(w[0].time > w[1].time);
    }
}

#[test]
fn history_before_login_is_refused() {
    let r = fetch_history(&None, "AAPL", 0, 86400, 1, 10, DEFAULT_RETENTION_WINDOW_SECONDS);
    assert!(matches!(r, Err(HistoryError::SessionNotReady)));
}

#[test]
fn history_other_granularity_is_refused() {
    let config = Some(SessionConfig {
        base_url: "https://sandbox.tradier.com".to_string(),
        access_token: "token".to_string(),
    });
    let r = fetch_history(&config, "AAPL", 0, 86400, 5, 10, DEFAULT_RETENTION_WINDOW_SECONDS);
    assert!(matches!(r, Err(HistoryError::UnsupportedGranularity)));
}

#[test]
fn write_records_bounded_by_capacity() {
    let src = [1u8, 2, 3, 4, 5];
    let mut dst = [0u8; 3];
    assert_eq!(write_records(&src, &mut dst), 3);
    assert_eq!(dst, [1, 2, 3]);
}

#[test]
fn write_records_leaves_rest_untouched() {
    let src = [7u8, 8];
    let mut dst = [9u8; 4];
    assert_eq!(write_records(&src, &mut dst), 2);
    assert_eq!(dst, [7, 8, 9, 9]);
    let mut none: [u8; 0] = [];
    assert_eq!(write_records(&src, &mut none), 0);
}

#[test]
fn copy_into_terminates() {
    let mut buf = [0xffu8; NAME_BUFFER_LEN];
    assert_eq!(copy_into("TR", &mut buf), Some(2));
    assert_eq!(&buf[..4], &[b'T', b'R', 0, 0xff]);
}

#[test]
fn copy_into_without_room() {
    let mut buf = [0xffu8; 2];
    assert_eq!(copy_into("TR", &mut buf), None);
    assert_eq!(buf, [0xff, 0xff]);
}

#[test]
fn first_asset_call_subscribes() {
    let mut s = logged_in();
    assert_eq!(asset(&mut s, "AAPL"), Ok(Some(0)));
    assert!(s.is_subscribed("AAPL"));
    assert_eq!(asset(&mut s, "AAPL"), Ok(None));
    assert!(s.is_subscribed("AAPL"));
    assert!(!s.is_subscribed("MSFT"));
}

#[test]
fn subscribe_does_not_duplicate() {
    let mut s = Session::new();
    assert!(s.subscribe("SPY"));
    assert!(!s.subscribe("SPY"));
    assert!(s.subscribe("QQQ"));
}

#[test]
fn asset_before_login_is_refused() {
    let mut s = Session::new();
    assert_eq!(asset(&mut s, "AAPL"), Err(AssetError::SessionNotReady));
    assert!(!s.is_subscribed("AAPL"));
}

#[test]
fn positive_amount_buys() {
    assert_eq!(decode_amount(10), (Side::Buy, 10));
    assert_eq!(decode_amount(0), (Side::Buy, 0));
}

#[test]
fn negative_amount_sells() {
    assert_eq!(decode_amount(-7), (Side::Sell, 7));
    assert_eq!(decode_amount(i32::MIN), (Side::Sell, 2147483648));
}

#[test]
fn unknown_command_is_zero() {
    assert_eq!(command(999, 0), 0);
    assert_eq!(command(-1, 17), 0);
}

#[test]
fn order_before_login_is_refused() {
    let r = prepare_market_order(&None, "AAPL", 10);
    assert!(matches!(r, Err(OrderError::SessionNotReady)));
}

#[test]
fn first_account_of_profile() {
    let list = vec!["VA000001".to_string(), "VA000002".to_string()];
    assert_eq!(first_account(Ok(list)), Ok("VA000001".to_string()));
    assert_eq!(first_account(Ok(vec![])), Err(OrderError::NoAccount));
    assert_eq!(first_account(Err("down".to_string())), Err(OrderError::ProviderError));
}

#[test]
fn order_id_narrowing() {
    assert_eq!(narrow_order_id(42), Ok(42));
    assert_eq!(narrow_order_id(2147483647), Ok(2147483647));
    assert_eq!(narrow_order_id(2147483648), Err(OrderError::IdOutOfRange));
}

#[test]
fn login_endpoint_by_kind() {
    let live = login_config("Real", "abc");
    assert_eq!(live.base_url, "https://api.tradier.com");
    assert_eq!(live.access_token, "abc");
    let sandbox = login_config("Demo", "abc");
    assert_eq!(sandbox.base_url, "https://sandbox.tradier.com");
}

#[test]
fn session_config_after_login() {
    let mut s = Session::new();
    assert!(s.session_config().is_none());
    s.set_session_config(login_config("Real", "abc"));
    assert_eq!(s.session_config().as_ref().unwrap().access_token, "abc");
}

#[test]
fn history_out_of_range_date_is_refused() {
    let config = Some(login_config("Demo", "token"));
    let r = fetch_history(&config, "AAPL", i128::MIN, 0, 1, 10, DEFAULT_RETENTION_WINDOW_SECONDS);
    assert!(matches!(r, Err(HistoryError::DateOutOfRange)));
}

#[test]
fn history_with_blank_symbol_is_provider_error() {
    let config = Some(login_config("Demo", "token"));
    let r = fetch_history(&config, " ", to_day_seconds(1_700_000_000), to_day_seconds(1_700_003_600), 1, 10, DEFAULT_RETENTION_WINDOW_SECONDS);
    assert!(matches!(r, Err(HistoryError::ProviderError)));
}

#[test]
fn newest_first_whatever_the_provider_order() {
    let out = newest_first(bars(&[200, 100, 400, 300]), 4);
    let quotes: Vec<u32> = out.iter().map(|c| c.quote).collect();
    assert_eq!(quotes, vec![2, 3, 0, 1]);
    let out = newest_first(bars(&[200, 100]), 2);
    assert_eq!(out[0].time, 200 + 2209161600);
    assert_eq!(out[1].time, 100 + 2209161600);
}

#[test]
fn truncation_keeps_the_newest_bars() {
    let out = newest_first(bars(&[500, 100, 300, 200, 400]), 2);
    let quotes: Vec<u32> = out.iter().map(|c| c.quote).collect();
    assert_eq!(quotes, vec![0, 4]);
}

#[test]
fn provider_failure_is_provider_error() {
    let answer: Result<Vec<Bar<u32>>, String> = Err("timeout".to_string());
    assert!(matches!(history_from_answer(answer, 10), Err(HistoryError::ProviderError)));
    let answer: Result<Vec<Bar<u32>>, String> = Ok(bars(&[60, 120]));
    let candles = history_from_answer(answer, 10).ok().unwrap();
    assert_eq!(candles.len(), 2);
    assert_eq!(candles[0].quote, 1);
}

#[test]
fn accepted_login_stores_config() {
    let mut s = Session::new();
    assert!(apply_login(&mut s, login_config("Real", "abc"), true));
    assert_eq!(s.session_config().as_ref().unwrap().base_url, "https://api.tradier.com");
    assert_eq!(asset(&mut s, "AAPL"), Ok(Some(0)));
}

#[test]
fn refused_login_leaves_session() {
    let mut s = Session::new();
    assert!(!apply_login(&mut s, login_config("Real", "abc"), false));
    assert!(s.session_config().is_none());
    assert_eq!(asset(&mut s, "AAPL"), Err(AssetError::SessionNotReady));
}

#[test]
fn clamp_with_other_window() {
    let now: i64 = 1_700_000_000;
    assert_eq!(clamp_start(now - 90 * 86400, now, 27 * 86400), now - 27 * 86400);
    assert_eq!(clamp_start(now - 90 * 86400, now, 0), now);
}
