use trading_sys::currency_pairs::CurrencyPair;
use trading_sys::models::aggregate_trades::decode_aggregate_trade;
use trading_sys::models::aggregate_trades::AggregateTradeData;
use trading_sys::models::book_depth::decode_book_depth;
use trading_sys::models::book_depth::BookDepthDataInsert;
use trading_sys::models::klines::decode_kline;
use trading_sys::models::klines::map_klinemeta_to_klineinsertdata;
use trading_sys::models::klines::KlineDataInsert;
use trading_sys::models::mini_ticker::decode_mini_ticker;
use trading_sys::models::mini_ticker::MiniTickerDataInsert;
use trading_sys::models::tickers::decode_ticker;
use trading_sys::models::tickers::TickerDataInsert;
use trading_sys::models::trades::decode_trade;
use trading_sys::models::trades::TradeData;
use trading_sys::numeric::CanonicalNumber;
use trading_sys::quote::Quote;
use trading_sys::timestamp::CanonicalTimestamp;

fn num(s: &str) -> CanonicalNumber {
    CanonicalNumber::from_literal(s).unwrap()
}

fn ts(ms: u64) -> CanonicalTimestamp {
    CanonicalTimestamp::from_millis(ms)
}

pub static TEST_TRADE_DATA: &str = r#"
{
  "e": "trade",
  "E": 1555444333222,
  "s": "BNBBTC",
  "t": 12345,
  "p": "0.001",
  "q": "100",
  "b": 88,
  "a": 50,
  "T": 1666555444333,
  "m": true,
  "M": true
}
"#;

#[test]
fn try_deserialize_trades() {
    let trade_data = decode_trade(TEST_TRADE_DATA).unwrap();
    let mock_data = TradeData {
        trade_id: 12345,
        event: "trade".to_owned(),
        event_time: ts(1_555_444_333_222),
        symbol: CurrencyPair::BNBBTC,
        price: num("0.001"),
        quantity: num("100"),
        buyer_order_id: 88,
        seller_order_id: 50,
        trade_time: ts(1_666_555_444_333),
        buyer_mkt_maker: true,
    };
    assert_eq!(trade_data, mock_data);
    // the event time names 2019-04-16 and the trade time 2022-10-23
    assert_eq!(trade_data.event_time.secs, 1_555_444_333);
    assert_eq!(trade_data.event_time.nanos, 222_000_000);
    assert_eq!(trade_data.trade_time.secs, 1_666_555_444);
}

pub static TEST_AGGTRADE_DATA: &str = r#"
{
  "e": "aggTrade",
  "E": 1555444333222,
  "s": "BNBBTC",
  "a": 12345,
  "p": "0.001",
  "q": "100",
  "f": 100,
  "l": 105,
  "T": 1666555444333,
  "m": true,
  "M": true
}
"#;

#[test]
fn try_deserialize_aggregate_trades() {
    let aggtrade_data = decode_aggregate_trade(TEST_AGGTRADE_DATA).unwrap();
    let mock_data = AggregateTradeData {
        trade_id: 12345,
        event: "aggTrade".to_owned(),
        event_time: ts(1_555_444_333_222),
        symbol: CurrencyPair::BNBBTC,
        price: num("0.001"),
        quantity: num("100"),
        first_trade_id: 100,
        last_trade_id: 105,
        trade_time: ts(1_666_555_444_333),
        buyer_mkt_maker: true,
    };
    assert_eq!(aggtrade_data, mock_data);
}

pub static TEST_BOOKDEPTH_DATA: &str = r#"
{
  "e": "depthUpdate",
  "E": 1555444333222,
  "s": "BNBBTC",
  "U": 157,
  "u": 160,
  "b": [
    [
      "0.0024",
      "10",
      []
    ]
  ],
  "a": [
    [
      "0.0026",
      "100",
      []
    ]
  ]
}
"#;

#[test]
fn try_deserialize_book_depth() {
    let test_book_depth_data = decode_book_depth(TEST_BOOKDEPTH_DATA).unwrap();
    let mock_data = BookDepthDataInsert {
        event: "depthUpdate".to_owned(),
        event_time: ts(1_555_444_333_222),
        symbol: CurrencyPair::BNBBTC,
        update_first: 157,
        update_final: 160,
        bids: vec![Quote { price: num("0.0024"), quantity: num("10") }],
        asks: vec![Quote { price: num("0.0026"), quantity: num("100") }],
    };
    assert_eq!(test_book_depth_data, mock_data);
}

pub static TEST_KLINE_DATA: &str = r#"
{
  "e": "kline",
  "E": 1555444333,
  "s": "BNBBTC",
  "k": {
    "t": 1555444333,
    "T": 1555444333,
    "s": "BNBBTC",
    "i": "1m",
    "f": 100,
    "L": 200,
    "o": "0.0010",
    "c": "0.0020",
    "h": "0.0025",
    "l": "0.0015",
    "v": "1000",
    "n": 100,
    "x": false,
    "q": "1.0000",
    "V": "500",
    "Q": "0.500",
    "B": "123456"
  }
}
"#;

#[test]
fn test_deserialization_klines() {
    let kline_meta_data = decode_kline(TEST_KLINE_DATA).unwrap();
    let kline_data_insert = map_klinemeta_to_klineinsertdata(kline_meta_data);

    // the wire value 1555444333 is below the unit threshold, so the decoder
    // reads it as seconds since the epoch
    let kline_time = ts(1_555_444_333_000);
    let mock_data = KlineDataInsert {
        event: "kline".to_owned(),
        event_time: kline_time,
        start_time: kline_time,
        close_time: kline_time,
        symbol: CurrencyPair::BNBBTC,
        interval: "1m".to_owned(),
        first_trade_id: 100,
        last_trade_id: 200,
        open: num("0.0010"),
        close: num("0.0020"),
        high: num("0.0025"),
        low: num("0.0015"),
        volume: num("1000"),
        num_of_trades: 100,
        is_kline_closed: false,
        quote_asset_vol: num("1.0000"),
        taker_buy_base_vol: num("500"),
        taker_buy_quote_vol: num("0.500"),
    };
    assert_eq!(kline_data_insert, mock_data);
}

pub static TEST_MINI_TICKER_DATA: &str = r#"
{
    "e": "24hrMiniTicker",
    "E": 1555444333222,
    "s": "BNBBTC",
    "c": "0.0025",
    "o": "0.0010",
    "h": "0.0025",
    "l": "0.0010",
    "v": "10000",
    "q": "18"
}
"#;

#[test]
fn test_deserialization_mini_ticker() {
    let jsond_test = decode_mini_ticker(TEST_MINI_TICKER_DATA).unwrap();
    let mock_data = MiniTickerDataInsert {
        event: "24hrMiniTicker".to_owned(),
        event_time: ts(1_555_444_333_222),
        symbol: CurrencyPair::BNBBTC,
        close: num("0.0025"),
        open: num("0.0010"),
        high: num("0.0025"),
        low: num("0.0010"),
        base_asset_vol: num("10000"),
        quote_asset_vol: num("18"),
    };
    assert_eq!(jsond_test, mock_data);
}

pub static TEST_TICKER_DATA: &str = r#"
{
    "e": "24hrTicker",
    "E": 1555444333222,
    "s": "BNBBTC",
    "p": "0.0015",
    "P": "250.00",
    "w": "0.0018",
    "x": "0.0009",
    "c": "0.0025",
    "Q": "10",
    "b": "0.0024",
    "B": "10",
    "a": "0.0026",
    "A": "100",
    "o": "0.0010",
    "h": "0.0025",
    "l": "0.0010",
    "v": "10000",
    "q": "18",
    "O": 1555444333222,
    "C": 1666555444333,
    "F": 0,
    "L": 18150,
    "n": 18151
}
"#;

#[test]
fn try_deserialize_ticker() {
    let jsond_test = decode_ticker(TEST_TICKER_DATA).unwrap();
    let mock_data = TickerDataInsert {
        event: "24hrTicker".to_owned(),
        event_time: ts(1_555_444_333_222),
        symbol: CurrencyPair::BNBBTC,
        price_change: num("0.0015"),
        price_change_pct: num("250.00"),
        weight_avg_price: num("0.0018"),
        first_trade_before_24hr_window: num("0.0009"),
        last_price: num("0.0025"),
        last_quantity: num("10"),
        best_bid_price: num("0.0024"),
        best_bid_quantity: num("10"),
        best_ask_price: num("0.0026"),
        best_ask_quantity: num("100"),
        open_price: num("0.0010"),
        high_price: num("0.0025"),
        low_price: num("0.0010"),
        base_asset_vol: num("10000"),
        quote_asset_vol: num("18"),
        open_time: ts(1_555_444_333_222),
        close_time: ts(1_666_555_444_333),
        first_trade_id: 0,
        last_trade_id: 18150,
        total_num_trades: 18151,
    };
    assert_eq!(jsond_test, mock_data);
}

#[test]
fn decode_is_idempotent_across_calls() {
    let first = decode_trade(TEST_TRADE_DATA);
    let second = decode_trade(TEST_TRADE_DATA);
    assert_eq!(first, second);
    let third = decode_book_depth(TEST_BOOKDEPTH_DATA);
    let fourth = decode_book_depth(TEST_BOOKDEPTH_DATA);
    assert_eq!(third, fourth);
}

#[test]
fn unknown_symbol_fails_whole_record() {
    let raw = r#"{"e":"trade","E":1555444333222,"s":"NOTASYMBOL","t":1,"p":"1","q":"1","b":1,"a":1,"T":1555444333222,"m":false}"#;
    match decode_trade(raw) {
        Err(trading_sys::errors::DecodeError::UnknownSymbol(s)) => {
            assert_eq!(s, "NOTASYMBOL");
        },
        other => panic!("expected UnknownSymbol, got {:?}", other),
    }
    let raw_ticker = TEST_TICKER_DATA.replace("BNBBTC", "NOTASYMBOL");
    assert!(matches!(
        decode_ticker(&raw_ticker),
        Err(trading_sys::errors::DecodeError::UnknownSymbol(_))
    ));
}

#[test]
fn null_price_fails_whole_record() {
    let raw = r#"{"e":"trade","E":1555444333222,"s":"BNBBTC","t":1,"p":null,"q":"1","b":1,"a":1,"T":1555444333222,"m":false}"#;
    assert_eq!(
        decode_trade(raw),
        Err(trading_sys::errors::DecodeError::InvalidNumber)
    );
}

#[test]
fn missing_key_is_malformed_frame() {
    let raw = r#"{"e":"trade","E":1555444333222,"s":"BNBBTC","p":"1","q":"1","b":1,"a":1,"T":1555444333222,"m":false}"#;
    assert_eq!(
        decode_trade(raw),
        Err(trading_sys::errors::DecodeError::MalformedFrame)
    );
    assert_eq!(
        decode_trade("this is not json"),
        Err(trading_sys::errors::DecodeError::MalformedFrame)
    );
}

#[test]
fn negative_quantity_fails_whole_record() {
    let raw = r#"{"e":"trade","E":1555444333222,"s":"BNBBTC","t":1,"p":"1","q":"-5","b":1,"a":1,"T":1555444333222,"m":false}"#;
    assert_eq!(
        decode_trade(raw),
        Err(trading_sys::errors::DecodeError::InvalidNumber)
    );
    // a negative price is not a quantity and stays accepted
    let ok = r#"{"e":"trade","E":1555444333222,"s":"BNBBTC","t":1,"p":"-1","q":"5","b":1,"a":1,"T":1555444333222,"m":false}"#;
    assert!(decode_trade(ok).is_ok());
}

#[test]
fn reversed_update_ids_fail_the_depth_record() {
    let raw = TEST_BOOKDEPTH_DATA.replace("\"U\": 157", "\"U\": 161");
    assert_eq!(
        decode_book_depth(&raw),
        Err(trading_sys::errors::DecodeError::MalformedFrame)
    );
}

#[test]
fn unknown_kline_interval_fails_the_record() {
    let raw = TEST_KLINE_DATA.replace("\"i\": \"1m\"", "\"i\": \"7m\"");
    assert_eq!(
        decode_kline(&raw),
        Err(trading_sys::errors::DecodeError::MalformedFrame)
    );
}

#[test]
fn pre_launch_event_time_fails_the_record() {
    let raw = TEST_TRADE_DATA.replace("1555444333222", "1222333444555");
    assert_eq!(
        decode_trade(&raw),
        Err(trading_sys::errors::DecodeError::TimestampBeforeLaunch)
    );
}
