use trading_sys::coinlist::build_starts_and_limits;
use trading_sys::currency_pairs::CurrencyPair;
use trading_sys::models::book_depth::DepthLevels;
use trading_sys::models::klines::KlineInterval;
use trading_sys::models::mini_ticker::MiniTickerQueryType;
use trading_sys::models::NewPost;
use trading_sys::models::Post;
use trading_sys::nomics::Currencies;
use trading_sys::nomics::CurrenciesApi;
use trading_sys::nomics::NomicsError;
use trading_sys::stream_url::binance_api_url;
use trading_sys::stream_url::build_stream_url;

#[test]
fn stream_urls_concatenate_base_symbol_and_suffix() {
    let url = build_stream_url(
        "wss://stream.binance.com:9443/ws/",
        &CurrencyPair::BNBBTC,
        "@trade",
    );
    assert_eq!(url, "wss://stream.binance.com:9443/ws/bnbbtc@trade");
    let kline_url = build_stream_url(
        "wss://stream.binance.com:9443/ws/",
        &CurrencyPair::ETHBTC,
        "@kline_1m",
    );
    assert_eq!(kline_url, "wss://stream.binance.com:9443/ws/ethbtc@kline_1m");
}

#[test]
fn api_url_prefixes_the_endpoint() {
    assert_eq!(
        binance_api_url("bnbbtc@depth".to_owned()),
        "wss://stream.binance.com:9443/ws/bnbbtc@depth"
    );
}

#[test]
fn interval_and_depth_spellings() {
    assert_eq!(KlineInterval::_1m.as_str(), "1m");
    assert_eq!(KlineInterval::_12h.as_str(), "12h");
    assert_eq!(KlineInterval::_1M.as_str(), "1M");
    assert_eq!(KlineInterval::from_wire("30m"), Some(KlineInterval::_30m));
    assert_eq!(KlineInterval::from_wire("1M"), Some(KlineInterval::_1M));
    assert_eq!(KlineInterval::from_wire("7m"), None);
    assert_eq!(DepthLevels::_5.as_str(), "5");
    assert_eq!(DepthLevels::_20.as_str(), "20");
    assert!(matches!(MiniTickerQueryType::AllMarkets, MiniTickerQueryType::AllMarkets));
}

#[test]
fn paging_splits_in_blocks_of_one_hundred() {
    let (starts, limits) = build_starts_and_limits(250);
    assert_eq!(starts, vec![0, 100, 200]);
    assert_eq!(limits, vec![100, 100, 50]);

    let (starts, limits) = build_starts_and_limits(100);
    assert_eq!(starts, vec![0]);
    assert_eq!(limits, vec![0]);

    let (starts, limits) = build_starts_and_limits(0);
    assert_eq!(starts, Vec::<i32>::new());
    assert_eq!(limits, vec![0]);

    let (starts, limits) = build_starts_and_limits(42);
    assert_eq!(starts, vec![0]);
    assert_eq!(limits, vec![42]);
}

#[test]
fn listing_api_types_hold_their_data() {
    let api = CurrenciesApi::new("demo-key".to_owned());
    assert_eq!(api.url, "https://api.nomics.com/v1/currencies?key=demo-key");
    assert!(api.data.is_empty());
    let mut api = api;
    api.set_data(vec![Currencies { id: "BTC".to_owned() }]);
    assert_eq!(api.data.len(), 1);
    assert_eq!(api.data[0].id, "BTC");

    let err = NomicsError::new("no api key set");
    assert_eq!(err.message(), "no api key set");

    let post = Post { id: 1, title: "t".to_owned(), body: "b".to_owned(), published: false };
    assert_eq!(post.title, "t");
    let new_post = NewPost { title: "t", body: "b" };
    assert_eq!(new_post.body, "b");
}

#[test]
fn listing_response_bodies_parse_into_rows() {
    let mut api = CurrenciesApi::new("demo-key".to_owned());
    api.parse_and_set_data(r#"[{"id":"BTC"},{"id":"ETH","status":"active"}]"#).unwrap();
    assert_eq!(api.data.len(), 2);
    assert_eq!(api.data[0].id, "BTC");
    assert_eq!(api.data[1].id, "ETH");

    // a body of the wrong shape is an error and keeps the rows held
    assert!(api.parse_and_set_data(r#"{"id":"BTC"}"#).is_err());
    assert!(api.parse_and_set_data("not json").is_err());
    assert!(api.parse_and_set_data(r#"[{"name":"BTC"}]"#).is_err());
    assert_eq!(api.data.len(), 2);
}
