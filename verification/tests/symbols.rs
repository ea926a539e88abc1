use trading_sys::currency_pairs::decode_symbol;
use trading_sys::currency_pairs::to_wire_string;
use trading_sys::currency_pairs::CurrencyBase;
use trading_sys::currency_pairs::CurrencyPair;
use trading_sys::errors::DecodeError;

#[test]
fn known_symbols_decode_exactly() {
    assert_eq!(decode_symbol("BNBBTC"), Ok(CurrencyPair::BNBBTC));
    assert_eq!(decode_symbol("ADABNB"), Ok(CurrencyPair::ADABNB));
    assert_eq!(decode_symbol("ZRXETH"), Ok(CurrencyPair::ZRXETH));
    assert_eq!(decode_symbol("XRPUSDT"), Ok(CurrencyPair::XRPUSDT));
}

#[test]
fn unknown_symbols_are_hard_errors() {
    assert_eq!(
        decode_symbol("NOTASYMBOL"),
        Err(DecodeError::UnknownSymbol("NOTASYMBOL".to_owned()))
    );
    // matching is case-sensitive: the lower-case spelling is not a member
    assert_eq!(
        decode_symbol("bnbbtc"),
        Err(DecodeError::UnknownSymbol("bnbbtc".to_owned()))
    );
    assert_eq!(decode_symbol(""), Err(DecodeError::UnknownSymbol(String::new())));
}

#[test]
fn wire_round_trip_lowercases() {
    for s in ["BNBBTC", "ADAUSDT", "ETHBTC", "WAVESPAX", "ZILBNB", "TRXXRP"] {
        let p = decode_symbol(s).unwrap();
        assert_eq!(to_wire_string(&p), s.to_lowercase());
        assert_eq!(p.to_lowercase(), s.to_lowercase());
        assert_eq!(p.as_string(), s);
        assert_eq!(p.as_str(), s);
    }
}

#[test]
fn base_pair_filtering_matches_suffixes() {
    assert!(CurrencyPair::BNBBTC.filter_base_pair(CurrencyBase::BTC));
    assert!(!CurrencyPair::BNBBTC.filter_base_pair(CurrencyBase::ETH));
    assert!(CurrencyPair::ADAUSDT.filter_base_pair(CurrencyBase::USDT));
    assert!(CurrencyPair::XRPPAX.filter_base_pair(CurrencyBase::PAX));
    assert!(!CurrencyPair::XRPPAX.filter_base_pair(CurrencyBase::USDC));
    assert_eq!(CurrencyBase::USDT.as_str(), "USDT");
}
