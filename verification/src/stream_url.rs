//! Construction of outbound stream-subscription URLs.
//!
//! This is the one place the decoding core touches network addressing: a
//! pure string concatenation of the endpoint base, the lower-cased wire
//! symbol and the stream suffix.

use vstd::prelude::*;

use crate::currency_pairs::wire_str;
use crate::currency_pairs::CurrencyPair;
use crate::text::ascii_lower_seq;

verus! {

/// The feed's stream endpoint base.
pub fn binance_api_url(query: String) -> (r: String)
    ensures
        r@ == "wss://stream.binance.com:9443/ws/"@ + query@,
{
    let mut url: String = String::new();
    url.append("wss://stream.binance.com:9443/ws/");
    url.append(query.as_str());
    proof {
        assert(url@ =~= "wss://stream.binance.com:9443/ws/"@ + query@);
    }
    url
}

/// Builds the subscription URL for one symbol and stream suffix: the base,
/// the lower-cased wire symbol, and the suffix, concatenated.
pub fn build_stream_url(base: &str, symbol: &CurrencyPair, stream_suffix: &str) -> (r: String)
    ensures
        r@ == base@ + ascii_lower_seq(wire_str(*symbol)) + stream_suffix@,
{
    let mut url: String = String::new();
    url.append(base);
    let sym = crate::currency_pairs::to_wire_string(symbol);
    url.append(sym.as_str());
    url.append(stream_suffix);
    proof {
        assert(url@ =~= base@ + ascii_lower_seq(wire_str(*symbol)) + stream_suffix@);
    }
    url
}

} // verus!
