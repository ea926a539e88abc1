//! The mini-ticker stream record and its decoder.

use vstd::prelude::*;

use crate::currency_pairs::CurrencyPair;
use crate::errors::DecodeError;
use crate::errors::ErrorModel;
use crate::json::spec_parse_json;
use crate::json::value_model;
use crate::json::JsonModel;
use crate::models::fields::field_number;
use crate::models::fields::field_str;
use crate::models::fields::field_symbol;
use crate::models::fields::field_timestamp;
use crate::models::fields::spec_field_number;
use crate::models::fields::spec_field_str;
use crate::models::fields::spec_field_symbol;
use crate::models::fields::spec_field_timestamp;
use crate::numeric::CanonicalNumber;
use crate::timestamp::CanonicalTimestamp;

verus! {

/// Rolling 24-hour mini statistics for one symbol, decoded from a
/// `24hrMiniTicker` stream frame; a strict subset of the full ticker.
#[derive(Debug, Clone, PartialEq, Eq)]
pub struct MiniTickerDataInsert {
    /// Wire key `e`.
    pub event: String,
    /// Wire key `E`.
    pub event_time: CanonicalTimestamp,
    /// Wire key `s`.
    pub symbol: CurrencyPair,
    /// Wire key `o`.
    pub open: CanonicalNumber,
    /// Wire key `c`.
    pub close: CanonicalNumber,
    /// Wire key `h`.
    pub high: CanonicalNumber,
    /// Wire key `l`.
    pub low: CanonicalNumber,
    /// Wire key `v`.
    pub base_asset_vol: CanonicalNumber,
    /// Wire key `q`.
    pub quote_asset_vol: CanonicalNumber,
}

/// The mathematical value of a [`MiniTickerDataInsert`].
pub struct MiniTickerModel {
    pub event: Seq<char>,
    pub event_time: CanonicalTimestamp,
    pub symbol: CurrencyPair,
    pub open: Seq<char>,
    pub close: Seq<char>,
    pub high: Seq<char>,
    pub low: Seq<char>,
    pub base_asset_vol: Seq<char>,
    pub quote_asset_vol: Seq<char>,
}

impl View for MiniTickerDataInsert {
    type V = MiniTickerModel;

    open spec fn view(&self) -> MiniTickerModel {
        MiniTickerModel {
            event: self.event@,
            event_time: self.event_time,
            symbol: self.symbol,
            open: self.open@,
            close: self.close@,
            high: self.high@,
            low: self.low@,
            base_asset_vol: self.base_asset_vol@,
            quote_asset_vol: self.quote_asset_vol@,
        }
    }
}

impl MiniTickerDataInsert {
    /// The well-formedness invariant: canonical numbers and timestamps.
    pub open spec fn well_formed(&self) -> bool {
        &&& self.event_time.well_formed()
        &&& self.open.well_formed()
        &&& self.close.well_formed()
        &&& self.high.well_formed()
        &&& self.low.well_formed()
        &&& self.base_asset_vol.well_formed()
        &&& self.quote_asset_vol.well_formed()
    }
}

/// What decoding a parsed `24hrMiniTicker` frame yields: every mandatory
/// field in declaration order, the first failure aborting the record.
pub open spec fn spec_decode_mini_ticker(j: JsonModel) -> Result<MiniTickerModel, ErrorModel> {
    match spec_field_str(j, "e"@) {
        Err(e) => Err(e),
        Ok(event) =>
        match spec_field_timestamp(j, "E"@) {
            Err(e) => Err(e),
            Ok(event_time) =>
            match spec_field_symbol(j, "s"@) {
                Err(e) => Err(e),
                Ok(symbol) =>
                match spec_field_number(j, "o"@) {
                    Err(e) => Err(e),
                    Ok(open) =>
                    match spec_field_number(j, "c"@) {
                        Err(e) => Err(e),
                        Ok(close) =>
                        match spec_field_number(j, "h"@) {
                            Err(e) => Err(e),
                            Ok(high) =>
                            match spec_field_number(j, "l"@) {
                                Err(e) => Err(e),
                                Ok(low) =>
                                match spec_field_number(j, "v"@) {
                                    Err(e) => Err(e),
                                    Ok(base_asset_vol) =>
                                    match spec_field_number(j, "q"@) {
                                        Err(e) => Err(e),
                                        Ok(quote_asset_vol) =>
                                        Ok(
                                            MiniTickerModel {
                                                event,
                                                event_time,
                                                symbol,
                                                open,
                                                close,
                                                high,
                                                low,
                                                base_asset_vol,
                                                quote_asset_vol,
                                            },
                                        )
                                    },
                                },
                            },
                        },
                    },
                },
            },
        },
    }
}

/// Decodes one parsed `24hrMiniTicker` frame into a canonical record.
pub fn decode_mini_ticker_value(v: &serde_json::Value) -> (r: Result<MiniTickerDataInsert, DecodeError>)
    ensures
        match spec_decode_mini_ticker(value_model(*v)) {
            Ok(t) => r matches Ok(x) && x@ == t,
            Err(e) => r matches Err(err) && err@ == e,
        },
        r matches Ok(x) ==> x.well_formed(),
{
    let event = match field_str(v, "e") {
        Ok(x) => x,
        Err(e) => {
            return Err(e);
        },
    };
    let event_time = match field_timestamp(v, "E") {
        Ok(x) => x,
        Err(e) => {
            return Err(e);
        },
    };
    let symbol = match field_symbol(v, "s") {
        Ok(x) => x,
        Err(e) => {
            return Err(e);
        },
    };
    let open = match field_number(v, "o") {
        Ok(x) => x,
        Err(e) => {
            return Err(e);
        },
    };
    let close = match field_number(v, "c") {
        Ok(x) => x,
        Err(e) => {
            return Err(e);
        },
    };
    let high = match field_number(v, "h") {
        Ok(x) => x,
        Err(e) => {
            return Err(e);
        },
    };
    let low = match field_number(v, "l") {
        Ok(x) => x,
        Err(e) => {
            return Err(e);
        },
    };
    let base_asset_vol = match field_number(v, "v") {
        Ok(x) => x,
        Err(e) => {
            return Err(e);
        },
    };
    let quote_asset_vol = match field_number(v, "q") {
        Ok(x) => x,
        Err(e) => {
            return Err(e);
        },
    };
    Ok(
        MiniTickerDataInsert {
            event,
            event_time,
            symbol,
            open,
            close,
            high,
            low,
            base_asset_vol,
            quote_asset_vol,
        },
    )
}

/// What decoding a raw `24hrMiniTicker` frame text yields: a parse failure is
/// `MalformedFrame`, otherwise the parsed tree is decoded.
pub open spec fn spec_decode_mini_ticker_text(s: Seq<char>) -> Result<MiniTickerModel, ErrorModel> {
    match spec_parse_json(s) {
        None => Err(ErrorModel::MalformedFrame),
        Some(j) => spec_decode_mini_ticker(j),
    }
}

/// Decodes one raw `24hrMiniTicker` frame text into a canonical record.
pub fn decode_mini_ticker(raw: &str) -> (r: Result<MiniTickerDataInsert, DecodeError>)
    ensures
        match spec_decode_mini_ticker_text(raw@) {
            Ok(t) => r matches Ok(x) && x@ == t,
            Err(e) => r matches Err(err) && err@ == e,
        },
        r matches Ok(x) ==> x.well_formed(),
{
    match crate::json::parse_json(raw) {
        None => Err(DecodeError::MalformedFrame),
        Some(v) => decode_mini_ticker_value(&v),
    }
}

/// Whether a mini-ticker subscription covers one market or all of them.
#[derive(Debug, Clone, Copy, PartialEq, Eq, Structural)]
pub enum MiniTickerQueryType {
    AllMarkets,
    SingleMarket,
}

/// Decoding is a pure function of the frame text: two decodes of one and
/// the same frame yield identical outcomes, with no hidden state.
pub proof fn lemma_decode_mini_ticker_deterministic(
    s: Seq<char>,
    r1: Result<MiniTickerModel, ErrorModel>,
    r2: Result<MiniTickerModel, ErrorModel>,
)
    requires
        r1 == spec_decode_mini_ticker_text(s),
        r2 == spec_decode_mini_ticker_text(s),
    ensures
        r1 == r2,
{
}

} // verus!
