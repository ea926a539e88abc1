//! The full-ticker stream record and its decoder.

use vstd::prelude::*;

use crate::currency_pairs::CurrencyPair;
use crate::errors::DecodeError;
use crate::errors::ErrorModel;
use crate::json::spec_parse_json;
use crate::json::value_model;
use crate::json::JsonModel;
use crate::models::fields::field_i64;
use crate::models::fields::field_number;
use crate::models::fields::field_quantity;
use crate::models::fields::field_str;
use crate::models::fields::field_symbol;
use crate::models::fields::field_timestamp;
use crate::models::fields::spec_field_i64;
use crate::models::fields::spec_field_number;
use crate::models::fields::spec_field_quantity;
use crate::models::fields::spec_field_str;
use crate::models::fields::spec_field_symbol;
use crate::models::fields::spec_field_timestamp;
use crate::numeric::lit_is_neg;
use crate::numeric::CanonicalNumber;
use crate::timestamp::CanonicalTimestamp;

verus! {

/// Rolling 24-hour statistics for one symbol, decoded from a `24hrTicker`
/// stream frame.
#[derive(Debug, Clone, PartialEq, Eq)]
pub struct TickerDataInsert {
    /// Wire key `e`.
    pub event: String,
    /// Wire key `E`.
    pub event_time: CanonicalTimestamp,
    /// Wire key `s`.
    pub symbol: CurrencyPair,
    /// Wire key `p`.
    pub price_change: CanonicalNumber,
    /// Wire key `P`.
    pub price_change_pct: CanonicalNumber,
    /// Wire key `w`.
    pub weight_avg_price: CanonicalNumber,
    /// Wire key `x`.
    pub first_trade_before_24hr_window: CanonicalNumber,
    /// Wire key `c`.
    pub last_price: CanonicalNumber,
    /// Wire key `Q`.
    pub last_quantity: CanonicalNumber,
    /// Wire key `b`.
    pub best_bid_price: CanonicalNumber,
    /// Wire key `B`.
    pub best_bid_quantity: CanonicalNumber,
    /// Wire key `a`.
    pub best_ask_price: CanonicalNumber,
    /// Wire key `A`.
    pub best_ask_quantity: CanonicalNumber,
    /// Wire key `o`.
    pub open_price: CanonicalNumber,
    /// Wire key `h`.
    pub high_price: CanonicalNumber,
    /// Wire key `l`.
    pub low_price: CanonicalNumber,
    /// Wire key `v`.
    pub base_asset_vol: CanonicalNumber,
    /// Wire key `q`.
    pub quote_asset_vol: CanonicalNumber,
    /// Wire key `O`.
    pub open_time: CanonicalTimestamp,
    /// Wire key `C`.
    pub close_time: CanonicalTimestamp,
    /// Wire key `F`.
    pub first_trade_id: i64,
    /// Wire key `L`.
    pub last_trade_id: i64,
    /// Wire key `n`.
    pub total_num_trades: i64,
}

/// The mathematical value of a [`TickerDataInsert`].
pub struct TickerModel {
    pub event: Seq<char>,
    pub event_time: CanonicalTimestamp,
    pub symbol: CurrencyPair,
    pub price_change: Seq<char>,
    pub price_change_pct: Seq<char>,
    pub weight_avg_price: Seq<char>,
    pub first_trade_before_24hr_window: Seq<char>,
    pub last_price: Seq<char>,
    pub last_quantity: Seq<char>,
    pub best_bid_price: Seq<char>,
    pub best_bid_quantity: Seq<char>,
    pub best_ask_price: Seq<char>,
    pub best_ask_quantity: Seq<char>,
    pub open_price: Seq<char>,
    pub high_price: Seq<char>,
    pub low_price: Seq<char>,
    pub base_asset_vol: Seq<char>,
    pub quote_asset_vol: Seq<char>,
    pub open_time: CanonicalTimestamp,
    pub close_time: CanonicalTimestamp,
    pub first_trade_id: int,
    pub last_trade_id: int,
    pub total_num_trades: int,
}

impl View for TickerDataInsert {
    type V = TickerModel;

    open spec fn view(&self) -> TickerModel {
        TickerModel {
            event: self.event@,
            event_time: self.event_time,
            symbol: self.symbol,
            price_change: self.price_change@,
            price_change_pct: self.price_change_pct@,
            weight_avg_price: self.weight_avg_price@,
            first_trade_before_24hr_window: self.first_trade_before_24hr_window@,
            last_price: self.last_price@,
            last_quantity: self.last_quantity@,
            best_bid_price: self.best_bid_price@,
            best_bid_quantity: self.best_bid_quantity@,
            best_ask_price: self.best_ask_price@,
            best_ask_quantity: self.best_ask_quantity@,
            open_price: self.open_price@,
            high_price: self.high_price@,
            low_price: self.low_price@,
            base_asset_vol: self.base_asset_vol@,
            quote_asset_vol: self.quote_asset_vol@,
            open_time: self.open_time,
            close_time: self.close_time,
            first_trade_id: self.first_trade_id as int,
            last_trade_id: self.last_trade_id as int,
            total_num_trades: self.total_num_trades as int,
        }
    }
}

impl TickerDataInsert {
    /// The well-formedness invariant: canonical numbers and timestamps.
    pub open spec fn well_formed(&self) -> bool {
        &&& self.event_time.well_formed()
        &&& self.price_change.well_formed()
        &&& self.price_change_pct.well_formed()
        &&& self.weight_avg_price.well_formed()
        &&& self.first_trade_before_24hr_window.well_formed()
        &&& self.last_price.well_formed()
        &&& self.last_quantity.well_formed()
        &&& !lit_is_neg(self.last_quantity@)
        &&& self.best_bid_price.well_formed()
        &&& self.best_bid_quantity.well_formed()
        &&& !lit_is_neg(self.best_bid_quantity@)
        &&& self.best_ask_price.well_formed()
        &&& self.best_ask_quantity.well_formed()
        &&& !lit_is_neg(self.best_ask_quantity@)
        &&& self.open_price.well_formed()
        &&& self.high_price.well_formed()
        &&& self.low_price.well_formed()
        &&& self.base_asset_vol.well_formed()
        &&& self.quote_asset_vol.well_formed()
        &&& self.open_time.well_formed()
        &&& self.close_time.well_formed()
    }
}

/// What decoding a parsed `24hrTicker` frame yields: every mandatory field
/// in declaration order, the first failure aborting the record.
pub open spec fn spec_decode_ticker(j: JsonModel) -> Result<TickerModel, ErrorModel> {
    match spec_field_str(j, "e"@) {
        Err(e) => Err(e),
        Ok(event) =>
        match spec_field_timestamp(j, "E"@) {
            Err(e) => Err(e),
            Ok(event_time) =>
            match spec_field_symbol(j, "s"@) {
                Err(e) => Err(e),
                Ok(symbol) =>
                match spec_field_number(j, "p"@) {
                    Err(e) => Err(e),
                    Ok(price_change) =>
                    match spec_field_number(j, "P"@) {
                        Err(e) => Err(e),
                        Ok(price_change_pct) =>
                        match spec_field_number(j, "w"@) {
                            Err(e) => Err(e),
                            Ok(weight_avg_price) =>
                            match spec_field_number(j, "x"@) {
                                Err(e) => Err(e),
                                Ok(first_trade_before_24hr_window) =>
                                match spec_field_number(j, "c"@) {
                                    Err(e) => Err(e),
                                    Ok(last_price) =>
                                    match spec_field_quantity(j, "Q"@) {
                                        Err(e) => Err(e),
                                        Ok(last_quantity) =>
                                        match spec_field_number(j, "b"@) {
                                            Err(e) => Err(e),
                                            Ok(best_bid_price) =>
                                            match spec_field_quantity(j, "B"@) {
                                                Err(e) => Err(e),
                                                Ok(best_bid_quantity) =>
                                                match spec_field_number(j, "a"@) {
                                                    Err(e) => Err(e),
                                                    Ok(best_ask_price) =>
                                                    match spec_field_quantity(j, "A"@) {
                                                        Err(e) => Err(e),
                                                        Ok(best_ask_quantity) =>
                                                        match spec_field_number(j, "o"@) {
                                                            Err(e) => Err(e),
                                                            Ok(open_price) =>
                                                            match spec_field_number(j, "h"@) {
                                                                Err(e) => Err(e),
                                                                Ok(high_price) =>
                                                                match spec_field_number(j, "l"@) {
                                                                    Err(e) => Err(e),
                                                                    Ok(low_price) =>
                                                                    match spec_field_number(j, "v"@) {
                                                                        Err(e) => Err(e),
                                                                        Ok(base_asset_vol) =>
                                                                        match spec_field_number(j, "q"@) {
                                                                            Err(e) => Err(e),
                                                                            Ok(quote_asset_vol) =>
                                                                            match spec_field_timestamp(j, "O"@) {
                                                                                Err(e) => Err(e),
                                                                                Ok(open_time) =>
                                                                                match spec_field_timestamp(j, "C"@) {
                                                                                    Err(e) => Err(e),
                                                                                    Ok(close_time) =>
                                                                                    match spec_field_i64(j, "F"@) {
                                                                                        Err(e) => Err(e),
                                                                                        Ok(first_trade_id) =>
                                                                                        match spec_field_i64(j, "L"@) {
                                                                                            Err(e) => Err(e),
                                                                                            Ok(last_trade_id) =>
                                                                                            match spec_field_i64(j, "n"@) {
                                                                                                Err(e) => Err(e),
                                                                                                Ok(total_num_trades) =>
                                                                                                Ok(
                                                                                                    TickerModel {
                                                                                                        event,
                                                                                                        event_time,
                                                                                                        symbol,
                                                                                                        price_change,
                                                                                                        price_change_pct,
                                                                                                        weight_avg_price,
                                                                                                        first_trade_before_24hr_window,
                                                                                                        last_price,
                                                                                                        last_quantity,
                                                                                                        best_bid_price,
                                                                                                        best_bid_quantity,
                                                                                                        best_ask_price,
                                                                                                        best_ask_quantity,
                                                                                                        open_price,
                                                                                                        high_price,
                                                                                                        low_price,
                                                                                                        base_asset_vol,
                                                                                                        quote_asset_vol,
                                                                                                        open_time,
                                                                                                        close_time,
                                                                                                        first_trade_id,
                                                                                                        last_trade_id,
                                                                                                        total_num_trades,
                                                                                                    },
                                                                                                )
                                                                                            },
                                                                                        },
                                                                                    },
                                                                                },
                                                                            },
                                                                        },
                                                                    },
                                                                },
                                                            },
                                                        },
                                                    },
                                                },
                                            },
                                        },
                                    },
                                },
                            },
                        },
                    },
                },
            },
        },
    }
}

/// Decodes one parsed `24hrTicker` frame into a canonical record.
#[verifier::rlimit(100)]
pub fn decode_ticker_value(v: &serde_json::Value) -> (r: Result<TickerDataInsert, DecodeError>)
    ensures
        match spec_decode_ticker(value_model(*v)) {
            Ok(t) => r matches Ok(x) && x@ == t,
            Err(e) => r matches Err(err) && err@ == e,
        },
        r matches Ok(x) ==> x.well_formed(),
{
    let event = match field_str(v, "e") {
        Ok(x) => x,
        Err(e) => {
            return Err(e);
        },
    };
    let event_time = match field_timestamp(v, "E") {
        Ok(x) => x,
        Err(e) => {
            return Err(e);
        },
    };
    let symbol = match field_symbol(v, "s") {
        Ok(x) => x,
        Err(e) => {
            return Err(e);
        },
    };
    let price_change = match field_number(v, "p") {
        Ok(x) => x,
        Err(e) => {
            return Err(e);
        },
    };
    let price_change_pct = match field_number(v, "P") {
        Ok(x) => x,
        Err(e) => {
            return Err(e);
        },
    };
    let weight_avg_price = match field_number(v, "w") {
        Ok(x) => x,
        Err(e) => {
            return Err(e);
        },
    };
    let first_trade_before_24hr_window = match field_number(v, "x") {
        Ok(x) => x,
        Err(e) => {
            return Err(e);
        },
    };
    let last_price = match field_number(v, "c") {
        Ok(x) => x,
        Err(e) => {
            return Err(e);
        },
    };
    let last_quantity = match field_quantity(v, "Q") {
        Ok(x) => x,
        Err(e) => {
            return Err(e);
        },
    };
    let best_bid_price = match field_number(v, "b") {
        Ok(x) => x,
        Err(e) => {
            return Err(e);
        },
    };
    let best_bid_quantity = match field_quantity(v, "B") {
        Ok(x) => x,
        Err(e) => {
            return Err(e);
        },
    };
    let best_ask_price = match field_number(v, "a") {
        Ok(x) => x,
        Err(e) => {
            return Err(e);
        },
    };
    let best_ask_quantity = match field_quantity(v, "A") {
        Ok(x) => x,
        Err(e) => {
            return Err(e);
        },
    };
    let open_price = match field_number(v, "o") {
        Ok(x) => x,
        Err(e) => {
            return Err(e);
        },
    };
    let high_price = match field_number(v, "h") {
        Ok(x) => x,
        Err(e) => {
            return Err(e);
        },
    };
    let low_price = match field_number(v, "l") {
        Ok(x) => x,
        Err(e) => {
            return Err(e);
        },
    };
    let base_asset_vol = match field_number(v, "v") {
        Ok(x) => x,
        Err(e) => {
            return Err(e);
        },
    };
    let quote_asset_vol = match field_number(v, "q") {
        Ok(x) => x,
        Err(e) => {
            return Err(e);
        },
    };
    let open_time = match field_timestamp(v, "O") {
        Ok(x) => x,
        Err(e) => {
            return Err(e);
        },
    };
    let close_time = match field_timestamp(v, "C") {
        Ok(x) => x,
        Err(e) => {
            return Err(e);
        },
    };
    let first_trade_id = match field_i64(v, "F") {
        Ok(x) => x,
        Err(e) => {
            return Err(e);
        },
    };
    let last_trade_id = match field_i64(v, "L") {
        Ok(x) => x,
        Err(e) => {
            return Err(e);
        },
    };
    let total_num_trades = match field_i64(v, "n") {
        Ok(x) => x,
        Err(e) => {
            return Err(e);
        },
    };
    Ok(
        TickerDataInsert {
            event,
            event_time,
            symbol,
            price_change,
            price_change_pct,
            weight_avg_price,
            first_trade_before_24hr_window,
            last_price,
            last_quantity,
            best_bid_price,
            best_bid_quantity,
            best_ask_price,
            best_ask_quantity,
            open_price,
            high_price,
            low_price,
            base_asset_vol,
            quote_asset_vol,
            open_time,
            close_time,
            first_trade_id,
            last_trade_id,
            total_num_trades,
        },
    )
}

/// What decoding a raw `24hrTicker` frame text yields: a parse failure is
/// `MalformedFrame`, otherwise the parsed tree is decoded.
pub open spec fn spec_decode_ticker_text(s: Seq<char>) -> Result<TickerModel, ErrorModel> {
    match spec_parse_json(s) {
        None => Err(ErrorModel::MalformedFrame),
        Some(j) => spec_decode_ticker(j),
    }
}

/// Decodes one raw `24hrTicker` frame text into a canonical record.
pub fn decode_ticker(raw: &str) -> (r: Result<TickerDataInsert, DecodeError>)
    ensures
        match spec_decode_ticker_text(raw@) {
            Ok(t) => r matches Ok(x) && x@ == t,
            Err(e) => r matches Err(err) && err@ == e,
        },
        r matches Ok(x) ==> x.well_formed(),
{
    match crate::json::parse_json(raw) {
        None => Err(DecodeError::MalformedFrame),
        Some(v) => decode_ticker_value(&v),
    }
}

/// Decoding is a pure function of the frame text: two decodes of one and
/// the same frame yield identical outcomes, with no hidden state.
pub proof fn lemma_decode_ticker_deterministic(
    s: Seq<char>,
    r1: Result<TickerModel, ErrorModel>,
    r2: Result<TickerModel, ErrorModel>,
)
    requires
        r1 == spec_decode_ticker_text(s),
        r2 == spec_decode_ticker_text(s),
    ensures
        r1 == r2,
{
}

} // verus!
