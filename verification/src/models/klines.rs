//! The kline (candle) stream record and its decoder.
//!
//! A `kline` frame nests the candle payload under the `k` key; the decoder
//! reads the outer event metadata and the nested payload with the same
//! primitives, and [`map_klinemeta_to_klineinsertdata`] folds both into the
//! flat record that storage expects.

use vstd::prelude::*;

use crate::currency_pairs::CurrencyPair;
use crate::errors::DecodeError;
use crate::errors::ErrorModel;
use crate::json::spec_parse_json;
use crate::json::value_model;
use crate::json::JsonModel;
use crate::models::fields::field_bool;
use crate::models::fields::field_i64;
use crate::models::fields::field_number;
use crate::models::fields::field_str;
use crate::models::fields::field_symbol;
use crate::models::fields::field_timestamp;
use crate::models::fields::field_value;
use crate::models::fields::jfield;
use crate::models::fields::spec_field_bool;
use crate::models::fields::spec_field_i64;
use crate::models::fields::spec_field_number;
use crate::models::fields::spec_field_str;
use crate::models::fields::spec_field_symbol;
use crate::models::fields::spec_field_timestamp;
use crate::numeric::CanonicalNumber;
use crate::text::str_eq;
use crate::timestamp::CanonicalTimestamp;

verus! {

/// The candle payload nested under the `k` key of a `kline` frame.
#[derive(Debug, Clone, PartialEq, Eq)]
pub struct NewKlineData {
    /// Wire key `t`.
    pub start_time: CanonicalTimestamp,
    /// Wire key `T`.
    pub close_time: CanonicalTimestamp,
    /// Wire key `s`.
    pub symbol: CurrencyPair,
    /// Wire key `i`.
    pub interval: String,
    /// Wire key `f`.
    pub first_trade_id: i64,
    /// Wire key `L`.
    pub last_trade_id: i64,
    /// Wire key `o`.
    pub open: CanonicalNumber,
    /// Wire key `c`.
    pub close: CanonicalNumber,
    /// Wire key `h`.
    pub high: CanonicalNumber,
    /// Wire key `l`.
    pub low: CanonicalNumber,
    /// Wire key `v`.
    pub volume: CanonicalNumber,
    /// Wire key `n`.
    pub num_of_trades: i64,
    /// Wire key `x`.
    pub is_kline_closed: bool,
    /// Wire key `q`.
    pub quote_asset_vol: CanonicalNumber,
    /// Wire key `V`.
    pub taker_buy_base_vol: CanonicalNumber,
    /// Wire key `Q`.
    pub taker_buy_quote_vol: CanonicalNumber,
}

/// The mathematical value of a [`NewKlineData`].
pub struct NewKlineModel {
    pub start_time: CanonicalTimestamp,
    pub close_time: CanonicalTimestamp,
    pub symbol: CurrencyPair,
    pub interval: Seq<char>,
    pub first_trade_id: int,
    pub last_trade_id: int,
    pub open: Seq<char>,
    pub close: Seq<char>,
    pub high: Seq<char>,
    pub low: Seq<char>,
    pub volume: Seq<char>,
    pub num_of_trades: int,
    pub is_kline_closed: bool,
    pub quote_asset_vol: Seq<char>,
    pub taker_buy_base_vol: Seq<char>,
    pub taker_buy_quote_vol: Seq<char>,
}

impl View for NewKlineData {
    type V = NewKlineModel;

    open spec fn view(&self) -> NewKlineModel {
        NewKlineModel {
            start_time: self.start_time,
            close_time: self.close_time,
            symbol: self.symbol,
            interval: self.interval@,
            first_trade_id: self.first_trade_id as int,
            last_trade_id: self.last_trade_id as int,
            open: self.open@,
            close: self.close@,
            high: self.high@,
            low: self.low@,
            volume: self.volume@,
            num_of_trades: self.num_of_trades as int,
            is_kline_closed: self.is_kline_closed,
            quote_asset_vol: self.quote_asset_vol@,
            taker_buy_base_vol: self.taker_buy_base_vol@,
            taker_buy_quote_vol: self.taker_buy_quote_vol@,
        }
    }
}

impl NewKlineData {
    /// The well-formedness invariant: canonical numbers and timestamps.
    pub open spec fn well_formed(&self) -> bool {
        &&& self.start_time.well_formed()
        &&& self.close_time.well_formed()
        &&& interval_of_wire(self.interval@) is Some
        &&& self.open.well_formed()
        &&& self.close.well_formed()
        &&& self.high.well_formed()
        &&& self.low.well_formed()
        &&& self.volume.well_formed()
        &&& self.quote_asset_vol.well_formed()
        &&& self.taker_buy_base_vol.well_formed()
        &&& self.taker_buy_quote_vol.well_formed()
    }
}

/// A `kline` frame: the outer event metadata with the nested candle.
#[derive(Debug, Clone, PartialEq, Eq)]
pub struct KlineMetaData {
    /// Wire key `e`.
    pub event: String,
    /// Wire key `E`.
    pub event_time: CanonicalTimestamp,
    /// Wire key `s`.
    pub symbol: CurrencyPair,
    /// Wire key `k`.
    pub kline_data: NewKlineData,
}

/// The mathematical value of a [`KlineMetaData`].
pub struct KlineMetaModel {
    pub event: Seq<char>,
    pub event_time: CanonicalTimestamp,
    pub symbol: CurrencyPair,
    pub kline_data: NewKlineModel,
}

impl View for KlineMetaData {
    type V = KlineMetaModel;

    open spec fn view(&self) -> KlineMetaModel {
        KlineMetaModel {
            event: self.event@,
            event_time: self.event_time,
            symbol: self.symbol,
            kline_data: self.kline_data@,
        }
    }
}

impl KlineMetaData {
    /// The well-formedness invariant: canonical numbers and timestamps.
    pub open spec fn well_formed(&self) -> bool {
        self.event_time.well_formed() && self.kline_data.well_formed()
    }
}

/// The flat kline record that storage expects: the outer event metadata
/// merged with the candle payload.
#[derive(Debug, Clone, PartialEq, Eq)]
pub struct KlineDataInsert {
    pub event: String,
    pub event_time: CanonicalTimestamp,
    pub start_time: CanonicalTimestamp,
    pub close_time: CanonicalTimestamp,
    pub symbol: CurrencyPair,
    pub interval: String,
    pub first_trade_id: i64,
    pub last_trade_id: i64,
    pub open: CanonicalNumber,
    pub close: CanonicalNumber,
    pub high: CanonicalNumber,
    pub low: CanonicalNumber,
    pub volume: CanonicalNumber,
    pub num_of_trades: i64,
    pub is_kline_closed: bool,
    pub quote_asset_vol: CanonicalNumber,
    pub taker_buy_base_vol: CanonicalNumber,
    pub taker_buy_quote_vol: CanonicalNumber,
}

/// The mathematical value of a [`KlineDataInsert`].
pub struct KlineInsertModel {
    pub event: Seq<char>,
    pub event_time: CanonicalTimestamp,
    pub start_time: CanonicalTimestamp,
    pub close_time: CanonicalTimestamp,
    pub symbol: CurrencyPair,
    pub interval: Seq<char>,
    pub first_trade_id: int,
    pub last_trade_id: int,
    pub open: Seq<char>,
    pub close: Seq<char>,
    pub high: Seq<char>,
    pub low: Seq<char>,
    pub volume: Seq<char>,
    pub num_of_trades: int,
    pub is_kline_closed: bool,
    pub quote_asset_vol: Seq<char>,
    pub taker_buy_base_vol: Seq<char>,
    pub taker_buy_quote_vol: Seq<char>,
}

impl View for KlineDataInsert {
    type V = KlineInsertModel;

    open spec fn view(&self) -> KlineInsertModel {
        KlineInsertModel {
            event: self.event@,
            event_time: self.event_time,
            start_time: self.start_time,
            close_time: self.close_time,
            symbol: self.symbol,
            interval: self.interval@,
            first_trade_id: self.first_trade_id as int,
            last_trade_id: self.last_trade_id as int,
            open: self.open@,
            close: self.close@,
            high: self.high@,
            low: self.low@,
            volume: self.volume@,
            num_of_trades: self.num_of_trades as int,
            is_kline_closed: self.is_kline_closed,
            quote_asset_vol: self.quote_asset_vol@,
            taker_buy_base_vol: self.taker_buy_base_vol@,
            taker_buy_quote_vol: self.taker_buy_quote_vol@,
        }
    }
}

/// The flattening of a decoded frame's model into the flat record's model:
/// event metadata from the outer object, everything else from the candle.
pub open spec fn spec_flatten_kline(m: KlineMetaModel) -> KlineInsertModel {
    KlineInsertModel {
        event: m.event,
        event_time: m.event_time,
        start_time: m.kline_data.start_time,
        close_time: m.kline_data.close_time,
        symbol: m.kline_data.symbol,
        interval: m.kline_data.interval,
        first_trade_id: m.kline_data.first_trade_id,
        last_trade_id: m.kline_data.last_trade_id,
        open: m.kline_data.open,
        close: m.kline_data.close,
        high: m.kline_data.high,
        low: m.kline_data.low,
        volume: m.kline_data.volume,
        num_of_trades: m.kline_data.num_of_trades,
        is_kline_closed: m.kline_data.is_kline_closed,
        quote_asset_vol: m.kline_data.quote_asset_vol,
        taker_buy_base_vol: m.kline_data.taker_buy_base_vol,
        taker_buy_quote_vol: m.kline_data.taker_buy_quote_vol,
    }
}

/// Folds the outer event metadata and the nested candle into the flat
/// record that storage expects.
pub fn map_klinemeta_to_klineinsertdata(m: KlineMetaData) -> (r: KlineDataInsert)
    ensures
        r@ == spec_flatten_kline(m@),
{
    let kd = m.kline_data;
    KlineDataInsert {
        event: m.event,
        event_time: m.event_time,
        start_time: kd.start_time,
        close_time: kd.close_time,
        symbol: kd.symbol,
        interval: kd.interval,
        first_trade_id: kd.first_trade_id,
        last_trade_id: kd.last_trade_id,
        open: kd.open,
        close: kd.close,
        high: kd.high,
        low: kd.low,
        volume: kd.volume,
        num_of_trades: kd.num_of_trades,
        is_kline_closed: kd.is_kline_closed,
        quote_asset_vol: kd.quote_asset_vol,
        taker_buy_base_vol: kd.taker_buy_base_vol,
        taker_buy_quote_vol: kd.taker_buy_quote_vol,
    }
}

/// What decoding the candle payload yields: every mandatory field in
/// declaration order, the first failure aborting the record.
pub open spec fn spec_decode_new_kline(j: JsonModel) -> Result<NewKlineModel, ErrorModel> {
    match spec_field_timestamp(j, "t"@) {
        Err(e) => Err(e),
        Ok(start_time) => match spec_field_timestamp(j, "T"@) {
            Err(e) => Err(e),
            Ok(close_time) => match spec_field_symbol(j, "s"@) {
                Err(e) => Err(e),
                Ok(symbol) => match spec_field_str(j, "i"@) {
                    Err(e) => Err(e),
                    // an interval outside the closed enumeration is no
                    // valid candle
                    Ok(interval) => if interval_of_wire(interval) is None {
                        Err(ErrorModel::MalformedFrame)
                    } else {
                        match spec_field_i64(j, "f"@) {
                            Err(e) => Err(e),
                            Ok(first_trade_id) => match spec_field_i64(j, "L"@) {
                                Err(e) => Err(e),
                                Ok(last_trade_id) => match spec_field_number(j, "o"@) {
                                    Err(e) => Err(e),
                                    Ok(open) => match spec_field_number(j, "c"@) {
                                        Err(e) => Err(e),
                                        Ok(close) => match spec_field_number(j, "h"@) {
                                            Err(e) => Err(e),
                                            Ok(high) => match spec_field_number(j, "l"@) {
                                                Err(e) => Err(e),
                                                Ok(low) => match spec_field_number(j, "v"@) {
                                                    Err(e) => Err(e),
                                                    Ok(volume) => match spec_field_i64(j, "n"@) {
                                                        Err(e) => Err(e),
                                                        Ok(num_of_trades) => match spec_field_bool(
                                                            j,
                                                            "x"@,
                                                        ) {
                                                            Err(e) => Err(e),
                                                            Ok(is_kline_closed) => match spec_field_number(
                                                                j,
                                                                "q"@,
                                                            ) {
                                                                Err(e) => Err(e),
                                                                Ok(quote_asset_vol) => match spec_field_number(
                                                                    j,
                                                                    "V"@,
                                                                ) {
                                                                    Err(e) => Err(e),
                                                                    Ok(taker_buy_base_vol) => match spec_field_number(
                                                                        j,
                                                                        "Q"@,
                                                                    ) {
                                                                        Err(e) => Err(e),
                                                                        Ok(taker_buy_quote_vol) => Ok(
                                                                            NewKlineModel {
                                                                                start_time,
                                                                                close_time,
                                                                                symbol,
                                                                                interval,
                                                                                first_trade_id,
                                                                                last_trade_id,
                                                                                open,
                                                                                close,
                                                                                high,
                                                                                low,
                                                                                volume,
                                                                                num_of_trades,
                                                                                is_kline_closed,
                                                                                quote_asset_vol,
                                                                                taker_buy_base_vol,
                                                                                taker_buy_quote_vol,
                                                                            },
                                                                        ),
                                                                    },
                                                                },
                                                            },
                                                        },
                                                    },
                                                },
                                            },
                                        },
                                    },
                                },
                            },
                        }
                    },
                },
            },
        },
    }
}

/// What decoding a parsed `kline` frame yields: the outer metadata, then
/// the candle nested under `k`, the first failure aborting the record.
pub open spec fn spec_decode_kline(j: JsonModel) -> Result<KlineMetaModel, ErrorModel> {
    match spec_field_str(j, "e"@) {
        Err(e) => Err(e),
        Ok(event) => match spec_field_timestamp(j, "E"@) {
            Err(e) => Err(e),
            Ok(event_time) => match spec_field_symbol(j, "s"@) {
                Err(e) => Err(e),
                Ok(symbol) => match jfield(j, "k"@) {
                    None => Err(ErrorModel::MalformedFrame),
                    Some(k) => match spec_decode_new_kline(k) {
                        Err(e) => Err(e),
                        Ok(kline_data) => Ok(
                            KlineMetaModel { event, event_time, symbol, kline_data },
                        ),
                    },
                },
            },
        },
    }
}

/// What decoding a raw `kline` frame text yields: a parse failure is
/// `MalformedFrame`, otherwise the parsed tree is decoded.
pub open spec fn spec_decode_kline_text(s: Seq<char>) -> Result<KlineMetaModel, ErrorModel> {
    match spec_parse_json(s) {
        None => Err(ErrorModel::MalformedFrame),
        Some(j) => spec_decode_kline(j),
    }
}

/// Decodes the candle payload nested under the `k` key.
#[verifier::rlimit(100)]
pub fn decode_new_kline_value(v: &serde_json::Value) -> (r: Result<NewKlineData, DecodeError>)
    ensures
        match spec_decode_new_kline(value_model(*v)) {
            Ok(t) => r matches Ok(x) && x@ == t,
            Err(e) => r matches Err(err) && err@ == e,
        },
        r matches Ok(x) ==> x.well_formed(),
{
    let start_time = match field_timestamp(v, "t") {
        Ok(x) => x,
        Err(e) => {
            return Err(e);
        },
    };
    let close_time = match field_timestamp(v, "T") {
        Ok(x) => x,
        Err(e) => {
            return Err(e);
        },
    };
    let symbol = match field_symbol(v, "s") {
        Ok(x) => x,
        Err(e) => {
            return Err(e);
        },
    };
    let interval = match field_str(v, "i") {
        Ok(x) => x,
        Err(e) => {
            return Err(e);
        },
    };
    if KlineInterval::from_wire(interval.as_str()).is_none() {
        return Err(DecodeError::MalformedFrame);
    }
    let first_trade_id = match field_i64(v, "f") {
        Ok(x) => x,
        Err(e) => {
            return Err(e);
        },
    };
    let last_trade_id = match field_i64(v, "L") {
        Ok(x) => x,
        Err(e) => {
            return Err(e);
        },
    };
    let open = match field_number(v, "o") {
        Ok(x) => x,
        Err(e) => {
            return Err(e);
        },
    };
    let close = match field_number(v, "c") {
        Ok(x) => x,
        Err(e) => {
            return Err(e);
        },
    };
    let high = match field_number(v, "h") {
        Ok(x) => x,
        Err(e) => {
            return Err(e);
        },
    };
    let low = match field_number(v, "l") {
        Ok(x) => x,
        Err(e) => {
            return Err(e);
        },
    };
    let volume = match field_number(v, "v") {
        Ok(x) => x,
        Err(e) => {
            return Err(e);
        },
    };
    let num_of_trades = match field_i64(v, "n") {
        Ok(x) => x,
        Err(e) => {
            return Err(e);
        },
    };
    let is_kline_closed = match field_bool(v, "x") {
        Ok(x) => x,
        Err(e) => {
            return Err(e);
        },
    };
    let quote_asset_vol = match field_number(v, "q") {
        Ok(x) => x,
        Err(e) => {
            return Err(e);
        },
    };
    let taker_buy_base_vol = match field_number(v, "V") {
        Ok(x) => x,
        Err(e) => {
            return Err(e);
        },
    };
    let taker_buy_quote_vol = match field_number(v, "Q") {
        Ok(x) => x,
        Err(e) => {
            return Err(e);
        },
    };
    Ok(
        NewKlineData {
            start_time,
            close_time,
            symbol,
            interval,
            first_trade_id,
            last_trade_id,
            open,
            close,
            high,
            low,
            volume,
            num_of_trades,
            is_kline_closed,
            quote_asset_vol,
            taker_buy_base_vol,
            taker_buy_quote_vol,
        },
    )
}

/// Decodes one parsed `kline` frame into its metadata and nested candle.
pub fn decode_kline_value(v: &serde_json::Value) -> (r: Result<KlineMetaData, DecodeError>)
    ensures
        match spec_decode_kline(value_model(*v)) {
            Ok(t) => r matches Ok(x) && x@ == t,
            Err(e) => r matches Err(err) && err@ == e,
        },
        r matches Ok(x) ==> x.well_formed(),
{
    let event = match field_str(v, "e") {
        Ok(x) => x,
        Err(e) => {
            return Err(e);
        },
    };
    let event_time = match field_timestamp(v, "E") {
        Ok(x) => x,
        Err(e) => {
            return Err(e);
        },
    };
    let symbol = match field_symbol(v, "s") {
        Ok(x) => x,
        Err(e) => {
            return Err(e);
        },
    };
    let k = match field_value(v, "k") {
        Ok(x) => x,
        Err(e) => {
            return Err(e);
        },
    };
    let kline_data = match decode_new_kline_value(k) {
        Ok(x) => x,
        Err(e) => {
            return Err(e);
        },
    };
    Ok(KlineMetaData { event, event_time, symbol, kline_data })
}

/// Decodes one raw `kline` frame text into its metadata and nested candle.
pub fn decode_kline(raw: &str) -> (r: Result<KlineMetaData, DecodeError>)
    ensures
        match spec_decode_kline_text(raw@) {
            Ok(t) => r matches Ok(x) && x@ == t,
            Err(e) => r matches Err(err) && err@ == e,
        },
        r matches Ok(x) ==> x.well_formed(),
{
    match crate::json::parse_json(raw) {
        None => Err(DecodeError::MalformedFrame),
        Some(v) => decode_kline_value(&v),
    }
}

/// The closed set of candle intervals a kline subscription can ask for.
#[derive(Debug, Clone, Copy, PartialEq, Eq, Structural)]
pub enum KlineInterval {
    _1m,
    _3m,
    _5m,
    _15m,
    _30m,
    _1h,
    _2h,
    _4h,
    _6h,
    _8h,
    _12h,
    _1d,
    _3d,
    _1w,
    _1M,
}

/// The wire spelling of a candle interval.
pub open spec fn kline_interval_str(k: KlineInterval) -> Seq<char> {
    match k {
        KlineInterval::_1m => "1m"@,
        KlineInterval::_3m => "3m"@,
        KlineInterval::_5m => "5m"@,
        KlineInterval::_15m => "15m"@,
        KlineInterval::_30m => "30m"@,
        KlineInterval::_1h => "1h"@,
        KlineInterval::_2h => "2h"@,
        KlineInterval::_4h => "4h"@,
        KlineInterval::_6h => "6h"@,
        KlineInterval::_8h => "8h"@,
        KlineInterval::_12h => "12h"@,
        KlineInterval::_1d => "1d"@,
        KlineInterval::_3d => "3d"@,
        KlineInterval::_1w => "1w"@,
        KlineInterval::_1M => "1M"@,
    }
}

/// The interval a wire spelling denotes, if any: an exact match against
/// the closed enumeration.
pub open spec fn interval_of_wire(s: Seq<char>) -> Option<KlineInterval> {
    if s == "1m"@ {
        Some(KlineInterval::_1m)
    } else if s == "3m"@ {
        Some(KlineInterval::_3m)
    } else if s == "5m"@ {
        Some(KlineInterval::_5m)
    } else if s == "15m"@ {
        Some(KlineInterval::_15m)
    } else if s == "30m"@ {
        Some(KlineInterval::_30m)
    } else if s == "1h"@ {
        Some(KlineInterval::_1h)
    } else if s == "2h"@ {
        Some(KlineInterval::_2h)
    } else if s == "4h"@ {
        Some(KlineInterval::_4h)
    } else if s == "6h"@ {
        Some(KlineInterval::_6h)
    } else if s == "8h"@ {
        Some(KlineInterval::_8h)
    } else if s == "12h"@ {
        Some(KlineInterval::_12h)
    } else if s == "1d"@ {
        Some(KlineInterval::_1d)
    } else if s == "3d"@ {
        Some(KlineInterval::_3d)
    } else if s == "1w"@ {
        Some(KlineInterval::_1w)
    } else if s == "1M"@ {
        Some(KlineInterval::_1M)
    } else {
        None
    }
}

impl KlineInterval {
    /// Matches a wire spelling against the closed enumeration.
    pub fn from_wire(s: &str) -> (r: Option<KlineInterval>)
        ensures
            r == interval_of_wire(s@),
    {
        if str_eq(s, "1m") {
            Some(KlineInterval::_1m)
        } else if str_eq(s, "3m") {
            Some(KlineInterval::_3m)
        } else if str_eq(s, "5m") {
            Some(KlineInterval::_5m)
        } else if str_eq(s, "15m") {
            Some(KlineInterval::_15m)
        } else if str_eq(s, "30m") {
            Some(KlineInterval::_30m)
        } else if str_eq(s, "1h") {
            Some(KlineInterval::_1h)
        } else if str_eq(s, "2h") {
            Some(KlineInterval::_2h)
        } else if str_eq(s, "4h") {
            Some(KlineInterval::_4h)
        } else if str_eq(s, "6h") {
            Some(KlineInterval::_6h)
        } else if str_eq(s, "8h") {
            Some(KlineInterval::_8h)
        } else if str_eq(s, "12h") {
            Some(KlineInterval::_12h)
        } else if str_eq(s, "1d") {
            Some(KlineInterval::_1d)
        } else if str_eq(s, "3d") {
            Some(KlineInterval::_3d)
        } else if str_eq(s, "1w") {
            Some(KlineInterval::_1w)
        } else if str_eq(s, "1M") {
            Some(KlineInterval::_1M)
        } else {
            None
        }
    }

    /// The wire spelling used in subscription URLs.
    pub fn as_str(&self) -> (r: &'static str)
        ensures
            r@ == kline_interval_str(*self),
    {
        match self {
            KlineInterval::_1m => "1m",
            KlineInterval::_3m => "3m",
            KlineInterval::_5m => "5m",
            KlineInterval::_15m => "15m",
            KlineInterval::_30m => "30m",
            KlineInterval::_1h => "1h",
            KlineInterval::_2h => "2h",
            KlineInterval::_4h => "4h",
            KlineInterval::_6h => "6h",
            KlineInterval::_8h => "8h",
            KlineInterval::_12h => "12h",
            KlineInterval::_1d => "1d",
            KlineInterval::_3d => "3d",
            KlineInterval::_1w => "1w",
            KlineInterval::_1M => "1M",
        }
    }
}

/// Decoding is a pure function of the frame text: two decodes of one and
/// the same frame yield identical outcomes, with no hidden state.
pub proof fn lemma_decode_kline_deterministic(
    s: Seq<char>,
    r1: Result<KlineMetaModel, ErrorModel>,
    r2: Result<KlineMetaModel, ErrorModel>,
)
    requires
        r1 == spec_decode_kline_text(s),
        r2 == spec_decode_kline_text(s),
    ensures
        r1 == r2,
{
}

} // verus!
