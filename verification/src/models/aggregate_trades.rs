//! The aggregated-trade stream record and its decoder.

use vstd::prelude::*;

use crate::currency_pairs::CurrencyPair;
use crate::errors::DecodeError;
use crate::errors::ErrorModel;
use crate::json::spec_parse_json;
use crate::json::value_model;
use crate::json::JsonModel;
use crate::models::fields::field_bool;
use crate::models::fields::field_i64;
use crate::models::fields::field_number;
use crate::models::fields::field_quantity;
use crate::models::fields::field_str;
use crate::models::fields::field_symbol;
use crate::models::fields::field_timestamp;
use crate::models::fields::spec_field_bool;
use crate::models::fields::spec_field_i64;
use crate::models::fields::spec_field_number;
use crate::models::fields::spec_field_quantity;
use crate::models::fields::spec_field_str;
use crate::models::fields::spec_field_symbol;
use crate::models::fields::spec_field_timestamp;
use crate::numeric::lit_is_neg;
use crate::numeric::CanonicalNumber;
use crate::timestamp::CanonicalTimestamp;

verus! {

/// One aggregated trade event, decoded from an `aggTrade` stream frame;
/// one aggregate may summarize a whole range of trade ids.
#[derive(Debug, Clone, PartialEq, Eq)]
pub struct AggregateTradeData {
    /// Wire key `a`.
    pub trade_id: i64,
    /// Wire key `e`.
    pub event: String,
    /// Wire key `E`.
    pub event_time: CanonicalTimestamp,
    /// Wire key `s`.
    pub symbol: CurrencyPair,
    /// Wire key `p`.
    pub price: CanonicalNumber,
    /// Wire key `q`.
    pub quantity: CanonicalNumber,
    /// Wire key `f`.
    pub first_trade_id: i64,
    /// Wire key `l`.
    pub last_trade_id: i64,
    /// Wire key `T`.
    pub trade_time: CanonicalTimestamp,
    /// Wire key `m`.
    pub buyer_mkt_maker: bool,
}

/// The mathematical value of a [`AggregateTradeData`].
pub struct AggregateTradeModel {
    pub trade_id: int,
    pub event: Seq<char>,
    pub event_time: CanonicalTimestamp,
    pub symbol: CurrencyPair,
    pub price: Seq<char>,
    pub quantity: Seq<char>,
    pub first_trade_id: int,
    pub last_trade_id: int,
    pub trade_time: CanonicalTimestamp,
    pub buyer_mkt_maker: bool,
}

impl View for AggregateTradeData {
    type V = AggregateTradeModel;

    open spec fn view(&self) -> AggregateTradeModel {
        AggregateTradeModel {
            trade_id: self.trade_id as int,
            event: self.event@,
            event_time: self.event_time,
            symbol: self.symbol,
            price: self.price@,
            quantity: self.quantity@,
            first_trade_id: self.first_trade_id as int,
            last_trade_id: self.last_trade_id as int,
            trade_time: self.trade_time,
            buyer_mkt_maker: self.buyer_mkt_maker,
        }
    }
}

impl AggregateTradeData {
    /// The well-formedness invariant: canonical numbers and timestamps.
    pub open spec fn well_formed(&self) -> bool {
        &&& self.event_time.well_formed()
        &&& self.price.well_formed()
        &&& self.quantity.well_formed()
        &&& !lit_is_neg(self.quantity@)
        &&& self.trade_time.well_formed()
    }
}

/// What decoding a parsed `aggTrade` frame yields: every mandatory field
/// in declaration order, the first failure aborting the record.
pub open spec fn spec_decode_aggregate_trade(j: JsonModel) -> Result<AggregateTradeModel, ErrorModel> {
    match spec_field_i64(j, "a"@) {
        Err(e) => Err(e),
        Ok(trade_id) =>
        match spec_field_str(j, "e"@) {
            Err(e) => Err(e),
            Ok(event) =>
            match spec_field_timestamp(j, "E"@) {
                Err(e) => Err(e),
                Ok(event_time) =>
                match spec_field_symbol(j, "s"@) {
                    Err(e) => Err(e),
                    Ok(symbol) =>
                    match spec_field_number(j, "p"@) {
                        Err(e) => Err(e),
                        Ok(price) =>
                        match spec_field_quantity(j, "q"@) {
                            Err(e) => Err(e),
                            Ok(quantity) =>
                            match spec_field_i64(j, "f"@) {
                                Err(e) => Err(e),
                                Ok(first_trade_id) =>
                                match spec_field_i64(j, "l"@) {
                                    Err(e) => Err(e),
                                    Ok(last_trade_id) =>
                                    match spec_field_timestamp(j, "T"@) {
                                        Err(e) => Err(e),
                                        Ok(trade_time) =>
                                        match spec_field_bool(j, "m"@) {
                                            Err(e) => Err(e),
                                            Ok(buyer_mkt_maker) =>
                                            Ok(
                                                AggregateTradeModel {
                                                    trade_id,
                                                    event,
                                                    event_time,
                                                    symbol,
                                                    price,
                                                    quantity,
                                                    first_trade_id,
                                                    last_trade_id,
                                                    trade_time,
                                                    buyer_mkt_maker,
                                                },
                                            )
                                        },
                                    },
                                },
                            },
                        },
                    },
                },
            },
        },
    }
}

/// Decodes one parsed `aggTrade` frame into a canonical record.
pub fn decode_aggregate_trade_value(v: &serde_json::Value) -> (r: Result<AggregateTradeData, DecodeError>)
    ensures
        match spec_decode_aggregate_trade(value_model(*v)) {
            Ok(t) => r matches Ok(x) && x@ == t,
            Err(e) => r matches Err(err) && err@ == e,
        },
        r matches Ok(x) ==> x.well_formed(),
{
    let trade_id = match field_i64(v, "a") {
        Ok(x) => x,
        Err(e) => {
            return Err(e);
        },
    };
    let event = match field_str(v, "e") {
        Ok(x) => x,
        Err(e) => {
            return Err(e);
        },
    };
    let event_time = match field_timestamp(v, "E") {
        Ok(x) => x,
        Err(e) => {
            return Err(e);
        },
    };
    let symbol = match field_symbol(v, "s") {
        Ok(x) => x,
        Err(e) => {
            return Err(e);
        },
    };
    let price = match field_number(v, "p") {
        Ok(x) => x,
        Err(e) => {
            return Err(e);
        },
    };
    let quantity = match field_quantity(v, "q") {
        Ok(x) => x,
        Err(e) => {
            return Err(e);
        },
    };
    let first_trade_id = match field_i64(v, "f") {
        Ok(x) => x,
        Err(e) => {
            return Err(e);
        },
    };
    let last_trade_id = match field_i64(v, "l") {
        Ok(x) => x,
        Err(e) => {
            return Err(e);
        },
    };
    let trade_time = match field_timestamp(v, "T") {
        Ok(x) => x,
        Err(e) => {
            return Err(e);
        },
    };
    let buyer_mkt_maker = match field_bool(v, "m") {
        Ok(x) => x,
        Err(e) => {
            return Err(e);
        },
    };
    Ok(
        AggregateTradeData {
            trade_id,
            event,
            event_time,
            symbol,
            price,
            quantity,
            first_trade_id,
            last_trade_id,
            trade_time,
            buyer_mkt_maker,
        },
    )
}

/// What decoding a raw `aggTrade` frame text yields: a parse failure is
/// `MalformedFrame`, otherwise the parsed tree is decoded.
pub open spec fn spec_decode_aggregate_trade_text(s: Seq<char>) -> Result<AggregateTradeModel, ErrorModel> {
    match spec_parse_json(s) {
        None => Err(ErrorModel::MalformedFrame),
        Some(j) => spec_decode_aggregate_trade(j),
    }
}

/// Decodes one raw `aggTrade` frame text into a canonical record.
pub fn decode_aggregate_trade(raw: &str) -> (r: Result<AggregateTradeData, DecodeError>)
    ensures
        match spec_decode_aggregate_trade_text(raw@) {
            Ok(t) => r matches Ok(x) && x@ == t,
            Err(e) => r matches Err(err) && err@ == e,
        },
        r matches Ok(x) ==> x.well_formed(),
{
    match crate::json::parse_json(raw) {
        None => Err(DecodeError::MalformedFrame),
        Some(v) => decode_aggregate_trade_value(&v),
    }
}

/// Decoding is a pure function of the frame text: two decodes of one and
/// the same frame yield identical outcomes, with no hidden state.
pub proof fn lemma_decode_aggregate_trade_deterministic(
    s: Seq<char>,
    r1: Result<AggregateTradeModel, ErrorModel>,
    r2: Result<AggregateTradeModel, ErrorModel>,
)
    requires
        r1 == spec_decode_aggregate_trade_text(s),
        r2 == spec_decode_aggregate_trade_text(s),
    ensures
        r1 == r2,
{
}

} // verus!
