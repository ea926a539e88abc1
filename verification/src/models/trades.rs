//! The individual-trade stream record and its decoder.

use vstd::prelude::*;

use crate::currency_pairs::CurrencyPair;
use crate::errors::DecodeError;
use crate::errors::ErrorModel;
use crate::json::spec_parse_json;
use crate::json::value_model;
use crate::json::JsonModel;
use crate::models::fields::field_bool;
use crate::models::fields::field_i64;
use crate::models::fields::field_number;
use crate::models::fields::field_quantity;
use crate::models::fields::field_str;
use crate::models::fields::field_symbol;
use crate::models::fields::field_timestamp;
use crate::models::fields::spec_field_bool;
use crate::models::fields::spec_field_i64;
use crate::models::fields::spec_field_number;
use crate::models::fields::spec_field_quantity;
use crate::models::fields::spec_field_str;
use crate::models::fields::spec_field_symbol;
use crate::models::fields::spec_field_timestamp;
use crate::numeric::lit_is_neg;
use crate::numeric::CanonicalNumber;
use crate::timestamp::CanonicalTimestamp;

verus! {

/// One individual trade event, decoded from a `trade` stream frame.
#[derive(Debug, Clone, PartialEq, Eq)]
pub struct TradeData {
    /// Wire key `t`.
    pub trade_id: i64,
    /// Wire key `e`.
    pub event: String,
    /// Wire key `E`.
    pub event_time: CanonicalTimestamp,
    /// Wire key `s`.
    pub symbol: CurrencyPair,
    /// Wire key `p`.
    pub price: CanonicalNumber,
    /// Wire key `q`.
    pub quantity: CanonicalNumber,
    /// Wire key `T`.
    pub trade_time: CanonicalTimestamp,
    /// Wire key `b`.
    pub buyer_order_id: i64,
    /// Wire key `a`.
    pub seller_order_id: i64,
    /// Wire key `m`.
    pub buyer_mkt_maker: bool,
}

/// The mathematical value of a [`TradeData`].
pub struct TradeModel {
    pub trade_id: int,
    pub event: Seq<char>,
    pub event_time: CanonicalTimestamp,
    pub symbol: CurrencyPair,
    pub price: Seq<char>,
    pub quantity: Seq<char>,
    pub trade_time: CanonicalTimestamp,
    pub buyer_order_id: int,
    pub seller_order_id: int,
    pub buyer_mkt_maker: bool,
}

impl View for TradeData {
    type V = TradeModel;

    open spec fn view(&self) -> TradeModel {
        TradeModel {
            trade_id: self.trade_id as int,
            event: self.event@,
            event_time: self.event_time,
            symbol: self.symbol,
            price: self.price@,
            quantity: self.quantity@,
            trade_time: self.trade_time,
            buyer_order_id: self.buyer_order_id as int,
            seller_order_id: self.seller_order_id as int,
            buyer_mkt_maker: self.buyer_mkt_maker,
        }
    }
}

impl TradeData {
    /// The well-formedness invariant: canonical numbers and timestamps.
    pub open spec fn well_formed(&self) -> bool {
        &&& self.price.well_formed()
        &&& self.quantity.well_formed()
        &&& !lit_is_neg(self.quantity@)
        &&& self.event_time.well_formed()
        &&& self.trade_time.well_formed()
    }
}

/// What decoding a parsed `trade` frame yields: every mandatory field in
/// declaration order, the first failure aborting the record.
pub open spec fn spec_decode_trade(j: JsonModel) -> Result<TradeModel, ErrorModel> {
    match spec_field_i64(j, "t"@) {
        Err(e) => Err(e),
        Ok(trade_id) => match spec_field_str(j, "e"@) {
            Err(e) => Err(e),
            Ok(event) => match spec_field_timestamp(j, "E"@) {
                Err(e) => Err(e),
                Ok(event_time) => match spec_field_symbol(j, "s"@) {
                    Err(e) => Err(e),
                    Ok(symbol) => match spec_field_number(j, "p"@) {
                        Err(e) => Err(e),
                        Ok(price) => match spec_field_quantity(j, "q"@) {
                            Err(e) => Err(e),
                            Ok(quantity) => match spec_field_timestamp(j, "T"@) {
                                Err(e) => Err(e),
                                Ok(trade_time) => match spec_field_i64(j, "b"@) {
                                    Err(e) => Err(e),
                                    Ok(buyer_order_id) => match spec_field_i64(j, "a"@) {
                                        Err(e) => Err(e),
                                        Ok(seller_order_id) => match spec_field_bool(j, "m"@) {
                                            Err(e) => Err(e),
                                            Ok(buyer_mkt_maker) => Ok(
                                                TradeModel {
                                                    trade_id,
                                                    event,
                                                    event_time,
                                                    symbol,
                                                    price,
                                                    quantity,
                                                    trade_time,
                                                    buyer_order_id,
                                                    seller_order_id,
                                                    buyer_mkt_maker,
                                                },
                                            ),
                                        },
                                    },
                                },
                            },
                        },
                    },
                },
            },
        },
    }
}

/// What decoding a raw `trade` frame text yields: a parse failure is
/// `MalformedFrame`, otherwise the parsed tree is decoded.
pub open spec fn spec_decode_trade_text(s: Seq<char>) -> Result<TradeModel, ErrorModel> {
    match spec_parse_json(s) {
        None => Err(ErrorModel::MalformedFrame),
        Some(j) => spec_decode_trade(j),
    }
}

/// Decodes one parsed `trade` frame into a canonical record.
pub fn decode_trade_value(v: &serde_json::Value) -> (r: Result<TradeData, DecodeError>)
    ensures
        match spec_decode_trade(value_model(*v)) {
            Ok(t) => r matches Ok(x) && x@ == t,
            Err(e) => r matches Err(err) && err@ == e,
        },
        r matches Ok(x) ==> x.well_formed(),
{
    let trade_id = match field_i64(v, "t") {
        Ok(x) => x,
        Err(e) => {
            return Err(e);
        },
    };
    let event = match field_str(v, "e") {
        Ok(x) => x,
        Err(e) => {
            return Err(e);
        },
    };
    let event_time = match field_timestamp(v, "E") {
        Ok(x) => x,
        Err(e) => {
            return Err(e);
        },
    };
    let symbol = match field_symbol(v, "s") {
        Ok(x) => x,
        Err(e) => {
            return Err(e);
        },
    };
    let price = match field_number(v, "p") {
        Ok(x) => x,
        Err(e) => {
            return Err(e);
        },
    };
    let quantity = match field_quantity(v, "q") {
        Ok(x) => x,
        Err(e) => {
            return Err(e);
        },
    };
    let trade_time = match field_timestamp(v, "T") {
        Ok(x) => x,
        Err(e) => {
            return Err(e);
        },
    };
    let buyer_order_id = match field_i64(v, "b") {
        Ok(x) => x,
        Err(e) => {
            return Err(e);
        },
    };
    let seller_order_id = match field_i64(v, "a") {
        Ok(x) => x,
        Err(e) => {
            return Err(e);
        },
    };
    let buyer_mkt_maker = match field_bool(v, "m") {
        Ok(x) => x,
        Err(e) => {
            return Err(e);
        },
    };
    Ok(
        TradeData {
            trade_id,
            event,
            event_time,
            symbol,
            price,
            quantity,
            trade_time,
            buyer_order_id,
            seller_order_id,
            buyer_mkt_maker,
        },
    )
}

/// Decodes one raw `trade` frame text into a canonical record.
pub fn decode_trade(raw: &str) -> (r: Result<TradeData, DecodeError>)
    ensures
        match spec_decode_trade_text(raw@) {
            Ok(t) => r matches Ok(x) && x@ == t,
            Err(e) => r matches Err(err) && err@ == e,
        },
        r matches Ok(x) ==> x.well_formed(),
{
    match crate::json::parse_json(raw) {
        None => Err(DecodeError::MalformedFrame),
        Some(v) => decode_trade_value(&v),
    }
}

/// Decoding is a pure function of the frame text: two decodes of one and
/// the same frame yield identical outcomes, with no hidden state.
pub proof fn lemma_decode_trade_deterministic(
    s: Seq<char>,
    r1: Result<TradeModel, ErrorModel>,
    r2: Result<TradeModel, ErrorModel>,
)
    requires
        r1 == spec_decode_trade_text(s),
        r2 == spec_decode_trade_text(s),
    ensures
        r1 == r2,
{
}

} // verus!
