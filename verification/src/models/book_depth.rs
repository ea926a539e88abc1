//! The order-book depth-delta stream record and its decoder.

use vstd::prelude::*;

use crate::currency_pairs::CurrencyPair;
use crate::errors::DecodeError;
use crate::errors::ErrorModel;
use crate::json::spec_parse_json;
use crate::json::value_model;
use crate::json::JsonModel;
use crate::models::fields::field_i64;
use crate::models::fields::field_quotes;
use crate::models::fields::field_str;
use crate::models::fields::field_symbol;
use crate::models::fields::field_timestamp;
use crate::models::fields::quotes_view;
use crate::models::fields::quotes_well_formed;
use crate::models::fields::spec_field_i64;
use crate::models::fields::spec_field_quotes;
use crate::models::fields::spec_field_str;
use crate::models::fields::spec_field_symbol;
use crate::models::fields::spec_field_timestamp;
use crate::quote::Quote;
use crate::quote::QuoteModel;
use crate::timestamp::CanonicalTimestamp;

verus! {

/// One order-book delta, decoded from a `depthUpdate` stream frame.  The
/// decoder produces one delta at a time; applying deltas in increasing
/// update-id order is left to the caller.
#[derive(Debug, Clone, PartialEq, Eq)]
pub struct BookDepthDataInsert {
    /// Wire key `e`.
    pub event: String,
    /// Wire key `E`.
    pub event_time: CanonicalTimestamp,
    /// Wire key `s`.
    pub symbol: CurrencyPair,
    /// Wire key `U`.
    pub update_first: i64,
    /// Wire key `u`.
    pub update_final: i64,
    /// Wire key `b`.
    pub bids: Vec<Quote>,
    /// Wire key `a`.
    pub asks: Vec<Quote>,
}

/// The mathematical value of a [`BookDepthDataInsert`].
pub struct BookDepthModel {
    pub event: Seq<char>,
    pub event_time: CanonicalTimestamp,
    pub symbol: CurrencyPair,
    pub update_first: int,
    pub update_final: int,
    pub bids: Seq<QuoteModel>,
    pub asks: Seq<QuoteModel>,
}

impl View for BookDepthDataInsert {
    type V = BookDepthModel;

    open spec fn view(&self) -> BookDepthModel {
        BookDepthModel {
            event: self.event@,
            event_time: self.event_time,
            symbol: self.symbol,
            update_first: self.update_first as int,
            update_final: self.update_final as int,
            bids: quotes_view(self.bids@),
            asks: quotes_view(self.asks@),
        }
    }
}

impl BookDepthDataInsert {
    /// The well-formedness invariant: canonical numbers and timestamps,
    /// and an update-id range in order.
    pub open spec fn well_formed(&self) -> bool {
        &&& self.event_time.well_formed()
        &&& self.update_first <= self.update_final
        &&& quotes_well_formed(self.bids@)
        &&& quotes_well_formed(self.asks@)
    }
}

/// What decoding a parsed `depthUpdate` frame yields: every mandatory
/// field in declaration order, the first failure aborting the record.
pub open spec fn spec_decode_book_depth(j: JsonModel) -> Result<BookDepthModel, ErrorModel> {
    match spec_field_str(j, "e"@) {
        Err(e) => Err(e),
        Ok(event) =>
        match spec_field_timestamp(j, "E"@) {
            Err(e) => Err(e),
            Ok(event_time) =>
            match spec_field_symbol(j, "s"@) {
                Err(e) => Err(e),
                Ok(symbol) =>
                match spec_field_i64(j, "U"@) {
                    Err(e) => Err(e),
                    Ok(update_first) =>
                    match spec_field_i64(j, "u"@) {
                        Err(e) => Err(e),
                        // a delta whose id range is reversed is no valid record
                        Ok(update_final) =>
                        if update_first > update_final {
                            Err(ErrorModel::MalformedFrame)
                        } else {
                            match spec_field_quotes(j, "b"@) {
                                Err(e) => Err(e),
                                Ok(bids) => match spec_field_quotes(j, "a"@) {
                                    Err(e) => Err(e),
                                    Ok(asks) => Ok(
                                        BookDepthModel {
                                            event,
                                            event_time,
                                            symbol,
                                            update_first,
                                            update_final,
                                            bids,
                                            asks,
                                        },
                                    ),
                                },
                            }
                        },
                    },
                },
            },
        },
    }
}

/// Decodes one parsed `depthUpdate` frame into a canonical record.
pub fn decode_book_depth_value(v: &serde_json::Value) -> (r: Result<BookDepthDataInsert, DecodeError>)
    ensures
        match spec_decode_book_depth(value_model(*v)) {
            Ok(t) => r matches Ok(x) && x@ == t,
            Err(e) => r matches Err(err) && err@ == e,
        },
        r matches Ok(x) ==> x.well_formed(),
{
    let event = match field_str(v, "e") {
        Ok(x) => x,
        Err(e) => {
            return Err(e);
        },
    };
    let event_time = match field_timestamp(v, "E") {
        Ok(x) => x,
        Err(e) => {
            return Err(e);
        },
    };
    let symbol = match field_symbol(v, "s") {
        Ok(x) => x,
        Err(e) => {
            return Err(e);
        },
    };
    let update_first = match field_i64(v, "U") {
        Ok(x) => x,
        Err(e) => {
            return Err(e);
        },
    };
    let update_final = match field_i64(v, "u") {
        Ok(x) => x,
        Err(e) => {
            return Err(e);
        },
    };
    if update_first > update_final {
        return Err(DecodeError::MalformedFrame);
    }
    let bids = match field_quotes(v, "b") {
        Ok(x) => x,
        Err(e) => {
            return Err(e);
        },
    };
    let asks = match field_quotes(v, "a") {
        Ok(x) => x,
        Err(e) => {
            return Err(e);
        },
    };
    Ok(
        BookDepthDataInsert {
            event,
            event_time,
            symbol,
            update_first,
            update_final,
            bids,
            asks,
        },
    )
}

/// What decoding a raw `depthUpdate` frame text yields: a parse failure is
/// `MalformedFrame`, otherwise the parsed tree is decoded.
pub open spec fn spec_decode_book_depth_text(s: Seq<char>) -> Result<BookDepthModel, ErrorModel> {
    match spec_parse_json(s) {
        None => Err(ErrorModel::MalformedFrame),
        Some(j) => spec_decode_book_depth(j),
    }
}

/// Decodes one raw `depthUpdate` frame text into a canonical record.
pub fn decode_book_depth(raw: &str) -> (r: Result<BookDepthDataInsert, DecodeError>)
    ensures
        match spec_decode_book_depth_text(raw@) {
            Ok(t) => r matches Ok(x) && x@ == t,
            Err(e) => r matches Err(err) && err@ == e,
        },
        r matches Ok(x) ==> x.well_formed(),
{
    match crate::json::parse_json(raw) {
        None => Err(DecodeError::MalformedFrame),
        Some(v) => decode_book_depth_value(&v),
    }
}

/// A partial book snapshot, as the depth query endpoint returns it.
#[derive(Debug, Clone, PartialEq, Eq)]
pub struct PartialBookDepthData {
    /// Wire key `lastUpdateId`.
    pub last_update_id: i64,
    /// Wire key `bids`.
    pub bids: Vec<Quote>,
    /// Wire key `asks`.
    pub asks: Vec<Quote>,
}

/// The mathematical value of a [`PartialBookDepthData`].
pub struct PartialBookDepthModel {
    pub last_update_id: int,
    pub bids: Seq<QuoteModel>,
    pub asks: Seq<QuoteModel>,
}

impl View for PartialBookDepthData {
    type V = PartialBookDepthModel;

    open spec fn view(&self) -> PartialBookDepthModel {
        PartialBookDepthModel {
            last_update_id: self.last_update_id as int,
            bids: quotes_view(self.bids@),
            asks: quotes_view(self.asks@),
        }
    }
}

impl PartialBookDepthData {
    /// The well-formedness invariant: canonical numbers and timestamps.
    pub open spec fn well_formed(&self) -> bool {
        &&& quotes_well_formed(self.bids@)
        &&& quotes_well_formed(self.asks@)
    }
}

/// What decoding a parsed partial-depth snapshot yields.
pub open spec fn spec_decode_partial_book_depth(j: JsonModel) -> Result<PartialBookDepthModel, ErrorModel> {
    match spec_field_i64(j, "lastUpdateId"@) {
        Err(e) => Err(e),
        Ok(last_update_id) =>
        match spec_field_quotes(j, "bids"@) {
            Err(e) => Err(e),
            Ok(bids) =>
            match spec_field_quotes(j, "asks"@) {
                Err(e) => Err(e),
                Ok(asks) =>
                Ok(
                    PartialBookDepthModel {
                        last_update_id,
                        bids,
                        asks,
                    },
                )
            },
        },
    }
}

/// Decodes one parsed partial-depth snapshot into a canonical record.
pub fn decode_partial_book_depth_value(v: &serde_json::Value) -> (r: Result<PartialBookDepthData, DecodeError>)
    ensures
        match spec_decode_partial_book_depth(value_model(*v)) {
            Ok(t) => r matches Ok(x) && x@ == t,
            Err(e) => r matches Err(err) && err@ == e,
        },
        r matches Ok(x) ==> x.well_formed(),
{
    let last_update_id = match field_i64(v, "lastUpdateId") {
        Ok(x) => x,
        Err(e) => {
            return Err(e);
        },
    };
    let bids = match field_quotes(v, "bids") {
        Ok(x) => x,
        Err(e) => {
            return Err(e);
        },
    };
    let asks = match field_quotes(v, "asks") {
        Ok(x) => x,
        Err(e) => {
            return Err(e);
        },
    };
    Ok(
        PartialBookDepthData {
            last_update_id,
            bids,
            asks,
        },
    )
}

/// What decoding a raw `partial-depth` frame text yields: a parse failure is
/// `MalformedFrame`, otherwise the parsed tree is decoded.
pub open spec fn spec_decode_partial_book_depth_text(s: Seq<char>) -> Result<PartialBookDepthModel, ErrorModel> {
    match spec_parse_json(s) {
        None => Err(ErrorModel::MalformedFrame),
        Some(j) => spec_decode_partial_book_depth(j),
    }
}

/// Decodes one raw `partial-depth` frame text into a canonical record.
pub fn decode_partial_book_depth(raw: &str) -> (r: Result<PartialBookDepthData, DecodeError>)
    ensures
        match spec_decode_partial_book_depth_text(raw@) {
            Ok(t) => r matches Ok(x) && x@ == t,
            Err(e) => r matches Err(err) && err@ == e,
        },
        r matches Ok(x) ==> x.well_formed(),
{
    match crate::json::parse_json(raw) {
        None => Err(DecodeError::MalformedFrame),
        Some(v) => decode_partial_book_depth_value(&v),
    }
}

/// The depth levels a partial book subscription can ask for.
#[derive(Debug, Clone, Copy, PartialEq, Eq, Structural)]
pub enum DepthLevels {
    _5,
    _10,
    _20,
}

/// The wire spelling of a depth level.
pub open spec fn depth_levels_str(d: DepthLevels) -> Seq<char> {
    match d {
        DepthLevels::_5 => "5"@,
        DepthLevels::_10 => "10"@,
        DepthLevels::_20 => "20"@,
    }
}

impl DepthLevels {
    /// The wire spelling used in subscription URLs.
    pub fn as_str(&self) -> (r: &'static str)
        ensures
            r@ == depth_levels_str(*self),
    {
        match self {
            DepthLevels::_5 => "5",
            DepthLevels::_10 => "10",
            DepthLevels::_20 => "20",
        }
    }
}

/// Decoding is a pure function of the frame text: two decodes of one and
/// the same frame yield identical outcomes, with no hidden state.
pub proof fn lemma_decode_book_depth_deterministic(
    s: Seq<char>,
    r1: Result<BookDepthModel, ErrorModel>,
    r2: Result<BookDepthModel, ErrorModel>,
)
    requires
        r1 == spec_decode_book_depth_text(s),
        r2 == spec_decode_book_depth_text(s),
    ensures
        r1 == r2,
{
}

} // verus!
