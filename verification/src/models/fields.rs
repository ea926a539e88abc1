//! Extraction of one named wire field, routed through the right primitive
//! decoder.  A missing key, or a key of an unusable shape, is
//! `MalformedFrame`; a present field that fails its primitive decoder
//! keeps that decoder's error.

use vstd::prelude::*;

use crate::currency_pairs::spec_symbol_of_wire;
use crate::currency_pairs::CurrencyPair;
use crate::errors::DecodeError;
use crate::errors::ErrorModel;
use crate::json::value_model;
use crate::json::JsonModel;
use crate::numeric::lit_is_neg;
use crate::numeric::spec_decode_number;
use crate::numeric::spec_decode_quantity;
use crate::numeric::CanonicalNumber;
use crate::quote::spec_decode_quote;
use crate::quote::Quote;
use crate::quote::QuoteModel;
use crate::timestamp::spec_decode_timestamp;
use crate::timestamp::CanonicalTimestamp;

verus! {

/// The value under a key of a JSON object, `None` on every other shape.
pub open spec fn jfield(j: JsonModel, key: Seq<char>) -> Option<JsonModel> {
    match j {
        JsonModel::ObjVal(m) => if m.contains_key(key) {
            Some(m[key])
        } else {
            None
        },
        _ => None,
    }
}

pub open spec fn spec_field_str(j: JsonModel, key: Seq<char>) -> Result<Seq<char>, ErrorModel> {
    match jfield(j, key) {
        Some(JsonModel::StrVal(s)) => Ok(s),
        _ => Err(ErrorModel::MalformedFrame),
    }
}

pub open spec fn spec_field_i64(j: JsonModel, key: Seq<char>) -> Result<int, ErrorModel> {
    match jfield(j, key) {
        Some(JsonModel::IntNum(i)) => if i64::MIN <= i <= i64::MAX {
            Ok(i)
        } else {
            Err(ErrorModel::MalformedFrame)
        },
        _ => Err(ErrorModel::MalformedFrame),
    }
}

pub open spec fn spec_field_bool(j: JsonModel, key: Seq<char>) -> Result<bool, ErrorModel> {
    match jfield(j, key) {
        Some(JsonModel::Bool(b)) => Ok(b),
        _ => Err(ErrorModel::MalformedFrame),
    }
}

pub open spec fn spec_field_number(j: JsonModel, key: Seq<char>) -> Result<Seq<char>, ErrorModel> {
    match jfield(j, key) {
        Some(w) => spec_decode_number(w),
        None => Err(ErrorModel::MalformedFrame),
    }
}

pub open spec fn spec_field_quantity(j: JsonModel, key: Seq<char>) -> Result<
    Seq<char>,
    ErrorModel,
> {
    match jfield(j, key) {
        Some(w) => spec_decode_quantity(w),
        None => Err(ErrorModel::MalformedFrame),
    }
}

pub open spec fn spec_field_timestamp(j: JsonModel, key: Seq<char>) -> Result<
    CanonicalTimestamp,
    ErrorModel,
> {
    match jfield(j, key) {
        Some(w) => spec_decode_timestamp(w),
        None => Err(ErrorModel::MalformedFrame),
    }
}

pub open spec fn spec_field_symbol(j: JsonModel, key: Seq<char>) -> Result<
    CurrencyPair,
    ErrorModel,
> {
    match jfield(j, key) {
        Some(JsonModel::StrVal(s)) => match spec_symbol_of_wire(s) {
            Some(p) => Ok(p),
            None => Err(ErrorModel::UnknownSymbol(s)),
        },
        _ => Err(ErrorModel::MalformedFrame),
    }
}

/// A whole array of quote pairs, aborted by the first failing level.
pub open spec fn spec_decode_quotes(a: Seq<JsonModel>) -> Result<Seq<QuoteModel>, ErrorModel>
    decreases a.len(),
{
    if a.len() == 0 {
        Ok(Seq::<QuoteModel>::empty())
    } else {
        match spec_decode_quote(a[0]) {
            Err(e) => Err(e),
            Ok(q) => match spec_decode_quotes(a.skip(1)) {
                Err(e) => Err(e),
                Ok(qs) => Ok(seq![q] + qs),
            },
        }
    }
}

pub open spec fn spec_field_quotes(j: JsonModel, key: Seq<char>) -> Result<
    Seq<QuoteModel>,
    ErrorModel,
> {
    match jfield(j, key) {
        Some(JsonModel::ArrVal(a)) => spec_decode_quotes(a),
        _ => Err(ErrorModel::MalformedFrame),
    }
}

pub fn field_str(v: &serde_json::Value, key: &str) -> (r: Result<String, DecodeError>)
    ensures
        match spec_field_str(value_model(*v), key@) {
            Ok(s) => r matches Ok(x) && x@ == s,
            Err(e) => r matches Err(err) && err@ == e,
        },
{
    match crate::json::json_get(v, key) {
        None => Err(DecodeError::MalformedFrame),
        Some(w) => match crate::json::json_as_str(w) {
            Some(s) => Ok(s.to_owned()),
            None => Err(DecodeError::MalformedFrame),
        },
    }
}

pub fn field_i64(v: &serde_json::Value, key: &str) -> (r: Result<i64, DecodeError>)
    ensures
        match spec_field_i64(value_model(*v), key@) {
            Ok(i) => r matches Ok(x) && x as int == i,
            Err(e) => r matches Err(err) && err@ == e,
        },
{
    match crate::json::json_get(v, key) {
        None => Err(DecodeError::MalformedFrame),
        Some(w) => match crate::json::json_as_i64(w) {
            Some(i) => Ok(i),
            None => Err(DecodeError::MalformedFrame),
        },
    }
}

pub fn field_bool(v: &serde_json::Value, key: &str) -> (r: Result<bool, DecodeError>)
    ensures
        match spec_field_bool(value_model(*v), key@) {
            Ok(b) => r matches Ok(x) && x == b,
            Err(e) => r matches Err(err) && err@ == e,
        },
{
    match crate::json::json_get(v, key) {
        None => Err(DecodeError::MalformedFrame),
        Some(w) => match crate::json::json_as_bool(w) {
            Some(b) => Ok(b),
            None => Err(DecodeError::MalformedFrame),
        },
    }
}

pub fn field_number(v: &serde_json::Value, key: &str) -> (r: Result<CanonicalNumber, DecodeError>)
    ensures
        match spec_field_number(value_model(*v), key@) {
            Ok(s) => r matches Ok(x) && x@ == s && x.well_formed(),
            Err(e) => r matches Err(err) && err@ == e,
        },
{
    match crate::json::json_get(v, key) {
        None => Err(DecodeError::MalformedFrame),
        Some(w) => crate::numeric::decode_number(w),
    }
}

pub fn field_quantity(v: &serde_json::Value, key: &str) -> (r: Result<
    CanonicalNumber,
    DecodeError,
>)
    ensures
        match spec_field_quantity(value_model(*v), key@) {
            Ok(s) => r matches Ok(x) && x@ == s && x.well_formed() && !lit_is_neg(s),
            Err(e) => r matches Err(err) && err@ == e,
        },
{
    match crate::json::json_get(v, key) {
        None => Err(DecodeError::MalformedFrame),
        Some(w) => crate::numeric::decode_quantity(w),
    }
}

pub fn field_timestamp(v: &serde_json::Value, key: &str) -> (r: Result<
    CanonicalTimestamp,
    DecodeError,
>)
    ensures
        match spec_field_timestamp(value_model(*v), key@) {
            Ok(t) => r matches Ok(x) && x == t && x.well_formed(),
            Err(e) => r matches Err(err) && err@ == e,
        },
{
    match crate::json::json_get(v, key) {
        None => Err(DecodeError::MalformedFrame),
        Some(w) => crate::timestamp::decode_timestamp(w),
    }
}

pub fn field_symbol(v: &serde_json::Value, key: &str) -> (r: Result<CurrencyPair, DecodeError>)
    ensures
        match spec_field_symbol(value_model(*v), key@) {
            Ok(p) => r matches Ok(x) && x == p,
            Err(e) => r matches Err(err) && err@ == e,
        },
{
    match crate::json::json_get(v, key) {
        None => Err(DecodeError::MalformedFrame),
        Some(w) => match crate::json::json_as_str(w) {
            None => Err(DecodeError::MalformedFrame),
            Some(s) => crate::currency_pairs::decode_symbol(s),
        },
    }
}

/// The nested wire value under a key, for sub-objects and arrays.
pub fn field_value<'a>(v: &'a serde_json::Value, key: &str) -> (r: Result<
    &'a serde_json::Value,
    DecodeError,
>)
    ensures
        match jfield(value_model(*v), key@) {
            Some(w) => r matches Ok(x) && value_model(*x) == w,
            None => r matches Err(err) && err@ == ErrorModel::MalformedFrame,
        },
{
    match crate::json::json_get(v, key) {
        None => Err(DecodeError::MalformedFrame),
        Some(w) => Ok(w),
    }
}

/// Whether every quote of a decoded level list is well formed.
pub open spec fn quotes_well_formed(qs: Seq<Quote>) -> bool {
    forall|k: int| 0 <= k < qs.len() ==> (#[trigger] qs[k]).well_formed()
}

/// The views of a vector of quotes.
pub open spec fn quotes_view(qs: Seq<Quote>) -> Seq<QuoteModel> {
    qs.map(|i: int, q: Quote| q@)
}

pub fn field_quotes(v: &serde_json::Value, key: &str) -> (r: Result<Vec<Quote>, DecodeError>)
    ensures
        match spec_field_quotes(value_model(*v), key@) {
            Ok(qs) => r matches Ok(x) && quotes_view(x@) == qs && quotes_well_formed(x@),
            Err(e) => r matches Err(err) && err@ == e,
        },
{
    let w = match crate::json::json_get(v, key) {
        None => {
            return Err(DecodeError::MalformedFrame);
        },
        Some(w) => w,
    };
    let n = match crate::json::json_arr_len(w) {
        None => {
            return Err(DecodeError::MalformedFrame);
        },
        Some(n) => n,
    };
    let ghost a: Seq<JsonModel> = value_model(*w)->ArrVal_0;
    let mut out: Vec<Quote> = Vec::new();
    let mut i: usize = 0;
    proof {
        assert(a.skip(0) =~= a);
        assert(quotes_view(out@) =~= Seq::<QuoteModel>::empty());
    }
    while i < n
        invariant
            0 <= i <= n,
            n == a.len(),
            value_model(*w) == JsonModel::ArrVal(a),
            spec_field_quotes(value_model(*v), key@) == spec_decode_quotes(a),
            out@.len() == i,
            quotes_well_formed(out@),
            match spec_decode_quotes(a.skip(i as int)) {
                Ok(rest) => spec_decode_quotes(a) == Ok::<Seq<QuoteModel>, ErrorModel>(
                    quotes_view(out@) + rest,
                ),
                Err(e) => spec_decode_quotes(a) == Err::<Seq<QuoteModel>, ErrorModel>(e),
            },
        decreases n - i,
    {
        let ghost rest: Seq<JsonModel> = a.skip(i as int);
        proof {
            assert(rest[0] == a[i as int]);
            assert(rest.skip(1) =~= a.skip(i + 1));
        }
        let e0 = match crate::json::json_arr_get(w, i) {
            Some(x) => x,
            None => {
                // unreachable: i is below the length
                return Err(DecodeError::MalformedFrame);
            },
        };
        match crate::quote::decode_quote_pair(e0) {
            Ok(q) => {
                let ghost old_out: Seq<Quote> = out@;
                out.push(q);
                proof {
                    assert(quotes_view(out@) =~= quotes_view(old_out).push(q@));
                    match spec_decode_quotes(a.skip(i + 1)) {
                        Ok(r2) => {
                            assert(quotes_view(old_out) + (seq![q@] + r2) =~= quotes_view(out@)
                                + r2);
                        },
                        Err(_) => {},
                    }
                }
            },
            Err(e) => {
                return Err(e);
            },
        }
        i = i + 1;
    }
    proof {
        assert(a.skip(n as int) =~= Seq::<JsonModel>::empty());
        assert(quotes_view(out@) + Seq::<QuoteModel>::empty() =~= quotes_view(out@));
    }
    Ok(out)
}

} // verus!
