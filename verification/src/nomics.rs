//! Types for the currency-listing HTTP API: the request descriptor, the
//! row shapes it returns and its error.  The network call itself is the
//! caller's concern; this module only builds the request URL and holds the
//! parsed rows.

use vstd::prelude::*;

use crate::json::spec_parse_json;
use crate::json::value_model;
use crate::json::JsonModel;

verus! {

/// One market listing row.
#[derive(Debug, Clone, PartialEq, Eq)]
pub struct NomicsMarkets {
    exchange: String,
    market: String,
    base: String,
    quote: String,
}

/// An error of the currency-listing API, carrying its description.
#[derive(Debug, Clone, PartialEq, Eq)]
pub struct NomicsError {
    details: String,
}

impl View for NomicsError {
    type V = Seq<char>;

    closed spec fn view(&self) -> Seq<char> {
        self.details@
    }
}

impl NomicsError {
    /// Wraps a description into an error value.
    pub fn new(msg: &str) -> (r: NomicsError)
        ensures
            r@ == msg@,
    {
        NomicsError { details: msg.to_owned() }
    }

    /// The error's description.
    pub fn message(&self) -> (r: &str)
        ensures
            r@ == self@,
    {
        self.details.as_str()
    }
}

/// One currency row of the listing endpoint.
#[derive(Debug, Clone, PartialEq, Eq)]
pub struct Currencies {
    pub id: String,
}

/// The currency-listing request: its URL and the rows fetched so far.
#[derive(Debug, Clone, PartialEq, Eq)]
pub struct CurrenciesApi {
    pub url: String,
    pub data: Vec<Currencies>,
}

impl CurrenciesApi {
    /// Builds the request descriptor for an API key, with no rows yet.
    pub fn new(api_key: String) -> (r: CurrenciesApi)
        ensures
            r.url@ == "https://api.nomics.com/v1/currencies?key="@ + api_key@,
            r.data@.len() == 0,
    {
        let mut url: String = String::new();
        url.append("https://api.nomics.com/v1/currencies?key=");
        url.append(api_key.as_str());
        proof {
            assert(url@ =~= "https://api.nomics.com/v1/currencies?key="@ + api_key@);
        }
        CurrenciesApi { url, data: Vec::new() }
    }

    /// Stores the rows parsed from a response, replacing what was held.
    pub fn set_data(&mut self, data: Vec<Currencies>)
        ensures
            final(self).data == data,
            final(self).url == old(self).url,
    {
        self.data = data;
    }

    /// Parses a response body — a JSON array of objects each carrying an
    /// `id` string — and stores the rows; a body of any other shape is an
    /// error, and the rows held before are kept.
    pub fn parse_and_set_data(&mut self, body: &str) -> (r: Result<(), NomicsError>)
        ensures
            match spec_parse_currencies(body@) {
                Some(ids) => r is Ok && final(self).data@.map(|i: int, c: Currencies| c.id@)
                    == ids && final(self).url == old(self).url,
                None => r is Err && *final(self) == *old(self),
            },
    {
        let v = match crate::json::parse_json(body) {
            Some(v) => v,
            None => {
                return Err(NomicsError::new("Json parsing failed for Currencies"));
            },
        };
        let n = match crate::json::json_arr_len(&v) {
            Some(n) => n,
            None => {
                return Err(NomicsError::new("Json parsing failed for Currencies"));
            },
        };
        let ghost a: Seq<JsonModel> = value_model(v)->ArrVal_0;
        let mut rows: Vec<Currencies> = Vec::new();
        let mut i: usize = 0;
        proof {
            assert(a.skip(0) =~= a);
            assert(rows@.map(|k: int, c: Currencies| c.id@) =~= Seq::<Seq<char>>::empty());
        }
        while i < n
            invariant
                0 <= i <= n,
                n == a.len(),
                value_model(v) == JsonModel::ArrVal(a),
                spec_parse_currencies(body@) == spec_currency_ids(a),
                rows@.len() == i,
                match spec_currency_ids(a.skip(i as int)) {
                    Some(rest) => spec_currency_ids(a) == Some(
                        rows@.map(|k: int, c: Currencies| c.id@) + rest,
                    ),
                    None => spec_currency_ids(a) is None,
                },
            decreases n - i,
        {
            let ghost rest: Seq<JsonModel> = a.skip(i as int);
            proof {
                assert(rest[0] == a[i as int]);
                assert(rest.skip(1) =~= a.skip(i + 1));
            }
            let e0 = match crate::json::json_arr_get(&v, i) {
                Some(x) => x,
                None => {
                    // unreachable: i is below the length
                    return Err(NomicsError::new("Json parsing failed for Currencies"));
                },
            };
            let idv = match crate::json::json_get(e0, "id") {
                Some(w) => w,
                None => {
                    return Err(NomicsError::new("Json parsing failed for Currencies"));
                },
            };
            let id = match crate::json::json_as_str(idv) {
                Some(t) => t,
                None => {
                    return Err(NomicsError::new("Json parsing failed for Currencies"));
                },
            };
            let ghost old_rows: Seq<Currencies> = rows@;
            rows.push(Currencies { id: id.to_owned() });
            proof {
                match spec_currency_ids(a.skip(i + 1)) {
                    Some(r2) => {
                        assert(rows@.map(|k: int, c: Currencies| c.id@) =~= old_rows.map(
                            |k: int, c: Currencies| c.id@,
                        ).push(id@));
                        assert(old_rows.map(|k: int, c: Currencies| c.id@) + (seq![id@] + r2)
                            =~= rows@.map(|k: int, c: Currencies| c.id@) + r2);
                    },
                    None => {},
                }
            }
            i = i + 1;
        }
        proof {
            assert(a.skip(n as int) =~= Seq::<JsonModel>::empty());
            assert(rows@.map(|k: int, c: Currencies| c.id@) + Seq::<Seq<char>>::empty()
                =~= rows@.map(|k: int, c: Currencies| c.id@));
        }
        self.data = rows;
        Ok(())
    }
}

/// The row ids a parsed listing array denotes: every element must be an
/// object carrying an `id` string, read in order.
pub open spec fn spec_currency_ids(a: Seq<JsonModel>) -> Option<Seq<Seq<char>>>
    decreases a.len(),
{
    if a.len() == 0 {
        Some(Seq::<Seq<char>>::empty())
    } else {
        match a[0] {
            JsonModel::ObjVal(m) => if m.contains_key("id"@) && m["id"@] is StrVal {
                match spec_currency_ids(a.skip(1)) {
                    Some(rest) => Some(seq![m["id"@]->StrVal_0] + rest),
                    None => None,
                }
            } else {
                None
            },
            _ => None,
        }
    }
}

/// What a listing response body denotes: `None` unless it parses as a JSON
/// array of rows, each carrying an `id` string.
pub open spec fn spec_parse_currencies(s: Seq<char>) -> Option<Seq<Seq<char>>> {
    match spec_parse_json(s) {
        Some(JsonModel::ArrVal(a)) => spec_currency_ids(a),
        _ => None,
    }
}

} // verus!
