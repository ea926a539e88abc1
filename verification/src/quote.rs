//! The quote-pair decoder: one order-book level.
//!
//! The exchange writes a level as a heterogeneous array — a price string, a
//! quantity string and optionally a reserved, always-empty trailing array —
//! while rows read back from storage carry the same pair as a map with
//! `price` and `quantity` keys.  Both shapes resolve to one canonical
//! [`Quote`] by inspecting the value's shape.  Array elements that are
//! themselves arrays are the reserved entries: they are skipped without
//! being interpreted, wherever they stand, and the price and quantity are
//! the first two remaining elements.  A negative quantity is rejected,
//! keeping the data model's non-negativity invariant.

use vstd::prelude::*;
use vstd::seq_lib::*;

use crate::errors::DecodeError;
use crate::errors::ErrorModel;
use crate::json::value_model;
use crate::json::JsonModel;
use crate::numeric::decode_number;
use crate::numeric::decode_quantity;
use crate::numeric::lit_is_neg;
use crate::numeric::spec_decode_number;
use crate::numeric::spec_decode_quantity;
use crate::numeric::CanonicalNumber;

verus! {

/// One order-book level: a price and a quantity, both canonical numbers.
#[derive(Debug, Clone, PartialEq, Eq)]
pub struct Quote {
    pub price: CanonicalNumber,
    pub quantity: CanonicalNumber,
}

/// The mathematical value of a [`Quote`]: the two numeric literals.
pub struct QuoteModel {
    pub price: Seq<char>,
    pub quantity: Seq<char>,
}

impl View for Quote {
    type V = QuoteModel;

    open spec fn view(&self) -> QuoteModel {
        QuoteModel { price: self.price@, quantity: self.quantity@ }
    }
}

impl Quote {
    /// The well-formedness invariant: both literals satisfy the numeric
    /// grammar and the quantity is non-negative.
    pub open spec fn well_formed(&self) -> bool {
        &&& self.price.well_formed()
        &&& self.quantity.well_formed()
        &&& !lit_is_neg(self.quantity@)
    }
}

/// Whether a wire element carries level data, as opposed to a reserved
/// array entry.
pub open spec fn is_scalar_elem(j: JsonModel) -> bool {
    !(j is ArrVal)
}

/// The non-array elements of a level array, in order; the reserved array
/// entries the exchange appends are dropped before the pair is read.
pub open spec fn scalar_elems(a: Seq<JsonModel>) -> Seq<JsonModel> {
    a.filter(|j: JsonModel| is_scalar_elem(j))
}

/// What [`decode_quote_pair`] yields for each wire shape.  An array is read
/// as its non-array elements, of which the first two are price and
/// quantity; a map uses the `price` and `quantity` keys; any other shape,
/// or fewer than two usable elements, is `IncompleteQuote`.
pub open spec fn spec_decode_quote(j: JsonModel) -> Result<QuoteModel, ErrorModel> {
    match j {
        JsonModel::ArrVal(a) => {
            let elems = scalar_elems(a);
            if elems.len() < 2 {
                Err(ErrorModel::IncompleteQuote)
            } else {
                match spec_decode_number(elems[0]) {
                    Err(e) => Err(e),
                    Ok(p) => match spec_decode_quantity(elems[1]) {
                        Err(e) => Err(e),
                        Ok(q) => Ok(QuoteModel { price: p, quantity: q }),
                    },
                }
            }
        },
        JsonModel::ObjVal(m) => if !m.contains_key("price"@) || !m.contains_key("quantity"@) {
            Err(ErrorModel::IncompleteQuote)
        } else {
            match spec_decode_number(m["price"@]) {
                Err(e) => Err(e),
                Ok(p) => match spec_decode_quantity(m["quantity"@]) {
                    Err(e) => Err(e),
                    Ok(q) => Ok(QuoteModel { price: p, quantity: q }),
                },
            }
        },
        _ => Err(ErrorModel::IncompleteQuote),
    }
}

/// Decodes one order-book level from either accepted wire shape.
pub fn decode_quote_pair(v: &serde_json::Value) -> (r: Result<Quote, DecodeError>)
    ensures
        match spec_decode_quote(value_model(*v)) {
            Ok(q) => r matches Ok(x) && x@ == q,
            Err(e) => r matches Err(err) && err@ == e,
        },
        r matches Ok(q) ==> q.well_formed(),
{
    if let Some(n) = crate::json::json_arr_len(v) {
        let ghost a: Seq<JsonModel> = value_model(*v)->ArrVal_0;
        let mut first: Option<&serde_json::Value> = None;
        let mut second: Option<&serde_json::Value> = None;
        let mut i: usize = 0;
        proof {
            reveal(Seq::filter);
            assert(a.take(0) =~= Seq::<JsonModel>::empty());
            assert(scalar_elems(a.take(0)) =~= Seq::<JsonModel>::empty());
        }
        while i < n
            invariant
                0 <= i <= n,
                n == a.len(),
                value_model(*v) == JsonModel::ArrVal(a),
                first is None ==> scalar_elems(a.take(i as int)).len() == 0,
                second is None ==> scalar_elems(a.take(i as int)).len() <= 1,
                first matches Some(f) ==> scalar_elems(a.take(i as int)).len() >= 1 && value_model(
                    *f,
                ) == scalar_elems(a.take(i as int))[0],
                second matches Some(s2) ==> scalar_elems(a.take(i as int)).len() >= 2
                    && value_model(*s2) == scalar_elems(a.take(i as int))[1],
                second is Some ==> first is Some,
            decreases n - i,
        {
            let ghost before: Seq<JsonModel> = scalar_elems(a.take(i as int));
            proof {
                reveal(Seq::filter);
                assert(a.take(i + 1).drop_last() =~= a.take(i as int));
                assert(a.take(i + 1).last() == a[i as int]);
            }
            let e0 = match crate::json::json_arr_get(v, i) {
                Some(x) => x,
                None => {
                    // unreachable: i is below the length
                    return Err(DecodeError::IncompleteQuote);
                },
            };
            if crate::json::json_arr_len(e0).is_none() {
                // a non-array element carries level data
                if first.is_none() {
                    first = Some(e0);
                } else if second.is_none() {
                    second = Some(e0);
                }
            }
            i = i + 1;
        }
        proof {
            assert(a.take(n as int) =~= a);
        }
        match (first, second) {
            (Some(w0), Some(w1)) => {
                let price = match decode_number(w0) {
                    Ok(p) => p,
                    Err(e) => {
                        return Err(e);
                    },
                };
                let quantity = match decode_quantity(w1) {
                    Ok(q) => q,
                    Err(e) => {
                        return Err(e);
                    },
                };
                Ok(Quote { price, quantity })
            },
            _ => Err(DecodeError::IncompleteQuote),
        }
    } else {
        let p = crate::json::json_get(v, "price");
        let q = crate::json::json_get(v, "quantity");
        match (p, q) {
            (Some(wp), Some(wq)) => {
                let price = match decode_number(wp) {
                    Ok(p) => p,
                    Err(e) => {
                        return Err(e);
                    },
                };
                let quantity = match decode_quantity(wq) {
                    Ok(x) => x,
                    Err(e) => {
                        return Err(e);
                    },
                };
                Ok(Quote { price, quantity })
            },
            _ => Err(DecodeError::IncompleteQuote),
        }
    }
}

/// In an array whose elements past the first two are all reserved arrays,
/// the non-array elements are exactly the first two.
proof fn lemma_scalar_elems_pair(a: Seq<JsonModel>)
    requires
        a.len() >= 2,
        is_scalar_elem(a[0]),
        is_scalar_elem(a[1]),
        forall|k: int| 2 <= k < a.len() ==> !is_scalar_elem(#[trigger] a[k]),
    ensures
        scalar_elems(a) =~= seq![a[0], a[1]],
    decreases a.len(),
{
    reveal(Seq::filter);
    if a.len() == 2 {
        assert(a.drop_last() =~= seq![a[0]]);
        assert(a.drop_last().drop_last() =~= Seq::<JsonModel>::empty());
        assert(scalar_elems(a.drop_last()) =~= seq![a[0]]);
    } else {
        assert(a.drop_last()[0] == a[0] && a.drop_last()[1] == a[1]);
        lemma_scalar_elems_pair(a.drop_last());
        assert(!is_scalar_elem(a.last()));
    }
}

/// An array whose first two elements are valid numeric strings — the
/// quantity non-negative — decodes to exactly those two literals, however
/// many reserved array elements follow them.
pub proof fn lemma_quote_ignores_trailing(elems: Seq<JsonModel>, p: Seq<char>, q: Seq<char>)
    requires
        elems.len() >= 2,
        elems[0] == JsonModel::StrVal(p),
        elems[1] == JsonModel::StrVal(q),
        crate::numeric::is_json_number(p),
        crate::numeric::is_json_number(q),
        !lit_is_neg(q),
        forall|k: int| 2 <= k < elems.len() ==> (#[trigger] elems[k]) is ArrVal,
    ensures
        spec_decode_quote(JsonModel::ArrVal(elems)) == Ok::<QuoteModel, ErrorModel>(
            QuoteModel { price: p, quantity: q },
        ),
{
    lemma_scalar_elems_pair(elems);
}

} // verus!
