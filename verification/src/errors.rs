//! The error taxonomy shared by every decoder in the crate.

use vstd::prelude::*;

verus! {

/// Why a wire value or a whole frame was rejected.  Every decoder failure is
/// local to a single frame: the caller logs it, drops the frame and keeps the
/// stream open.
#[derive(Debug, Clone, PartialEq, Eq)]
pub enum DecodeError {
    /// A wire value that should carry a number is not coercible to one.
    InvalidNumber,
    /// A quote-pair array or map is missing one of its two required elements.
    IncompleteQuote,
    /// A symbol string that is not in the closed trading-pair enumeration;
    /// carries the offending wire string.
    UnknownSymbol(String),
    /// A decoded timestamp lies before the configured launch epoch, which
    /// signals a seconds/milliseconds unit confusion upstream.
    TimestampBeforeLaunch,
    /// The outer JSON text does not parse, or a mandatory key is missing or
    /// of an unusable shape.
    MalformedFrame,
}

/// The mathematical value of a [`DecodeError`].
pub enum ErrorModel {
    InvalidNumber,
    IncompleteQuote,
    UnknownSymbol(Seq<char>),
    TimestampBeforeLaunch,
    MalformedFrame,
}

impl View for DecodeError {
    type V = ErrorModel;

    open spec fn view(&self) -> ErrorModel {
        match self {
            DecodeError::InvalidNumber => ErrorModel::InvalidNumber,
            DecodeError::IncompleteQuote => ErrorModel::IncompleteQuote,
            DecodeError::UnknownSymbol(s) => ErrorModel::UnknownSymbol(s@),
            DecodeError::TimestampBeforeLaunch => ErrorModel::TimestampBeforeLaunch,
            DecodeError::MalformedFrame => ErrorModel::MalformedFrame,
        }
    }
}

} // verus!
