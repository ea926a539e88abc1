//! The canonical records, one per stream type, and their decoders.
//!
//! Each decoder is a pure function from one wire frame to one canonical
//! record: it extracts the short wire keys the exchange uses, routes every
//! field through the numeric, timestamp, quote-pair and symbol decoders,
//! and aborts the whole record on the first field failure — no partial
//! records are produced.

use vstd::prelude::*;

pub mod book_depth;
pub mod fields;
pub mod klines;
pub mod mini_ticker;
pub mod tickers;
pub mod trades;
pub mod aggregate_trades;

verus! {

/// A stored forum post, read back from the relational store.
#[derive(Debug, Clone, PartialEq, Eq)]
pub struct Post {
    pub id: i32,
    pub title: String,
    pub body: String,
    pub published: bool,
}

/// A forum post to be written, borrowing its text.
#[derive(Debug, Clone, PartialEq, Eq)]
pub struct NewPost<'a> {
    pub title: &'a str,
    pub body: &'a str,
}

} // verus!
