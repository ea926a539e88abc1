//! Tolerant decoders for exchange market-data frames.
//!
//! Exchange feeds deliver trades, aggregated trades, order-book depth
//! updates, klines, tickers and mini-tickers as JSON text whose numeric and
//! temporal fields arrive in inconsistent representations: prices and
//! quantities as quoted strings, timestamps as seconds or milliseconds and
//! as strings or numbers, order-book levels as heterogeneous arrays with a
//! reserved trailing array.  This crate normalizes such frames into one
//! canonical, strongly typed record per stream type, or reports exactly why
//! a frame was rejected.  Parsing of the outer JSON text is delegated to
//! `serde_json`; everything after the parse is verified.

pub mod coinlist;
pub mod currency_pairs;
pub mod errors;
pub mod json;
pub mod models;
pub mod nomics;
pub mod numeric;
pub mod quote;
pub mod stream_url;
pub mod text;
pub mod timestamp;
