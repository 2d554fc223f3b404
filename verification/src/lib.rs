//! Aircraft data provider for the ADSB.lol aggregation service.
//!
//! The provider holds a request URL built once from a geographic reference
//! point and, for each response it is handed, normalizes the loosely-typed
//! JSON payload into a map from transponder identifier to a fixed
//! per-aircraft record with defined defaulting and coercion rules.

pub mod acmap;
pub mod error;
pub mod flightradar;
pub mod json;
pub mod laws;
pub mod text;
pub mod util;
