//! Decoding layer for a transit-authority departure API: query-parameter
//! builders, an HTML-entity text normalizer, a JSON stop-search decoder and a
//! streaming XML departure decoder.

pub mod departures;
pub mod json;
pub mod params;
pub mod stops;
pub mod strutil;
pub mod text;
pub mod xml;

pub use departures::{
    parse_departures_xml, parse_serving_line_attrs, parse_time_from_attrs, Departure,
};
pub use json::JsonValue;
pub use params::{common_params, departure_params, stop_search_params};
pub use stops::{parse_stop_point, parse_stopfinder_json, suggestions_from_json, StopSuggestion};
pub use strutil::parse_u8_str;
pub use xml::RawEvent;
