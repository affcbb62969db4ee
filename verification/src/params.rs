//! Query-parameter builders for the two API operations.
//!
//! Each builder returns the ordered key/value pairs that the transport layer
//! serializes into a query string. The fixed entries are opaque protocol
//! constants of the upstream API and are reproduced verbatim.

use vstd::prelude::*;
use crate::strutil::{dec_digits, u64_string};

verus! {

/// The pairs of a builder result, seen as sequences of characters.
pub open spec fn pairs_view(s: Seq<(&'static str, String)>) -> Seq<(Seq<char>, Seq<char>)> {
    s.map_values(|p: (&'static str, String)| (p.0@, p.1@))
}

/// The fixed pairs that every request carries.
pub open spec fn common_params_spec() -> Seq<(Seq<char>, Seq<char>)> {
    seq![
        ("language"@, "de"@),
        ("stateless"@, "1"@),
        ("coordOutputFormat"@, "WGS84[DD.ddddd]"@),
        ("coordOutputFormatTail"@, "7"@),
    ]
}

/// The full parameter list of a stop-search request.
pub open spec fn stop_search_params_spec(query: Seq<char>, max: nat) -> Seq<
    (Seq<char>, Seq<char>),
> {
    common_params_spec() + seq![
        ("outputFormat"@, "JSON"@),
        ("locationServerActive"@, "1"@),
        ("regionID_sf"@, "1"@),
        ("type_sf"@, "any"@),
        ("name_sf"@, query),
        ("anyObjFilter_sf"@, "2"@),
        ("reducedAnyPostcodeObjFilter_sf"@, "64"@),
        ("reducedAnyTooManyObjFilter_sf"@, "2"@),
        ("useHouseNumberList"@, "true"@),
        ("anyMaxSizeHitList"@, dec_digits(max)),
    ]
}

/// The full parameter list of a departure-monitor request.
pub open spec fn departure_params_spec(stop_id: Seq<char>, max: nat) -> Seq<
    (Seq<char>, Seq<char>),
> {
    common_params_spec() + seq![
        ("outputFormat"@, "XML"@),
        ("type_dm"@, "stop"@),
        ("name_dm"@, stop_id),
        ("useRealtime"@, "1"@),
        ("mode"@, "direct"@),
        ("ptOptionsActive"@, "1"@),
        ("deleteAssignedStops_dm"@, "1"@),
        ("useProxFootSearch"@, "0"@),
        ("mergeDep"@, "1"@),
        ("limit"@, dec_digits(max)),
    ]
}

/// The fixed parameters shared by both operations.
pub fn common_params() -> (r: Vec<(&'static str, String)>)
    ensures
        pairs_view(r@) == common_params_spec(),
{
    let mut r: Vec<(&'static str, String)> = Vec::new();
    r.push(("language", String::from_str("de")));
    r.push(("stateless", String::from_str("1")));
    r.push(("coordOutputFormat", String::from_str("WGS84[DD.ddddd]")));
    r.push(("coordOutputFormatTail", String::from_str("7")));
    proof {
        assert(pairs_view(r@) =~= common_params_spec());
    }
    r
}

/// The parameters of a stop-search request: the fixed entries, then the
/// search text and the result cap. The query text is passed through
/// unvalidated; rejecting an empty query is the caller's business.
pub fn stop_search_params(query: &str, max: usize) -> (r: Vec<(&'static str, String)>)
    ensures
        pairs_view(r@) == stop_search_params_spec(query@, max as nat),
{
    let mut r = common_params();
    r.push(("outputFormat", String::from_str("JSON")));
    r.push(("locationServerActive", String::from_str("1")));
    r.push(("regionID_sf", String::from_str("1")));
    r.push(("type_sf", String::from_str("any")));
    r.push(("name_sf", String::from_str(query)));
    r.push(("anyObjFilter_sf", String::from_str("2")));
    r.push(("reducedAnyPostcodeObjFilter_sf", String::from_str("64")));
    r.push(("reducedAnyTooManyObjFilter_sf", String::from_str("2")));
    r.push(("useHouseNumberList", String::from_str("true")));
    r.push(("anyMaxSizeHitList", u64_string(max as u64)));
    proof {
        assert(pairs_view(r@) =~= stop_search_params_spec(query@, max as nat));
    }
    r
}

/// The parameters of a departure-monitor request: the fixed entries, then
/// the stop identifier and the departure cap.
pub fn departure_params(stop_id: &str, max: usize) -> (r: Vec<(&'static str, String)>)
    ensures
        pairs_view(r@) == departure_params_spec(stop_id@, max as nat),
{
    let mut r = common_params();
    r.push(("outputFormat", String::from_str("XML")));
    r.push(("type_dm", String::from_str("stop")));
    r.push(("name_dm", String::from_str(stop_id)));
    r.push(("useRealtime", String::from_str("1")));
    r.push(("mode", String::from_str("direct")));
    r.push(("ptOptionsActive", String::from_str("1")));
    r.push(("deleteAssignedStops_dm", String::from_str("1")));
    r.push(("useProxFootSearch", String::from_str("0")));
    r.push(("mergeDep", String::from_str("1")));
    r.push(("limit", u64_string(max as u64)));
    proof {
        assert(pairs_view(r@) =~= departure_params_spec(stop_id@, max as nat));
    }
    r
}

} // verus!
