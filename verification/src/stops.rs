//! The stop-search decoder: turns a stop-search JSON document into stop
//! suggestions, filtering out everything that is not a stop.

use vstd::prelude::*;
use crate::json::{spec_obj_get, obj_get, parse_json, json_of, JsonValue};
use crate::text::{decoded, decode_text};
use crate::strutil::str_eq;

verus! {

/// One suggested stop out of the stop-search response.
#[derive(Clone, Debug, PartialEq)]
pub struct StopSuggestion {
    /// The API-assigned stop identifier, taken verbatim from `ref.id`.
    pub id: String,
    /// The human-readable stop name, entity-decoded.
    pub name: String,
    /// The entity-decoded locality, left out when it decodes to nothing.
    pub place: Option<String>,
}

/// The mathematical shadow of a `StopSuggestion`.
#[verifier::ext_equal]
pub ghost struct SpecSuggestion {
    pub id: Seq<char>,
    pub name: Seq<char>,
    pub place: Option<Seq<char>>,
}

impl View for StopSuggestion {
    type V = SpecSuggestion;

    open spec fn view(&self) -> SpecSuggestion {
        SpecSuggestion {
            id: self.id@,
            name: self.name@,
            place: match self.place {
                Some(p) => Some(p@),
                None => None,
            },
        }
    }
}

/// A sequence of suggestions, seen through their views.
pub open spec fn sugg_view(s: Seq<StopSuggestion>) -> Seq<SpecSuggestion> {
    s.map_values(|x: StopSuggestion| x@)
}

/// The string value of the member named `key`, if the member exists and is a
/// string.
pub open spec fn str_field(es: Seq<(String, JsonValue)>, key: Seq<char>) -> Option<Seq<char>> {
    match spec_obj_get(es, key) {
        Some(JsonValue::Text(s)) => Some(s@),
        _ => None,
    }
}

/// The effective type of a point: the `type` member, read through `anyType`
/// when `type` is the literal `"any"`.
pub open spec fn resolved_type(es: Seq<(String, JsonValue)>) -> Option<Seq<char>> {
    match str_field(es, "type"@) {
        Some(t) => if t == "any"@ {
            str_field(es, "anyType"@)
        } else {
            Some(t)
        },
        None => None,
    }
}

/// What one point of the response yields: a suggestion when the point is a
/// stop with a string name and a string `ref.id`, nothing otherwise.
pub open spec fn point_suggestion(p: JsonValue) -> Option<SpecSuggestion> {
    match p {
        JsonValue::Object(es) => {
            if resolved_type(es@) != Some("stop"@) {
                None
            } else {
                match (str_field(es@, "name"@), spec_obj_get(es@, "ref"@)) {
                    (Some(name), Some(JsonValue::Object(re))) => match str_field(re@, "id"@) {
                        Some(id) => Some(
                            SpecSuggestion {
                                id: id,
                                name: decoded(name),
                                place: match str_field(re@, "place"@) {
                                    Some(pl) => if decoded(pl).len() == 0 {
                                        None
                                    } else {
                                        Some(decoded(pl))
                                    },
                                    None => None,
                                },
                            },
                        ),
                        None => None,
                    },
                    _ => None,
                }
            }
        },
        _ => None,
    }
}

/// The suggestions of a sequence of points, in order, keeping exactly the
/// points that yield one.
pub open spec fn sugg_seq(pts: Seq<JsonValue>) -> Seq<SpecSuggestion>
    decreases pts.len(),
{
    if pts.len() == 0 {
        Seq::empty()
    } else {
        sugg_seq(pts.drop_last()) + (match point_suggestion(pts.last()) {
            Some(s) => seq![s],
            None => Seq::empty(),
        })
    }
}

/// Where the point container sits in the document: `stopFinder.points` when
/// present, else the `stopFinder` value itself, else nowhere.
pub open spec fn spec_container(v: JsonValue) -> Option<JsonValue> {
    match v {
        JsonValue::Object(es) => match spec_obj_get(es@, "stopFinder"@) {
            Some(sf) => match sf {
                JsonValue::Object(ses) => match spec_obj_get(ses@, "points"@) {
                    Some(p) => Some(p),
                    None => Some(sf),
                },
                _ => Some(sf),
            },
            None => None,
        },
        _ => None,
    }
}

/// What decoding a whole parsed document yields: each point of an array
/// container in order, the single `point` member of an object container, and
/// nothing from any other shape.
pub open spec fn spec_suggestions(v: JsonValue) -> Seq<SpecSuggestion> {
    match spec_container(v) {
        Some(JsonValue::List(items)) => sugg_seq(items@),
        Some(JsonValue::Object(es)) => match spec_obj_get(es@, "point"@) {
            Some(p) => match point_suggestion(p) {
                Some(s) => seq![s],
                None => Seq::empty(),
            },
            None => Seq::empty(),
        },
        _ => Seq::empty(),
    }
}

/// Whether a point yields a suggestion.
pub open spec fn is_kept(p: JsonValue) -> bool {
    point_suggestion(p) is Some
}

/// The subsequence of points that yield a suggestion, in order.
pub open spec fn kept_points(pts: Seq<JsonValue>) -> Seq<JsonValue> {
    pts.filter(|p: JsonValue| is_kept(p))
}

/// Decoding a points array yields one record per kept point and no others,
/// in the points' original relative order: the k-th record is the suggestion
/// of the k-th kept point.
pub proof fn lemma_points_kept_in_order(pts: Seq<JsonValue>)
    ensures
        sugg_seq(pts).len() == kept_points(pts).len(),
        forall|k: int|
            0 <= k < sugg_seq(pts).len() ==> sugg_seq(pts)[k] == point_suggestion(
                kept_points(pts)[k],
            )->0,
    decreases pts.len(),
{
    reveal(Seq::filter);
    if pts.len() == 0 {
        assert(sugg_seq(pts) =~= Seq::<SpecSuggestion>::empty());
    } else {
        let dl = pts.drop_last();
        lemma_points_kept_in_order(dl);
        if is_kept(pts.last()) {
            assert(kept_points(pts) == kept_points(dl).push(pts.last()));
            assert(sugg_seq(pts) == sugg_seq(dl) + seq![point_suggestion(pts.last())->0]);
            assert forall|k: int| 0 <= k < sugg_seq(pts).len() implies sugg_seq(pts)[k]
                == point_suggestion(kept_points(pts)[k])->0 by {
                if k < sugg_seq(dl).len() {
                    assert(sugg_seq(pts)[k] == sugg_seq(dl)[k]);
                    assert(kept_points(pts)[k] == kept_points(dl)[k]);
                }
            }
        } else {
            assert(kept_points(pts) == kept_points(dl));
            assert(sugg_seq(pts) =~= sugg_seq(dl));
        }
    }
}

/// When every kept point carries a non-empty identifier and a name that
/// decodes to something, so does every record: decoding invents no empty
/// fields. (A point with, say, `"ref": {"id": ""}` is kept with that empty
/// identifier, so the hypothesis cannot be dropped.)
pub proof fn lemma_records_nonempty(pts: Seq<JsonValue>)
    requires
        forall|l: int|
            0 <= l < pts.len() && point_suggestion(#[trigger] pts[l]) is Some ==> (
            point_suggestion(pts[l])->0.id.len() > 0 && point_suggestion(pts[l])->0.name.len()
                > 0),
    ensures
        forall|k: int|
            0 <= k < sugg_seq(pts).len() ==> (#[trigger] sugg_seq(pts)[k].id.len() > 0 && sugg_seq(
                pts,
            )[k].name.len() > 0),
    decreases pts.len(),
{
    if pts.len() > 0 {
        let dl = pts.drop_last();
        assert forall|l: int|
            0 <= l < dl.len() && point_suggestion(#[trigger] dl[l]) is Some implies (
        point_suggestion(dl[l])->0.id.len() > 0 && point_suggestion(dl[l])->0.name.len()
            > 0) by {
            assert(dl[l] == pts[l]);
        }
        lemma_records_nonempty(dl);
        assert(point_suggestion(pts.last()) == point_suggestion(pts[pts.len() - 1]));
    }
}

/// A point whose `type` is the literal `"any"` takes its effective type from
/// `anyType`: with a string `anyType` it is kept exactly when that string is
/// `"stop"` and its name and `ref.id` are strings; with a missing or
/// non-string `anyType` it is dropped.
pub proof fn lemma_any_type_resolution(p: JsonValue)
    requires
        p is Object,
        str_field(p->Object_0@, "type"@) == Some("any"@),
    ensures
        point_suggestion(p) is Some <==> (str_field(p->Object_0@, "anyType"@) == Some("stop"@)
            && str_field(p->Object_0@, "name"@) is Some && (spec_obj_get(
            p->Object_0@,
            "ref"@,
        ) matches Some(rf) && rf is Object && str_field(rf->Object_0@, "id"@) is Some)),
{
    let es = p->Object_0@;
    assert(resolved_type(es) == str_field(es, "anyType"@));
}

/// A place that decodes to the empty string is left out of the record
/// entirely: no kept suggestion carries an empty place.
pub proof fn lemma_empty_place_omitted(p: JsonValue)
    ensures
        (point_suggestion(p) matches Some(s) ==> s.place != Some(Seq::<char>::empty())),
{
    if point_suggestion(p) is Some {
        let s = point_suggestion(p)->0;
        if s.place is Some {
            assert(s.place->0.len() != 0);
        }
    }
}

/// Decodes one point of the response.
pub fn parse_stop_point(point: &JsonValue) -> (r: Option<StopSuggestion>)
    ensures
        (match r {
            Some(s) => point_suggestion(*point) == Some(s@),
            None => point_suggestion(*point) is None,
        }),
{
    let es = match point {
        JsonValue::Object(es) => es,
        _ => {
            return None;
        },
    };
    let typ: &String = match obj_get(es, "type") {
        Some(JsonValue::Text(t)) => t,
        _ => {
            return None;
        },
    };
    let resolved: &String = if str_eq(typ.as_str(), "any") {
        match obj_get(es, "anyType") {
            Some(JsonValue::Text(t)) => t,
            _ => {
                return None;
            },
        }
    } else {
        typ
    };
    if !str_eq(resolved.as_str(), "stop") {
        return None;
    }
    let name = match obj_get(es, "name") {
        Some(JsonValue::Text(n)) => decode_text(n.as_str()),
        _ => {
            return None;
        },
    };
    let re = match obj_get(es, "ref") {
        Some(JsonValue::Object(re)) => re,
        _ => {
            return None;
        },
    };
    let id = match obj_get(re, "id") {
        Some(JsonValue::Text(i)) => i.clone(),
        _ => {
            return None;
        },
    };
    let place = match obj_get(re, "place") {
        Some(JsonValue::Text(p)) => {
            let d = decode_text(p.as_str());
            if d.as_str().is_empty() {
                None
            } else {
                Some(d)
            }
        },
        _ => None,
    };
    Some(StopSuggestion { id, name, place })
}

/// Decodes the point container of a parsed document.
pub fn suggestions_from_json(v: &JsonValue) -> (r: Vec<StopSuggestion>)
    ensures
        sugg_view(r@) == spec_suggestions(*v),
{
    let mut out: Vec<StopSuggestion> = Vec::new();
    let container = match v {
        JsonValue::Object(es) => match obj_get(es, "stopFinder") {
            Some(sf) => match sf {
                JsonValue::Object(ses) => match obj_get(ses, "points") {
                    Some(p) => Some(p),
                    None => Some(sf),
                },
                _ => Some(sf),
            },
            None => None,
        },
        _ => None,
    };
    match container {
        Some(JsonValue::List(items)) => {
            let n = items.len();
            let mut i: usize = 0;
            while i < n
                invariant
                    n == items@.len(),
                    i <= n,
                    sugg_view(out@) == sugg_seq(items@.take(i as int)),
                decreases n - i,
            {
                proof {
                    assert(items@.take(i + 1).drop_last() =~= items@.take(i as int));
                }
                if let Some(s) = parse_stop_point(&items[i]) {
                    out.push(s);
                }
                proof {
                    assert(sugg_view(out@) =~= sugg_seq(items@.take(i + 1)));
                }
                i += 1;
            }
            proof {
                assert(items@.take(n as int) =~= items@);
            }
        },
        Some(JsonValue::Object(es)) => {
            if let Some(p) = obj_get(es, "point") {
                if let Some(s) = parse_stop_point(p) {
                    out.push(s);
                }
            }
            proof {
                assert(sugg_view(out@) =~= spec_suggestions(*v));
            }
        },
        _ => {},
    }
    proof {
        assert(sugg_view(out@) =~= spec_suggestions(*v));
    }
    out
}

/// Decodes a stop-search response. Fails exactly when the text is not valid
/// JSON; any recognized document shape yields the suggestions of
/// `spec_suggestions`, and an unrecognized shape yields none.
pub fn parse_stopfinder_json(body: &str) -> (r: Result<Vec<StopSuggestion>, String>)
    ensures
        (match r {
            Ok(stops) => json_of(body@) matches Some(v) && sugg_view(stops@) == spec_suggestions(
                v,
            ),
            Err(_) => json_of(body@) is None,
        }),
{
    let v = match parse_json(body) {
        Ok(v) => v,
        Err(e) => {
            return Err(e);
        },
    };
    Ok(suggestions_from_json(&v))
}

} // verus!
