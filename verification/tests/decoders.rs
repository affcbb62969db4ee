use efa::{
    common_params, departure_params, parse_departures_xml, parse_serving_line_attrs,
    parse_stop_point, parse_stopfinder_json, parse_time_from_attrs, parse_u8_str,
    stop_search_params, suggestions_from_json, JsonValue, StopSuggestion,
};

#[test]
fn parse_departures_xml_extracts_line_time_direction() {
    let xml = r#"
        <itdRequest>
          <itdDepartureMonitorRequest>
            <itdDepartureList>
              <itdDeparture stopID="1001">
                <itdDateTime>
                  <itdDate year="2024" month="01" day="01" weekday="1" />
                  <itdTime hour="08" minute="05" />
                </itdDateTime>
                <itdRTDateTime>
                  <itdDate year="2024" month="01" day="01" weekday="1" />
                  <itdTime hour="08" minute="07" />
                </itdRTDateTime>
                <itdServingLine symbol="S1" direction="Hbf" motType="1" />
              </itdDeparture>
              <itdDeparture stopID="1002">
                <itdDateTime>
                  <itdDate year="2024" month="01" day="01" weekday="1" />
                  <itdTime hour="09" minute="30" />
                </itdDateTime>
                <itdServingLine number="2" direction="Durlach" motType="3" />
              </itdDeparture>
            </itdDepartureList>
          </itdDepartureMonitorRequest>
        </itdRequest>
    "#;

    let departures = parse_departures_xml(xml).expect("parse succeeds");
    assert_eq!(departures.len(), 2);

    assert_eq!(departures[0].time, "08:07");
    assert_eq!(departures[0].planned_time, "08:05");
    assert_eq!(departures[0].realtime_time.as_deref(), Some("08:07"));
    assert_eq!(departures[0].line, "S1");
    assert_eq!(departures[0].direction.as_deref(), Some("Hbf"));

    assert_eq!(departures[1].time, "09:30");
    assert_eq!(departures[1].planned_time, "09:30");
    assert_eq!(departures[1].realtime_time, None);
    assert_eq!(departures[1].line, "2");
    assert_eq!(departures[1].direction.as_deref(), Some("Durlach"));
}

#[test]
fn parse_stopfinder_json_extracts_stop_suggestions() {
    let json = r#"
    {
      "stopFinder": {
        "points": [
          {
            "type": "stop",
            "name": "Karlsruhe Hbf",
            "ref": {
              "id": "7000101",
              "place": "Karlsruhe"
            }
          },
          {
            "type": "poi",
            "name": "Zoo",
            "ref": {
              "id": "poi-1",
              "place": "Karlsruhe"
            }
          }
        ]
      }
    }
    "#;

    let stops = parse_stopfinder_json(json).expect("parse succeeds");
    assert_eq!(stops.len(), 1);
    assert_eq!(stops[0].id, "7000101");
    assert_eq!(stops[0].name, "Karlsruhe Hbf");
    assert_eq!(stops[0].place.as_deref(), Some("Karlsruhe"));
}

#[test]
fn stop_points_kept_in_original_order() {
    let json = r#"
    {
      "stopFinder": {
        "points": [
          { "type": "stop", "name": "A", "ref": { "id": "1" } },
          { "type": "poi", "name": "X", "ref": { "id": "p" } },
          { "type": "stop", "name": "B", "ref": { "id": "2" } },
          { "type": "street", "name": "Y", "ref": { "id": "s" } },
          { "type": "stop", "name": "C", "ref": { "id": "3" } }
        ]
      }
    }
    "#;
    let stops = parse_stopfinder_json(json).expect("parse succeeds");
    let ids: Vec<&str> = stops.iter().map(|s| s.id.as_str()).collect();
    assert_eq!(ids, vec!["1", "2", "3"]);
    let names: Vec<&str> = stops.iter().map(|s| s.name.as_str()).collect();
    assert_eq!(names, vec!["A", "B", "C"]);
}

#[test]
fn any_type_resolves_through_any_type_field() {
    let kept = r#"{"stopFinder":{"points":[
        {"type":"any","anyType":"stop","name":"N","ref":{"id":"9"}}]}}"#;
    let stops = parse_stopfinder_json(kept).expect("parse succeeds");
    assert_eq!(stops.len(), 1);
    assert_eq!(stops[0].id, "9");

    let dropped = r#"{"stopFinder":{"points":[
        {"type":"any","anyType":"poi","name":"N","ref":{"id":"9"}}]}}"#;
    assert_eq!(parse_stopfinder_json(dropped).expect("parse succeeds").len(), 0);

    let missing = r#"{"stopFinder":{"points":[
        {"type":"any","name":"N","ref":{"id":"9"}}]}}"#;
    assert_eq!(parse_stopfinder_json(missing).expect("parse succeeds").len(), 0);
}

#[test]
fn empty_place_is_omitted_not_empty() {
    let json = r#"{"stopFinder":{"points":[
        {"type":"stop","name":"N","ref":{"id":"4","place":""}}]}}"#;
    let stops = parse_stopfinder_json(json).expect("parse succeeds");
    assert_eq!(stops.len(), 1);
    assert_eq!(stops[0].place, None);
}

#[test]
fn names_and_places_are_entity_decoded() {
    let json = r#"{"stopFinder":{"points":[
        {"type":"stop","name":"Markt &amp; Rathaus","ref":{"id":"5","place":"K&#246;ln"}}]}}"#;
    let stops = parse_stopfinder_json(json).expect("parse succeeds");
    assert_eq!(stops[0].name, "Markt & Rathaus");
    assert_eq!(stops[0].place.as_deref(), Some("K\u{f6}ln"));
    assert_eq!(stops[0].id, "5");
}

#[test]
fn single_point_object_container() {
    let json = r#"{"stopFinder":{"points":{"point":
        {"type":"stop","name":"Solo","ref":{"id":"77"}}}}}"#;
    let stops = parse_stopfinder_json(json).expect("parse succeeds");
    assert_eq!(stops.len(), 1);
    assert_eq!(stops[0].id, "77");
    assert_eq!(stops[0].name, "Solo");
    assert_eq!(stops[0].place, None);
}

#[test]
fn stopfinder_fallback_without_points() {
    let json = r#"{"stopFinder":[
        {"type":"stop","name":"Direct","ref":{"id":"11"}}]}"#;
    let stops = parse_stopfinder_json(json).expect("parse succeeds");
    assert_eq!(stops.len(), 1);
    assert_eq!(stops[0].id, "11");
}

#[test]
fn unrecognized_shapes_yield_empty_not_error() {
    assert_eq!(parse_stopfinder_json("{}").expect("parse succeeds").len(), 0);
    assert_eq!(parse_stopfinder_json("[1,2,3]").expect("parse succeeds").len(), 0);
    assert_eq!(
        parse_stopfinder_json(r#"{"stopFinder":{"points":42}}"#).expect("parse succeeds").len(),
        0
    );
    assert_eq!(parse_stopfinder_json("null").expect("parse succeeds").len(), 0);
}

#[test]
fn skipped_points_do_not_fail_the_parse() {
    let json = r#"{"stopFinder":{"points":[
        {"name":"no type","ref":{"id":"1"}},
        {"type":"stop","ref":{"id":"2"}},
        {"type":"stop","name":"no ref"},
        {"type":"stop","name":"bad id","ref":{"id":7}},
        {"type":"stop","name":"Good","ref":{"id":"8"}}]}}"#;
    let stops = parse_stopfinder_json(json).expect("parse succeeds");
    assert_eq!(stops.len(), 1);
    assert_eq!(stops[0].id, "8");
}

#[test]
fn malformed_json_is_an_error() {
    assert!(parse_stopfinder_json("{ not json").is_err());
    assert!(parse_stopfinder_json("").is_err());
}

#[test]
fn malformed_xml_is_an_error() {
    assert!(parse_departures_xml("<itdRequest><itdDeparture></itdRequest>").is_err());
    assert!(parse_departures_xml("<itdDeparture attr").is_err());
}

#[test]
fn empty_departure_element_is_dropped() {
    let xml = r#"<itdRequest>
        <itdDeparture stopID="1"><itdDateTime><itdDate year="2024"/></itdDateTime></itdDeparture>
        <itdDeparture stopID="2"></itdDeparture>
    </itdRequest>"#;
    let departures = parse_departures_xml(xml).expect("parse succeeds");
    assert_eq!(departures.len(), 0);
}

#[test]
fn departure_without_line_is_dropped() {
    let xml = r#"<itdRequest><itdDeparture>
        <itdDateTime><itdTime hour="10" minute="00"/></itdDateTime>
    </itdDeparture></itdRequest>"#;
    assert_eq!(parse_departures_xml(xml).expect("parse succeeds").len(), 0);
}

#[test]
fn departure_without_time_is_dropped() {
    let xml = r#"<itdRequest><itdDeparture>
        <itdServingLine symbol="S9"/>
    </itdDeparture></itdRequest>"#;
    assert_eq!(parse_departures_xml(xml).expect("parse succeeds").len(), 0);
}

#[test]
fn later_serving_line_wins() {
    let xml = r#"<itdRequest><itdDeparture>
        <itdDateTime><itdTime hour="7" minute="3"/></itdDateTime>
        <itdServingLine symbol="S1" direction="Alt"/>
        <itdServingLine number="4" direction="Neu &amp; Mehr"/>
    </itdDeparture></itdRequest>"#;
    let departures = parse_departures_xml(xml).expect("parse succeeds");
    assert_eq!(departures.len(), 1);
    assert_eq!(departures[0].line, "4");
    assert_eq!(departures[0].direction.as_deref(), Some("Neu & Mehr"));
    assert_eq!(departures[0].time, "07:03");
    assert_eq!(departures[0].planned_time, "07:03");
    assert_eq!(departures[0].realtime_time, None);
}

#[test]
fn unparsable_time_attributes_are_treated_as_absent() {
    let xml = r#"<itdRequest><itdDeparture>
        <itdDateTime><itdTime hour="xx" minute="05"/></itdDateTime>
        <itdServingLine symbol="S2"/>
    </itdDeparture></itdRequest>"#;
    assert_eq!(parse_departures_xml(xml).expect("parse succeeds").len(), 0);
}

#[test]
fn time_from_attrs_formats_and_validates() {
    let attrs = vec![("hour".to_string(), "8".to_string()), ("minute".to_string(), "5".to_string())];
    assert_eq!(parse_time_from_attrs(&attrs).as_deref(), Some("08:05"));

    let attrs = vec![("hour".to_string(), "23".to_string()), ("minute".to_string(), "59".to_string())];
    assert_eq!(parse_time_from_attrs(&attrs).as_deref(), Some("23:59"));

    let attrs = vec![("hour".to_string(), "8".to_string())];
    assert_eq!(parse_time_from_attrs(&attrs), None);

    let attrs = vec![
        ("hour".to_string(), "1".to_string()),
        ("hour".to_string(), "2".to_string()),
        ("minute".to_string(), "3".to_string()),
    ];
    assert_eq!(parse_time_from_attrs(&attrs).as_deref(), Some("02:03"));
}

#[test]
fn serving_line_symbol_falls_back_to_number() {
    let attrs = vec![("number".to_string(), "2".to_string()), ("direction".to_string(), "A &amp; B".to_string())];
    let mut line: Option<String> = None;
    let mut direction: Option<String> = None;
    parse_serving_line_attrs(&attrs, &mut line, &mut direction);
    assert_eq!(line.as_deref(), Some("2"));
    assert_eq!(direction.as_deref(), Some("A & B"));

    let attrs = vec![("symbol".to_string(), "S1".to_string()), ("number".to_string(), "2".to_string())];
    parse_serving_line_attrs(&attrs, &mut line, &mut direction);
    assert_eq!(line.as_deref(), Some("S1"));
    assert_eq!(direction, None);
}

#[test]
fn parse_u8_str_accepts_exactly_small_decimals() {
    assert_eq!(parse_u8_str("0"), Some(0));
    assert_eq!(parse_u8_str("07"), Some(7));
    assert_eq!(parse_u8_str("+05"), Some(5));
    assert_eq!(parse_u8_str("255"), Some(255));
    assert_eq!(parse_u8_str("256"), None);
    assert_eq!(parse_u8_str(""), None);
    assert_eq!(parse_u8_str("+"), None);
    assert_eq!(parse_u8_str("-1"), None);
    assert_eq!(parse_u8_str("1a"), None);
    assert_eq!(parse_u8_str("00000000255"), Some(255));
}

#[test]
fn suggestions_from_constructed_value() {
    let point = JsonValue::Object(vec![
        ("type".to_string(), JsonValue::Text("stop".to_string())),
        ("name".to_string(), JsonValue::Text("Built".to_string())),
        (
            "ref".to_string(),
            JsonValue::Object(vec![("id".to_string(), JsonValue::Text("42".to_string()))]),
        ),
    ]);
    assert_eq!(
        parse_stop_point(&point),
        Some(StopSuggestion { id: "42".to_string(), name: "Built".to_string(), place: None })
    );

    let doc = JsonValue::Object(vec![(
        "stopFinder".to_string(),
        JsonValue::Object(vec![("points".to_string(), JsonValue::List(vec![point]))]),
    )]);
    let stops = suggestions_from_json(&doc);
    assert_eq!(stops.len(), 1);
    assert_eq!(stops[0].id, "42");
}

#[test]
fn builders_emit_the_documented_pairs() {
    let common = common_params();
    assert_eq!(common.len(), 4);
    assert_eq!(common[0], ("language", "de".to_string()));
    assert_eq!(common[1], ("stateless", "1".to_string()));
    assert_eq!(common[2], ("coordOutputFormat", "WGS84[DD.ddddd]".to_string()));
    assert_eq!(common[3], ("coordOutputFormatTail", "7".to_string()));

    let sp = stop_search_params("Karlsruhe, ZKM", 15);
    assert_eq!(sp.len(), 14);
    assert_eq!(sp[..4], common[..]);
    assert_eq!(sp[4], ("outputFormat", "JSON".to_string()));
    assert_eq!(sp[8], ("name_sf", "Karlsruhe, ZKM".to_string()));
    assert_eq!(sp[9], ("anyObjFilter_sf", "2".to_string()));
    assert_eq!(sp[13], ("anyMaxSizeHitList", "15".to_string()));

    let dp = departure_params("7000101", 5);
    assert_eq!(dp.len(), 14);
    assert_eq!(dp[..4], common[..]);
    assert_eq!(dp[4], ("outputFormat", "XML".to_string()));
    assert_eq!(dp[6], ("name_dm", "7000101".to_string()));
    assert_eq!(dp[13], ("limit", "5".to_string()));
}

#[test]
fn displayed_time_follows_realtime_when_present() {
    let with_rt = r#"<itdRequest><itdDeparture>
        <itdDateTime><itdTime hour="12" minute="00"/></itdDateTime>
        <itdRTDateTime><itdTime hour="12" minute="04"/></itdRTDateTime>
        <itdServingLine symbol="T"/>
    </itdDeparture></itdRequest>"#;
    let departures = parse_departures_xml(with_rt).expect("parse succeeds");
    assert_eq!(departures.len(), 1);
    assert_eq!(departures[0].time, departures[0].realtime_time.clone().unwrap());
    assert_eq!(departures[0].planned_time, "12:00");

    let without_rt = r#"<itdRequest><itdDeparture>
        <itdDateTime><itdTime hour="12" minute="00"/></itdDateTime>
        <itdServingLine symbol="T"/>
    </itdDeparture></itdRequest>"#;
    let departures = parse_departures_xml(without_rt).expect("parse succeeds");
    assert_eq!(departures.len(), 1);
    assert_eq!(departures[0].time, departures[0].planned_time);
    assert_eq!(departures[0].realtime_time, None);
}
