//! The departure decoder: a single forward scan over the markup events of a
//! departure-monitor XML document, reconstructing one record per complete
//! departure element.

use vstd::prelude::*;
use crate::strutil::{
    push_two_digits, spec_parse_u8, two_digits, parse_u8_str, str_eq,
};
use crate::text::{decoded, decode_text};
use crate::xml::{
    attr_get, attr_lookup, doc_events, is_terminal, next_event, reader_stream, xml_reader,
    RawEvent,
};

verus! {

/// One upcoming departure out of the departure-monitor response.
#[derive(Clone, Debug, PartialEq)]
pub struct Departure {
    /// The line symbol or number.
    pub line: String,
    /// The destination, entity-decoded, when the serving line carried one.
    pub direction: Option<String>,
    /// The time to display: the real-time time when one was reported, else
    /// the scheduled time. Always `"HH:MM"`.
    pub time: String,
    /// The scheduled time, always present.
    pub planned_time: String,
    /// The real-time time, only when real-time data was reported.
    pub realtime_time: Option<String>,
}

/// The mathematical shadow of a `Departure`.
#[verifier::ext_equal]
pub ghost struct SpecDeparture {
    pub line: Seq<char>,
    pub direction: Option<Seq<char>>,
    pub time: Seq<char>,
    pub planned_time: Seq<char>,
    pub realtime_time: Option<Seq<char>>,
}

impl View for Departure {
    type V = SpecDeparture;

    open spec fn view(&self) -> SpecDeparture {
        SpecDeparture {
            line: self.line@,
            direction: opt_view(self.direction),
            time: self.time@,
            planned_time: self.planned_time@,
            realtime_time: opt_view(self.realtime_time),
        }
    }
}

pub open spec fn opt_view(o: Option<String>) -> Option<Seq<char>> {
    match o {
        Some(s) => Some(s@),
        None => None,
    }
}

/// A sequence of departures, seen through their views.
pub open spec fn deps_view(s: Seq<Departure>) -> Seq<SpecDeparture> {
    s.map_values(|d: Departure| d@)
}

/// What a time leaf's attributes yield: `"HH:MM"` from the `hour` and
/// `minute` attributes, both two-place zero-padded, or nothing when either
/// is missing or does not parse as a small decimal integer.
pub open spec fn time_of_attrs(attrs: Seq<(String, String)>) -> Option<Seq<char>> {
    match (attr_get(attrs, "hour"@), attr_get(attrs, "minute"@)) {
        (Some(h), Some(m)) => match (spec_parse_u8(h), spec_parse_u8(m)) {
            (Some(hh), Some(mm)) => Some(
                two_digits(hh as nat) + seq![':'] + two_digits(mm as nat),
            ),
            _ => None,
        },
        _ => None,
    }
}

/// The line a serving-line element names: its `symbol` attribute, falling
/// back to `number`.
pub open spec fn line_of_attrs(attrs: Seq<(String, String)>) -> Option<Seq<char>> {
    match attr_get(attrs, "symbol"@) {
        Some(s) => Some(s),
        None => attr_get(attrs, "number"@),
    }
}

/// The entity-decoded `direction` attribute of a serving-line element.
pub open spec fn direction_of_attrs(attrs: Seq<(String, String)>) -> Option<Seq<char>> {
    match attr_get(attrs, "direction"@) {
        Some(d) => Some(decoded(d)),
        None => None,
    }
}

/// The scanner's whole state: position flags, the per-record accumulators,
/// and the records emitted so far.
#[verifier::ext_equal]
pub ghost struct ScanState {
    pub in_departure: bool,
    pub in_datetime: bool,
    pub in_rt_datetime: bool,
    pub line: Option<Seq<char>>,
    pub direction: Option<Seq<char>>,
    pub time: Option<Seq<char>>,
    pub planned: Option<Seq<char>>,
    pub realtime: Option<Seq<char>>,
    pub out: Seq<SpecDeparture>,
}

pub open spec fn init_scan() -> ScanState {
    ScanState {
        in_departure: false,
        in_datetime: false,
        in_rt_datetime: false,
        line: None,
        direction: None,
        time: None,
        planned: None,
        realtime: None,
        out: Seq::empty(),
    }
}

/// A time or serving-line leaf, reached from an opening or a self-closing
/// tag alike.
pub open spec fn step_leaf(st: ScanState, name: Seq<char>, attrs: Seq<(String, String)>) -> ScanState {
    if name == "itdTime"@ && st.in_departure && st.in_datetime {
        match time_of_attrs(attrs) {
            Some(t) => ScanState {
                planned: Some(t),
                time: if st.realtime is None {
                    Some(t)
                } else {
                    st.time
                },
                ..st
            },
            None => st,
        }
    } else if name == "itdTime"@ && st.in_departure && st.in_rt_datetime {
        match time_of_attrs(attrs) {
            Some(t) => ScanState { realtime: Some(t), time: Some(t), ..st },
            None => st,
        }
    } else if name == "itdServingLine"@ && st.in_departure {
        ScanState { line: line_of_attrs(attrs), direction: direction_of_attrs(attrs), ..st }
    } else {
        st
    }
}

/// An opening tag: a departure boundary resets the accumulators; the two
/// date-time containers raise their flag, each at most once per departure;
/// anything else is treated as a leaf.
pub open spec fn step_open(st: ScanState, name: Seq<char>, attrs: Seq<(String, String)>) -> ScanState {
    if name == "itdDeparture"@ {
        ScanState {
            in_departure: true,
            line: None,
            direction: None,
            time: None,
            planned: None,
            realtime: None,
            ..st
        }
    } else if name == "itdDateTime"@ && st.in_departure {
        if st.time is None {
            ScanState { in_datetime: true, ..st }
        } else {
            st
        }
    } else if name == "itdRTDateTime"@ && st.in_departure {
        if st.realtime is None {
            ScanState { in_rt_datetime: true, ..st }
        } else {
            st
        }
    } else {
        step_leaf(st, name, attrs)
    }
}

/// A closing tag: the date-time containers lower their flag; a departure
/// boundary emits a record when a line and both times were collected, and
/// always clears the line and time accumulators.
pub open spec fn step_close(st: ScanState, name: Seq<char>) -> ScanState {
    if name == "itdDateTime"@ {
        ScanState { in_datetime: false, ..st }
    } else if name == "itdRTDateTime"@ {
        ScanState { in_rt_datetime: false, ..st }
    } else if name == "itdDeparture"@ {
        if st.line is Some && st.time is Some && st.planned is Some {
            ScanState {
                in_departure: false,
                line: None,
                direction: None,
                time: None,
                planned: None,
                realtime: None,
                out: st.out.push(
                    SpecDeparture {
                        line: st.line->0,
                        direction: st.direction,
                        time: st.time->0,
                        planned_time: st.planned->0,
                        realtime_time: st.realtime,
                    },
                ),
                ..st
            }
        } else {
            ScanState { in_departure: false, line: None, time: None, planned: None, ..st }
        }
    } else {
        st
    }
}

/// One event of the stream.
pub open spec fn step(st: ScanState, ev: RawEvent) -> ScanState {
    match ev {
        RawEvent::Open { name, attrs } => step_open(st, name@, attrs@),
        RawEvent::SelfClose { name, attrs } => step_leaf(st, name@, attrs@),
        RawEvent::Close { name } => step_close(st, name@),
        _ => st,
    }
}

/// The state after the first `n` events.
pub open spec fn scan(evs: Seq<RawEvent>, n: int) -> ScanState
    decreases n,
{
    if n <= 0 {
        init_scan()
    } else {
        step(scan(evs, n - 1), evs[n - 1])
    }
}

/// The records a whole event stream emits: everything emitted before the
/// stream's terminal event.
pub open spec fn departures_of(evs: Seq<RawEvent>) -> Seq<SpecDeparture> {
    scan(evs, evs.len() - 1).out
}

/// A record's displayed time agrees with its real-time time when one is
/// present, else with its scheduled time.
pub open spec fn time_consistent(d: SpecDeparture) -> bool {
    match d.realtime_time {
        Some(rt) => d.time == rt,
        None => d.time == d.planned_time,
    }
}

/// The invariant the scan maintains: inside a departure the displayed-time
/// accumulator tracks the real-time one when it is set and the scheduled one
/// otherwise; outside one, the per-record accumulators are clear; and every
/// emitted record is time-consistent.
pub open spec fn scan_ok(st: ScanState) -> bool {
    &&& (!st.in_departure ==> st.line is None && st.time is None && st.planned is None)
    &&& (st.in_departure ==> (match st.realtime {
        Some(rt) => st.time == Some(rt),
        None => st.time == st.planned,
    }))
    &&& (forall|k: int| 0 <= k < st.out.len() ==> time_consistent(#[trigger] st.out[k]))
}

proof fn lemma_scan_ok(evs: Seq<RawEvent>, n: int)
    requires
        n <= evs.len(),
    ensures
        scan_ok(scan(evs, n)),
    decreases n,
{
    if n > 0 {
        lemma_scan_ok(evs, n - 1);
    }
}

/// Every record a stream's scan emits shows the real-time time when one was
/// reported for it, and the scheduled time otherwise.
pub proof fn lemma_time_prefers_realtime(evs: Seq<RawEvent>)
    ensures
        forall|k: int|
            0 <= k < departures_of(evs).len() ==> time_consistent(
                #[trigger] departures_of(evs)[k],
            ),
{
    lemma_scan_ok(evs, evs.len() - 1);
}

/// Whether an event is an opening tag named `n`.
pub open spec fn is_open_named(ev: RawEvent, n: Seq<char>) -> bool {
    ev matches RawEvent::Open { name, .. } && name@ == n
}

/// Whether an event is a closing tag named `n`.
pub open spec fn is_close_named(ev: RawEvent, n: Seq<char>) -> bool {
    ev matches RawEvent::Close { name } && name@ == n
}

/// Whether an event is a leaf (opening or self-closing) that could feed a
/// record: a time or serving-line element.
pub open spec fn is_record_leaf(ev: RawEvent) -> bool {
    match ev {
        RawEvent::Open { name, .. } => name@ == "itdTime"@ || name@ == "itdServingLine"@,
        RawEvent::SelfClose { name, .. } => name@ == "itdTime"@ || name@ == "itdServingLine"@,
        _ => false,
    }
}

proof fn lemma_no_leaf_no_line(evs: Seq<RawEvent>, i: int, j: int, k: int)
    requires
        0 <= i < j < evs.len(),
        is_open_named(evs[i], "itdDeparture"@),
        forall|l: int| i < l < j ==> !is_record_leaf(#[trigger] evs[l]),
        i + 1 <= k <= j,
    ensures
        scan(evs, k).line is None,
        scan(evs, k).out == scan(evs, i).out,
    decreases k,
{
    if k == i + 1 {
        assert(scan(evs, k) == step(scan(evs, i), evs[i]));
    } else {
        lemma_no_leaf_no_line(evs, i, j, k - 1);
        assert(scan(evs, k) == step(scan(evs, k - 1), evs[k - 1]));
        assert(!is_record_leaf(evs[k - 1]));
    }
}

/// A departure element that contains no time leaf and no serving-line leaf
/// emits nothing: closing it leaves the output exactly as it stood when the
/// element opened.
pub proof fn lemma_empty_departure_dropped(evs: Seq<RawEvent>, i: int, j: int)
    requires
        0 <= i < j < evs.len(),
        is_open_named(evs[i], "itdDeparture"@),
        is_close_named(evs[j], "itdDeparture"@),
        forall|l: int| i < l < j ==> !is_record_leaf(#[trigger] evs[l]),
    ensures
        scan(evs, j + 1).out == scan(evs, i).out,
{
    lemma_no_leaf_no_line(evs, i, j, j);
    assert(scan(evs, j + 1) == step(scan(evs, j), evs[j]));
}

/// Reads the `hour` and `minute` attributes of a time leaf.
pub fn parse_time_from_attrs(attrs: &Vec<(String, String)>) -> (r: Option<String>)
    ensures
        (match r {
            Some(t) => time_of_attrs(attrs@) == Some(t@),
            None => time_of_attrs(attrs@) is None,
        }),
{
    let h = match attr_lookup(attrs, "hour") {
        Some(h) => h,
        None => {
            return None;
        },
    };
    let m = match attr_lookup(attrs, "minute") {
        Some(m) => m,
        None => {
            return None;
        },
    };
    let hh = match parse_u8_str(h.as_str()) {
        Some(v) => v,
        None => {
            return None;
        },
    };
    let mm = match parse_u8_str(m.as_str()) {
        Some(v) => v,
        None => {
            return None;
        },
    };
    let mut s = String::new();
    push_two_digits(&mut s, hh);
    s.append(":");
    push_two_digits(&mut s, mm);
    proof {
        reveal_strlit(":");
        assert(s@ =~= two_digits(hh as nat) + seq![':'] + two_digits(mm as nat));
    }
    Some(s)
}

/// Reads a serving-line element's attributes into the line and direction
/// accumulators, the latest element winning.
pub fn parse_serving_line_attrs(
    attrs: &Vec<(String, String)>,
    current_line: &mut Option<String>,
    current_direction: &mut Option<String>,
)
    ensures
        opt_view(*final(current_line)) == line_of_attrs(attrs@),
        opt_view(*final(current_direction)) == direction_of_attrs(attrs@),
{
    let number = attr_lookup(attrs, "number");
    *current_line = match attr_lookup(attrs, "symbol") {
        Some(s) => Some(s),
        None => number,
    };
    *current_direction = match attr_lookup(attrs, "direction") {
        Some(d) => Some(decode_text(d.as_str())),
        None => None,
    };
}

/// The exec scanner's state, assembled for the specification.
pub open spec fn st_of(
    in_departure: bool,
    in_datetime: bool,
    in_rt_datetime: bool,
    line: Option<String>,
    direction: Option<String>,
    time: Option<String>,
    planned: Option<String>,
    realtime: Option<String>,
    out: Seq<Departure>,
) -> ScanState {
    ScanState {
        in_departure: in_departure,
        in_datetime: in_datetime,
        in_rt_datetime: in_rt_datetime,
        line: opt_view(line),
        direction: opt_view(direction),
        time: opt_view(time),
        planned: opt_view(planned),
        realtime: opt_view(realtime),
        out: deps_view(out),
    }
}

/// Decodes a departure-monitor response. Fails exactly when the markup is
/// malformed, with the reader's diagnostic; otherwise yields the records of
/// the event-stream scan, in document order.
pub fn parse_departures_xml(xml: &str) -> (r: Result<Vec<Departure>, String>)
    ensures
        (match r {
            Ok(ds) => doc_events(xml@).last() is Eof && deps_view(ds@) == departures_of(
                doc_events(xml@),
            ),
            Err(e) => doc_events(xml@).last() matches RawEvent::Fail(m) && e == m,
        }),
{
    let mut reader = xml_reader(xml);
    let ghost evs = doc_events(xml@);
    let mut in_departure = false;
    let mut in_datetime = false;
    let mut in_rt_datetime = false;
    let mut current_line: Option<String> = None;
    let mut current_direction: Option<String> = None;
    let mut current_time: Option<String> = None;
    let mut planned_time: Option<String> = None;
    let mut realtime_time: Option<String> = None;
    let mut departures: Vec<Departure> = Vec::new();
    let ghost mut i: int = 0;
    proof {
        assert(evs.skip(0) =~= evs);
        assert(deps_view(departures@) =~= Seq::<SpecDeparture>::empty());
    }
    loop
        invariant
            evs == doc_events(xml@),
            evs.len() >= 1,
            is_terminal(evs.last()),
            forall|j: int| 0 <= j < evs.len() - 1 ==> !is_terminal(evs[j]),
            0 <= i <= evs.len() - 1,
            reader_stream(reader) == evs.skip(i),
            scan(evs, i) == st_of(
                in_departure,
                in_datetime,
                in_rt_datetime,
                current_line,
                current_direction,
                current_time,
                planned_time,
                realtime_time,
                departures@,
            ),
        decreases evs.len() - 1 - i,
    {
        let ev = next_event(&mut reader);
        proof {
            assert(evs.skip(i).len() >= 1);
            assert(ev == evs[i]);
            assert(evs.skip(i).skip(1) =~= evs.skip(i + 1));
        }
        match ev {
            RawEvent::Eof => {
                proof {
                    assert(i == evs.len() - 1);
                }
                return Ok(departures);
            },
            RawEvent::Fail(m) => {
                proof {
                    assert(i == evs.len() - 1);
                }
                return Err(m);
            },
            RawEvent::Open { name, attrs } => {
                if str_eq(name.as_str(), "itdDeparture") {
                    in_departure = true;
                    current_line = None;
                    current_direction = None;
                    current_time = None;
                    planned_time = None;
                    realtime_time = None;
                } else if str_eq(name.as_str(), "itdDateTime") {
                    if in_departure && current_time.is_none() {
                        in_datetime = true;
                    }
                } else if str_eq(name.as_str(), "itdRTDateTime") {
                    if in_departure && realtime_time.is_none() {
                        in_rt_datetime = true;
                    }
                } else if str_eq(name.as_str(), "itdTime") && in_departure && in_datetime {
                    if let Some(t) = parse_time_from_attrs(&attrs) {
                        planned_time = Some(t.clone());
                        if realtime_time.is_none() {
                            current_time = Some(t);
                        }
                    }
                } else if str_eq(name.as_str(), "itdTime") && in_departure && in_rt_datetime {
                    if let Some(t) = parse_time_from_attrs(&attrs) {
                        realtime_time = Some(t.clone());
                        current_time = Some(t);
                    }
                } else if str_eq(name.as_str(), "itdServingLine") && in_departure {
                    parse_serving_line_attrs(&attrs, &mut current_line, &mut current_direction);
                }
                proof {
                    assert(scan(evs, i + 1) =~= st_of(
                        in_departure,
                        in_datetime,
                        in_rt_datetime,
                        current_line,
                        current_direction,
                        current_time,
                        planned_time,
                        realtime_time,
                        departures@,
                    ));
                }
            },
            RawEvent::SelfClose { name, attrs } => {
                if str_eq(name.as_str(), "itdTime") && in_departure && in_datetime {
                    if let Some(t) = parse_time_from_attrs(&attrs) {
                        planned_time = Some(t.clone());
                        if realtime_time.is_none() {
                            current_time = Some(t);
                        }
                    }
                } else if str_eq(name.as_str(), "itdTime") && in_departure && in_rt_datetime {
                    if let Some(t) = parse_time_from_attrs(&attrs) {
                        realtime_time = Some(t.clone());
                        current_time = Some(t);
                    }
                } else if str_eq(name.as_str(), "itdServingLine") && in_departure {
                    parse_serving_line_attrs(&attrs, &mut current_line, &mut current_direction);
                }
                proof {
                    assert(scan(evs, i + 1) =~= st_of(
                        in_departure,
                        in_datetime,
                        in_rt_datetime,
                        current_line,
                        current_direction,
                        current_time,
                        planned_time,
                        realtime_time,
                        departures@,
                    ));
                }
            },
            RawEvent::Close { name } => {
                if str_eq(name.as_str(), "itdDateTime") {
                    in_datetime = false;
                } else if str_eq(name.as_str(), "itdRTDateTime") {
                    in_rt_datetime = false;
                } else if str_eq(name.as_str(), "itdDeparture") {
                    let lv = current_line;
                    current_line = None;
                    let tv = current_time;
                    current_time = None;
                    let pv = planned_time;
                    planned_time = None;
                    if let (Some(line), Some(time), Some(planned)) = (lv, tv, pv) {
                        let d = Departure {
                            line: line,
                            direction: current_direction,
                            time: time,
                            planned_time: planned,
                            realtime_time: realtime_time,
                        };
                        current_direction = None;
                        realtime_time = None;
                        departures.push(d);
                        proof {
                            assert(deps_view(departures@) =~= deps_view(
                                departures@.drop_last(),
                            ).push(d@));
                        }
                    }
                    in_departure = false;
                }
                proof {
                    assert(scan(evs, i + 1) =~= st_of(
                        in_departure,
                        in_datetime,
                        in_rt_datetime,
                        current_line,
                        current_direction,
                        current_time,
                        planned_time,
                        realtime_time,
                        departures@,
                    ));
                }
            },
            RawEvent::Other => {
                proof {
                    assert(scan(evs, i + 1) =~= scan(evs, i));
                }
            },
        }
        proof {
            i = i + 1;
        }
    }
}

} // verus!
