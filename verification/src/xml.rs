//! A pull-based view of XML markup events, and the trusted reader behind it.
//!
//! The departure decoder only looks at element boundaries: opening tags,
//! self-closing tags and closing tags, each with its name and raw
//! attributes. Everything else (text, comments, declarations) passes as
//! `Other`. A document's event stream always ends in exactly one terminal
//! event: `Eof`, or `Fail` at the first markup error.

use vstd::prelude::*;
use quick_xml::events::{BytesStart, Event};

verus! {

/// One markup event of a document.
#[derive(Debug)]
pub enum RawEvent {
    /// An opening tag with its name and its attributes in document order,
    /// keys and raw values as written.
    Open { name: String, attrs: Vec<(String, String)> },
    /// A self-closing tag with its name and attributes.
    SelfClose { name: String, attrs: Vec<(String, String)> },
    /// A closing tag with its name.
    Close { name: String },
    /// Markup the decoder does not look at: text, comments, declarations.
    Other,
    /// The end of the document.
    Eof,
    /// A markup error, with the reader's diagnostic.
    Fail(String),
}

/// Whether an event ends the stream.
pub open spec fn is_terminal(ev: RawEvent) -> bool {
    ev is Eof || ev is Fail
}

#[verifier::external_type_specification]
#[verifier::external_body]
#[verifier::reject_recursive_types(R)]
pub struct ExReader<R>(quick_xml::Reader<R>);

#[verifier::external_type_specification]
#[verifier::external_body]
pub struct ExBytesStart<'a>(BytesStart<'a>);

/// Relies on `quick_xml::events::BytesStart::name` and `::attributes`:
/// copies a tag's name and its attribute keys and raw values out of the
/// event, in document order, skipping attributes the reader cannot parse.
#[verifier::external_body]
fn tag_fields(e: &BytesStart<'_>) -> (String, Vec<(String, String)>) {
    (
        e.name().0.to_string(),
        e.attributes().flatten().map(|a| (a.key.0.to_string(), a.value.to_string())).collect(),
    )
}

/// The events a reader has left to yield, in order, ending with the one
/// terminal event.
pub uninterp spec fn reader_stream(r: quick_xml::Reader<&[u8]>) -> Seq<RawEvent>;

/// The event stream of a document: a pure function of its text.
pub uninterp spec fn doc_events(s: Seq<char>) -> Seq<RawEvent>;

/// Relies on `quick_xml::Reader::from_str`: the reader yields the events of
/// the given document, named `doc_events` here; a finite stream whose last
/// event, and only its last, is end-of-file or the first markup error.
#[verifier::external_body]
pub(crate) fn xml_reader<'a>(s: &'a str) -> (r: quick_xml::Reader<&'a [u8]>)
    ensures
        reader_stream(r) == doc_events(s@),
        reader_stream(r).len() >= 1,
        is_terminal(reader_stream(r).last()),
        forall|i: int| 0 <= i < reader_stream(r).len() - 1 ==> !is_terminal(reader_stream(r)[i]),
{
    quick_xml::Reader::from_str(s)
}

/// Relies on `quick_xml::Reader::read_event`: yields the head of the
/// reader's remaining stream; a non-terminal event leaves the tail.
#[verifier::external_body]
pub(crate) fn next_event(r: &mut quick_xml::Reader<&[u8]>) -> (ev: RawEvent)
    ensures
        reader_stream(*old(r)).len() >= 1 ==> {
            &&& ev == reader_stream(*old(r))[0]
            &&& (!is_terminal(ev) ==> reader_stream(*final(r)) == reader_stream(*old(r)).skip(1))
        },
{
    match r.read_event() {
        Ok(Event::Start(e)) => { let (name, attrs) = tag_fields(&e); RawEvent::Open { name, attrs } },
        Ok(Event::Empty(e)) => { let (name, attrs) = tag_fields(&e); RawEvent::SelfClose { name, attrs } },
        Ok(Event::End(e)) => RawEvent::Close { name: e.name().0.to_string() },
        Ok(Event::Eof) => RawEvent::Eof,
        Ok(_) => RawEvent::Other,
        Err(e) => RawEvent::Fail(e.to_string()),
    }
}

/// The raw value of the last attribute named `key`, if any: a later
/// attribute with the same key wins, as the decoder reads them.
pub open spec fn attr_get(attrs: Seq<(String, String)>, key: Seq<char>) -> Option<Seq<char>>
    decreases attrs.len(),
{
    if attrs.len() == 0 {
        None
    } else if attrs.last().0@ == key {
        Some(attrs.last().1@)
    } else {
        attr_get(attrs.drop_last(), key)
    }
}

/// Looks an attribute up by key, the last occurrence winning.
pub fn attr_lookup(attrs: &Vec<(String, String)>, key: &str) -> (r: Option<String>)
    ensures
        (match r {
            Some(v) => attr_get(attrs@, key@) == Some(v@),
            None => attr_get(attrs@, key@) is None,
        }),
{
    let n = attrs.len();
    let mut found: Option<String> = None;
    let mut i: usize = 0;
    proof {
        assert(attrs@.take(0) =~= Seq::<(String, String)>::empty());
    }
    while i < n
        invariant
            n == attrs@.len(),
            i <= n,
            (match found {
                Some(v) => attr_get(attrs@.take(i as int), key@) == Some(v@),
                None => attr_get(attrs@.take(i as int), key@) is None,
            }),
        decreases n - i,
    {
        proof {
            assert(attrs@.take(i + 1).drop_last() =~= attrs@.take(i as int));
            assert(attrs@.take(i + 1).last() == attrs@[i as int]);
        }
        if crate::strutil::str_eq(attrs[i].0.as_str(), key) {
            found = Some(attrs[i].1.clone());
        }
        i += 1;
    }
    proof {
        assert(attrs@.take(n as int) =~= attrs@);
    }
    found
}

} // verus!
