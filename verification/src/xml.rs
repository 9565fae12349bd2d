use vstd::prelude::*;

verus! {

/// A structural event of the markup stream, seen abstractly: a start tag
/// carries its qualified name, a text event its raw (still escaped) content
/// after the reader's trimming. `Fault` stands for a tokenizer failure.
pub ghost enum EvModel {
    Open(Seq<u8>),
    Text(Seq<char>),
    Eof,
    Fault,
    Other,
}

/// A structural event as the tokenizer hands it out.
pub enum RawEvent {
    Open(Vec<u8>),
    Text(String),
    Eof,
    Fault,
    Other,
}

impl View for RawEvent {
    type V = EvModel;

    open spec fn view(&self) -> EvModel {
        match self {
            RawEvent::Open(n) => EvModel::Open(n@),
            RawEvent::Text(t) => EvModel::Text(t@),
            RawEvent::Eof => EvModel::Eof,
            RawEvent::Fault => EvModel::Fault,
            RawEvent::Other => EvModel::Other,
        }
    }
}

#[verifier::external_type_specification]
#[verifier::external_body]
#[verifier::reject_recursive_types(R)]
pub struct ExReader<R>(quick_xml::reader::Reader<R>);

/// The event stream that the tokenizer yields for a document, with text
/// trimming on: the name stands for what `quick_xml`'s reader produces.
pub uninterp spec fn doc_events(doc: Seq<char>) -> Seq<EvModel>;

/// The events a reader has still to yield, excluding the closing `Eof`.
pub uninterp spec fn reader_events(r: quick_xml::reader::Reader<&[u8]>) -> Seq<EvModel>;

/// Relies on `quick_xml::reader::Reader::from_str` and `Config::trim_text`:
/// the reader will replay the document's event stream, trimming text.
#[verifier::external_body]
pub(crate) fn reader_from_str<'a>(s: &'a str) -> (r: quick_xml::reader::Reader<&'a [u8]>)
    ensures
        reader_events(r) == doc_events(s@),
{
    let mut reader = quick_xml::reader::Reader::from_str(s);
    reader.config_mut().trim_text(true);
    reader
}

/// Relies on `quick_xml::reader::Reader::read_event`: yields the next event
/// of the stream, `Eof` once the stream is exhausted, and an error exactly
/// when the tokenizer cannot continue. `BytesStart::name` and the byte view
/// of `BytesText` only copy the event's name and raw content out.
#[verifier::external_body]
pub(crate) fn next_raw_event(r: &mut quick_xml::reader::Reader<&[u8]>) -> (ev: RawEvent)
    ensures
        reader_events(*old(r)).len() == 0 ==> ev@ == EvModel::Eof && reader_events(
            *final(r),
        ).len() == 0,
        reader_events(*old(r)).len() > 0 ==> ev@ == reader_events(*old(r))[0],
        reader_events(*old(r)).len() > 0 && !(reader_events(*old(r))[0] is Fault) ==> reader_events(
            *final(r),
        ) == reader_events(*old(r)).drop_first(),
{
    match r.read_event() {
        Ok(quick_xml::events::Event::Start(e)) => RawEvent::Open(e.name().as_ref().to_vec()),
        Ok(quick_xml::events::Event::Text(e)) => RawEvent::Text(
            String::from_utf8_lossy(e.as_ref()).into_owned(),
        ),
        Ok(quick_xml::events::Event::Eof) => RawEvent::Eof,
        Ok(_) => RawEvent::Other,
        Err(_) => RawEvent::Fault,
    }
}

/// What expanding the escape sequences of a text payload yields, or nothing
/// where an escape is malformed: the name stands for what
/// `quick_xml::escape::unescape` computes, a function of the characters
/// alone.
pub uninterp spec fn unescaped_text(raw: Seq<char>) -> Option<Seq<char>>;

/// An executable unescape result, seen abstractly.
pub open spec fn unescape_model(r: Option<String>) -> Option<Seq<char>> {
    match r {
        None => None,
        Some(u) => Some(u@),
    }
}

/// Relies on `quick_xml::escape::unescape`: expands the XML escape
/// sequences of a text payload, and fails exactly where an escape is
/// malformed.
#[verifier::external_body]
pub(crate) fn unescape_text(raw: &str) -> (r: Option<String>)
    ensures
        unescape_model(r) == unescaped_text(raw@),
{
    match quick_xml::escape::unescape(raw) {
        Ok(u) => Some(u.into_owned()),
        Err(_) => None,
    }
}

} // verus!
