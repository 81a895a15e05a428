//! The header of an envelope: the bytes before the first newline, read as one
//! line of JSON whose member `dsn` names the destination.

use crate::dsn::{destination_of_text, Destination, DestinationView};
use crate::envelope::{BodyError, BodyErrorView};
use crate::json;
use crate::json::{json_error_message, json_member, json_parse, json_text};
use vstd::prelude::*;
use vstd::slice::slice_subrange;
use vstd::string::{StringExecFns, StringSliceAdditionalSpecFns};
use vstd::utf8::{decode_utf8, encode_utf8_decode_utf8, valid_utf8};

verus! {

/// The byte that ends the header.
pub const NEWLINE: u8 = 10;

/// Whether a body has a newline anywhere.
pub open spec fn has_newline(body: Seq<u8>) -> bool {
    exists|i: int| 0 <= i < body.len() && #[trigger] body[i] == NEWLINE
}

/// Whether `end` is where the first newline of `body` stands.
pub open spec fn is_header_end(body: Seq<u8>, end: int) -> bool {
    &&& 0 <= end < body.len()
    &&& body[end] == NEWLINE
    &&& forall|j: int| 0 <= j < end ==> #[trigger] body[j] != NEWLINE
}

/// Where the first newline of `body` stands, if it has one.
pub open spec fn header_end(body: Seq<u8>) -> int {
    choose|end: int| is_header_end(body, end)
}

/// The header line of a body: its bytes before the first newline. An empty
/// body has no header, nor has one without a newline.
pub open spec fn header_line_of(body: Seq<u8>) -> Result<Seq<u8>, BodyErrorView> {
    if body.len() == 0 {
        Err(BodyErrorView::EmptyBody)
    } else if !has_newline(body) {
        Err(BodyErrorView::InvalidNumberOfLines)
    } else {
        Ok(body.subrange(0, header_end(body)))
    }
}

/// A body has at most one first newline, and `header_end` is it.
pub proof fn lemma_header_end_unique(body: Seq<u8>, end: int)
    requires
        is_header_end(body, end),
    ensures
        has_newline(body),
        header_end(body) == end,
{
    let chosen = header_end(body);
    assert(is_header_end(body, chosen));
    if chosen < end {
        assert(body[chosen] != NEWLINE);
    } else if end < chosen {
        assert(body[end] != NEWLINE);
    }
}

/// A body that has a newline has a first one.
pub proof fn lemma_header_end_exists(body: Seq<u8>, i: int)
    requires
        0 <= i < body.len(),
        body[i] == NEWLINE,
    ensures
        is_header_end(body, header_end(body)),
        header_end(body) <= i,
    decreases i,
{
    if exists|j: int| 0 <= j < i && body[j] == NEWLINE {
        let j = choose|j: int| 0 <= j < i && body[j] == NEWLINE;
        lemma_header_end_exists(body, j);
    } else {
        assert(is_header_end(body, i));
        lemma_header_end_unique(body, i);
    }
}

/// The header line of a body that has a newline is what stands before the
/// first newline: it is the start of the body, it holds no newline, and the
/// byte after it is one.
pub proof fn lemma_header_line_is_the_first_line(body: Seq<u8>)
    requires
        has_newline(body),
    ensures
        header_line_of(body) matches Ok(line) && line.len() < body.len() && line == body.take(
            line.len() as int,
        ) && body[line.len() as int] == NEWLINE && !has_newline(line),
{
    let i = choose|i: int| 0 <= i < body.len() && #[trigger] body[i] == NEWLINE;
    lemma_header_end_exists(body, i);
    let line = body.subrange(0, header_end(body));
    assert(line =~= body.take(line.len() as int));
    assert forall|j: int| 0 <= j < line.len() implies #[trigger] line[j] != NEWLINE by {
        assert(line[j] == body[j]);
    }
}

/// Finds the first newline of a body.
pub fn find_newline(body: &[u8]) -> (position: Option<usize>)
    ensures
        match position {
            Some(end) => is_header_end(body@, end as int),
            None => !has_newline(body@),
        },
{
    let mut i: usize = 0;
    while i < body.len()
        invariant
            i <= body.len(),
            forall|j: int| 0 <= j < i ==> #[trigger] body@[j] != NEWLINE,
        decreases body.len() - i,
    {
        if body[i] == NEWLINE {
            return Some(i);
        }
        i += 1;
    }
    None
}

/// Takes the header line off a body.
pub fn header_line(body: &[u8]) -> (line: Result<&[u8], BodyError>)
    ensures
        match line {
            Ok(bytes) => header_line_of(body@) == Ok::<Seq<u8>, BodyErrorView>(bytes@),
            Err(e) => header_line_of(body@) == Err::<Seq<u8>, BodyErrorView>(e@),
        },
        line matches Ok(bytes) ==> is_header_end(body@, bytes@.len() as int) && bytes@
            == body@.subrange(0, bytes@.len() as int),
        line is Ok <==> has_newline(body@),
{
    if body.len() == 0 {
        return Err(BodyError::EmptyBody);
    }
    match find_newline(body) {
        Some(end) => {
            proof {
                lemma_header_end_unique(body@, end as int);
            }
            Ok(slice_subrange(body, 0, end))
        },
        None => Err(BodyError::InvalidNumberOfLines),
    }
}

/// Calls `std::str::from_utf8`, which checks that the bytes are UTF-8 and then
/// hands the same bytes back as a string slice. The contract says so over
/// vstd's definition of UTF-8: the call succeeds on exactly the valid byte
/// strings, and the bytes of the text are the bytes given.
#[verifier::external_body]
fn str_from_utf8(bytes: &[u8]) -> (decoded: Option<&str>)
    ensures
        decoded is Some <==> valid_utf8(bytes@),
        decoded matches Some(t) ==> t.spec_bytes() == bytes@,
{
    match std::str::from_utf8(bytes) {
        Ok(t) => Some(t),
        Err(_) => None,
    }
}

/// The text of a header line. A line that is not UTF-8 has none, and the
/// failure is reported as one of reading the header's JSON.
pub open spec fn header_text_of(line: Seq<u8>) -> Result<Seq<char>, BodyErrorView> {
    if valid_utf8(line) {
        Ok(decode_utf8(line))
    } else {
        Err(BodyErrorView::InvalidHeaderJson("Header contains invalid UTF-8"@))
    }
}

/// Decodes a header line.
pub fn header_text(line: &[u8]) -> (decoded: Result<&str, BodyError>)
    ensures
        match decoded {
            Ok(t) => header_text_of(line@) == Ok::<Seq<char>, BodyErrorView>(t@),
            Err(e) => header_text_of(line@) == Err::<Seq<char>, BodyErrorView>(e@),
        },
{
    match str_from_utf8(line) {
        Some(t) => {
            proof {
                encode_utf8_decode_utf8(t@);
            }
            Ok(t)
        },
        None => Err(BodyError::InvalidHeaderJson(String::from_str("Header contains invalid UTF-8"))),
    }
}

/// What looking for the DSN in a header comes to.
#[derive(Debug, Clone, PartialEq, Eq)]
pub enum DsnLookup {
    /// The header is not JSON; the detail is the reader's.
    NotJson(String),
    /// The header is JSON, and nothing stands under `dsn`.
    Missing,
    /// What stands under `dsn` is not a string.
    NotText,
    /// The string under `dsn`.
    Found(String),
}

/// A [`DsnLookup`] as contracts see it.
pub enum DsnLookupView {
    NotJson(Seq<char>),
    Missing,
    NotText,
    Found(Seq<char>),
}

impl View for DsnLookup {
    type V = DsnLookupView;

    open spec fn view(&self) -> DsnLookupView {
        match self {
            DsnLookup::NotJson(detail) => DsnLookupView::NotJson(detail@),
            DsnLookup::Missing => DsnLookupView::Missing,
            DsnLookup::NotText => DsnLookupView::NotText,
            DsnLookup::Found(dsn) => DsnLookupView::Found(dsn@),
        }
    }
}

/// What the JSON reader finds under `dsn` in a header.
pub open spec fn dsn_lookup_of(header: Seq<char>) -> DsnLookupView {
    match json_parse(header) {
        Err(error) => DsnLookupView::NotJson(json_error_message(error)),
        Ok(value) => match json_member(value, "dsn"@) {
            None => DsnLookupView::Missing,
            Some(found) => match json_text(found) {
                None => DsnLookupView::NotText,
                Some(dsn) => DsnLookupView::Found(dsn),
            },
        },
    }
}

/// Reads a header as JSON and looks under `dsn`.
pub fn look_up_dsn(header: &str) -> (lookup: DsnLookup)
    ensures
        lookup@ == dsn_lookup_of(header@),
{
    match json::from_str(header) {
        Err(error) => DsnLookup::NotJson(json::to_string(&error)),
        Ok(value) => match json::get(&value, "dsn") {
            None => DsnLookup::Missing,
            Some(found) => match json::as_str(found) {
                None => DsnLookup::NotText,
                Some(dsn) => DsnLookup::Found(dsn.to_owned()),
            },
        },
    }
}

/// The DSN text that a lookup gives, or the reason why it gives none.
pub open spec fn dsn_text_of_lookup(lookup: DsnLookupView) -> Result<Seq<char>, BodyErrorView> {
    match lookup {
        DsnLookupView::NotJson(detail) => Err(BodyErrorView::InvalidHeaderJson(detail)),
        DsnLookupView::Missing => Err(BodyErrorView::MissingDsnKeyInHeader),
        DsnLookupView::NotText => Err(BodyErrorView::InvalidDsnValue),
        DsnLookupView::Found(dsn) => Ok(dsn),
    }
}

/// Judges a lookup: the DSN text if one was found, else the error that the
/// client is told.
pub fn dsn_text_found(lookup: DsnLookup) -> (dsn: Result<String, BodyError>)
    ensures
        match dsn {
            Ok(t) => dsn_text_of_lookup(lookup@) == Ok::<Seq<char>, BodyErrorView>(t@),
            Err(e) => dsn_text_of_lookup(lookup@) == Err::<Seq<char>, BodyErrorView>(e@),
        },
{
    match lookup {
        DsnLookup::NotJson(detail) => Err(BodyError::InvalidHeaderJson(detail)),
        DsnLookup::Missing => Err(BodyError::MissingDsnKeyInHeader),
        DsnLookup::NotText => Err(BodyError::InvalidDsnValue),
        DsnLookup::Found(dsn) => Ok(dsn),
    }
}

/// The DSN text that a header holds: the string under its member `dsn`.
pub open spec fn dsn_text_of(header: Seq<char>) -> Result<Seq<char>, BodyErrorView> {
    dsn_text_of_lookup(dsn_lookup_of(header))
}

/// Reads a header as JSON and gives the string under `dsn`.
pub fn dsn_text(header: &str) -> (dsn: Result<String, BodyError>)
    ensures
        match dsn {
            Ok(t) => dsn_text_of(header@) == Ok::<Seq<char>, BodyErrorView>(t@),
            Err(e) => dsn_text_of(header@) == Err::<Seq<char>, BodyErrorView>(e@),
        },
{
    dsn_text_found(look_up_dsn(header))
}

/// The destination that a header names.
pub open spec fn destination_of_header(header: Seq<char>) -> Result<
    DestinationView,
    BodyErrorView,
> {
    match dsn_text_of(header) {
        Err(e) => Err(e),
        Ok(dsn) => match destination_of_text(dsn) {
            None => Err(BodyErrorView::InvalidDsnValue),
            Some(destination) => Ok(destination),
        },
    }
}

/// Reads the destination that a header names.
pub fn destination(header: &str) -> (named: Result<Destination, BodyError>)
    ensures
        match named {
            Ok(d) => destination_of_header(header@) == Ok::<DestinationView, BodyErrorView>(d@),
            Err(e) => destination_of_header(header@) == Err::<DestinationView, BodyErrorView>(e@),
        },
{
    match dsn_text(header) {
        Err(e) => Err(e),
        Ok(dsn) => match Destination::parse(dsn.as_str()) {
            None => Err(BodyError::InvalidDsnValue),
            Some(d) => Ok(d),
        },
    }
}

} // verus!
