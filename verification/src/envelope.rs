//! Envelopes: the unit of work that the tunnel validates and forwards.

use crate::config::{host_is_listed, hosts_contain, Host};
use crate::dsn::{Destination, DestinationView};
use crate::header::{destination, destination_of_header, dsn_lookup_of, has_newline, header_line,
    header_line_of, header_text, header_text_of};
use vstd::prelude::*;
use vstd::string::StringExecFns;

verus! {

/// Why a request body is not an envelope that the tunnel forwards.
#[derive(Debug, Clone, PartialEq, Eq)]
pub enum BodyError {
    /// The body has no newline, so no item follows the header.
    InvalidNumberOfLines,
    /// The header line is not JSON text; the detail says why.
    InvalidHeaderJson(String),
    /// The header has no member `dsn`.
    MissingDsnKeyInHeader,
    /// The header's `dsn` is not a string, or the string is not a DSN.
    InvalidDsnValue,
    /// The destination's project is not one that the operator allows.
    InvalidProjectId,
    /// The body has no bytes.
    EmptyBody,
}

/// A [`BodyError`] as contracts see it.
pub enum BodyErrorView {
    InvalidNumberOfLines,
    InvalidHeaderJson(Seq<char>),
    MissingDsnKeyInHeader,
    InvalidDsnValue,
    InvalidProjectId,
    EmptyBody,
}

impl View for BodyError {
    type V = BodyErrorView;

    open spec fn view(&self) -> BodyErrorView {
        match self {
            BodyError::InvalidNumberOfLines => BodyErrorView::InvalidNumberOfLines,
            BodyError::InvalidHeaderJson(detail) => BodyErrorView::InvalidHeaderJson(detail@),
            BodyError::MissingDsnKeyInHeader => BodyErrorView::MissingDsnKeyInHeader,
            BodyError::InvalidDsnValue => BodyErrorView::InvalidDsnValue,
            BodyError::InvalidProjectId => BodyErrorView::InvalidProjectId,
            BodyError::EmptyBody => BodyErrorView::EmptyBody,
        }
    }
}

impl BodyErrorView {
    /// The text that the client is answered with.
    pub open spec fn message(self) -> Seq<char> {
        match self {
            BodyErrorView::InvalidNumberOfLines =>
                "Invalid number of lines in request body. Must have at least 2 lines (header and at least one item)."@,
            BodyErrorView::InvalidHeaderJson(detail) => "Failed to parse header json : "@ + detail,
            BodyErrorView::MissingDsnKeyInHeader => "The dsn key is missing from the header"@,
            BodyErrorView::InvalidDsnValue => "Failed to parse dsn value"@,
            BodyErrorView::InvalidProjectId => "Unauthorized project ID"@,
            BodyErrorView::EmptyBody => "Empty request body"@,
        }
    }
}

impl BodyError {
    /// The text that the client is answered with.
    pub fn to_string(&self) -> (message: String)
        ensures
            message@ == self@.message(),
    {
        match self {
            BodyError::InvalidNumberOfLines => String::from_str(
                "Invalid number of lines in request body. Must have at least 2 lines (header and at least one item).",
            ),
            BodyError::InvalidHeaderJson(detail) => {
                let mut message = String::from_str("Failed to parse header json : ");
                message.append(detail.as_str());
                message
            },
            BodyError::MissingDsnKeyInHeader => String::from_str(
                "The dsn key is missing from the header",
            ),
            BodyError::InvalidDsnValue => String::from_str("Failed to parse dsn value"),
            BodyError::InvalidProjectId => String::from_str("Unauthorized project ID"),
            BodyError::EmptyBody => String::from_str("Empty request body"),
        }
    }
}

/// An envelope that was read: the bytes as they came, and the destination
/// that their header names.
#[derive(Debug)]
pub struct SentryEnvelope {
    /// The request body, byte for byte.
    pub raw_body: Vec<u8>,
    /// The destination that the header names.
    pub dsn: Destination,
}

/// A [`SentryEnvelope`] as contracts see it.
pub struct EnvelopeView {
    pub raw_body: Seq<u8>,
    pub dsn: DestinationView,
}

impl View for SentryEnvelope {
    type V = EnvelopeView;

    open spec fn view(&self) -> EnvelopeView {
        EnvelopeView { raw_body: self.raw_body@, dsn: self.dsn@ }
    }
}

/// A request that the tunnel asks to have sent.
#[derive(Debug, Clone, PartialEq, Eq)]
pub struct ForwardRequest {
    /// The HTTP method.
    pub method: String,
    /// Where the request goes.
    pub uri: String,
    /// The header fields, each a name and a value.
    pub headers: Vec<(String, String)>,
    /// The bytes to send.
    pub body: Vec<u8>,
}

/// A [`ForwardRequest`] as contracts see it.
pub struct ForwardRequestView {
    pub method: Seq<char>,
    pub uri: Seq<char>,
    pub headers: Seq<(Seq<char>, Seq<char>)>,
    pub body: Seq<u8>,
}

impl View for ForwardRequest {
    type V = ForwardRequestView;

    open spec fn view(&self) -> ForwardRequestView {
        ForwardRequestView {
            method: self.method@,
            uri: self.uri@,
            headers: Seq::new(self.headers@.len(), |i: int| (self.headers@[i].0@, self.headers@[i].1@)),
            body: self.body@,
        }
    }
}

/// The request that forwards an envelope.
pub open spec fn forward_of(envelope: EnvelopeView) -> ForwardRequestView {
    ForwardRequestView {
        method: "POST"@,
        uri: envelope.dsn.envelope_api_url + "?sentry_key="@ + envelope.dsn.public_key,
        headers: seq![("Content-type"@, "application/x-sentry-envelope"@)],
        body: envelope.raw_body,
    }
}

/// What reading a body gives: the envelope that holds the whole body and the
/// destination of its header, or the first reason why there is none.
pub open spec fn envelope_of(body: Seq<u8>) -> Result<EnvelopeView, BodyErrorView> {
    match header_line_of(body) {
        Err(e) => Err(e),
        Ok(line) => match header_text_of(line) {
            Err(e) => Err(e),
            Ok(header) => match destination_of_header(header) {
                Err(e) => Err(e),
                Ok(dsn) => Ok(EnvelopeView { raw_body: body, dsn }),
            },
        },
    }
}

impl SentryEnvelope {
    /// An envelope is well formed when it is what reading its own bytes gives.
    pub open spec fn wf(&self) -> bool {
        envelope_of(self.raw_body@) == Ok::<EnvelopeView, BodyErrorView>(self@)
    }

    /// Reads a request body as an envelope. Only the header line is
    /// interpreted; the envelope keeps the body as it came.
    pub fn try_new_from_body(body: Vec<u8>) -> (read: Result<SentryEnvelope, BodyError>)
        ensures
            match read {
                Ok(envelope) => envelope_of(body@) == Ok::<EnvelopeView, BodyErrorView>(envelope@),
                Err(e) => envelope_of(body@) == Err::<EnvelopeView, BodyErrorView>(e@),
            },
            read matches Ok(envelope) ==> envelope.raw_body@ == body@ && envelope.wf(),
    {
        let dsn = match header_line(body.as_slice()) {
            Err(e) => {
                return Err(e);
            },
            Ok(line) => match header_text(line) {
                Err(e) => {
                    return Err(e);
                },
                Ok(header) => match destination(header) {
                    Err(e) => {
                        return Err(e);
                    },
                    Ok(dsn) => dsn,
                },
            },
        };
        Ok(SentryEnvelope { raw_body: body, dsn })
    }

    /// Whether the envelope's destination is one of the hosts that the
    /// operator allows. Hosts are compared as text, exactly.
    pub fn dsn_host_is_valid(&self, host: &[Host]) -> (valid: bool)
        ensures
            valid == hosts_contain(host@, self@.dsn.host),
    {
        host_is_listed(host, &self.dsn.host)
    }

    /// The request that forwards this envelope to its destination: one POST
    /// to the destination's envelope endpoint, with the public key as the
    /// query and the body as it came.
    pub fn forward(&self) -> (request: ForwardRequest)
        ensures
            request@ == forward_of(self@),
    {
        let mut uri = self.dsn.envelope_api_url.clone();
        uri.append("?sentry_key=");
        uri.append(self.dsn.public_key.as_str());
        let mut headers: Vec<(String, String)> = Vec::new();
        headers.push(
            (String::from_str("Content-type"), String::from_str("application/x-sentry-envelope")),
        );
        let request = ForwardRequest {
            method: String::from_str("POST"),
            uri,
            headers,
            body: self.raw_body.clone(),
        };
        assert(request@.headers =~= forward_of(self@).headers);
        request
    }
}

/// The empty body is refused as empty, and the refusal reads
/// "Empty request body".
pub proof fn lemma_empty_body_is_refused(body: Seq<u8>)
    requires
        body.len() == 0,
    ensures
        envelope_of(body) == Err::<EnvelopeView, BodyErrorView>(BodyErrorView::EmptyBody),
        BodyErrorView::EmptyBody.message() == "Empty request body"@,
{
}

/// A body that has bytes but no newline is refused for its number of lines,
/// and the refusal says that a header and at least one item are needed.
pub proof fn lemma_single_line_is_refused(body: Seq<u8>)
    requires
        body.len() > 0,
        !has_newline(body),
    ensures
        envelope_of(body) == Err::<EnvelopeView, BodyErrorView>(
            BodyErrorView::InvalidNumberOfLines,
        ),
        BodyErrorView::InvalidNumberOfLines.message()
            == "Invalid number of lines in request body. Must have at least 2 lines (header and at least one item)."@,
{
}

/// A body whose header line is JSON without a member `dsn` is refused for the
/// missing key, and the refusal reads "The dsn key is missing from the
/// header".
pub proof fn lemma_missing_dsn_is_refused(body: Seq<u8>)
    requires
        body.len() > 0,
        header_line_of(body) matches Ok(line) && header_text_of(line) matches Ok(header)
            && dsn_lookup_of(header) is Missing,
    ensures
        envelope_of(body) == Err::<EnvelopeView, BodyErrorView>(
            BodyErrorView::MissingDsnKeyInHeader,
        ),
        BodyErrorView::MissingDsnKeyInHeader.message() == "The dsn key is missing from the header"@,
{
}

/// What holds of every envelope that was read: it keeps the whole body, the
/// body has a header line and a newline after it, and the destination has a
/// host and a project.
pub proof fn lemma_envelope_invariant(body: Seq<u8>, envelope: EnvelopeView)
    requires
        envelope_of(body) == Ok::<EnvelopeView, BodyErrorView>(envelope),
    ensures
        envelope.raw_body == body,
        body.len() > 0,
        has_newline(body),
        envelope.dsn.wf(),
        envelope.dsn.host.len() > 0,
        envelope.dsn.project_id.len() > 0,
{
}

} // verus!
