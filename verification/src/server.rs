//! What the tunnel decides for one request: read the body, check the
//! destination, ask for the forward, answer the client.
//!
//! Nothing here sends or receives. The caller hands over the request body and
//! the configuration, sends the request that comes back, and hands over how
//! the sending went.

use crate::config::Config;
use crate::envelope::{envelope_of, forward_of, BodyError, BodyErrorView, EnvelopeView,
    ForwardRequest, ForwardRequestView, SentryEnvelope};
use vstd::prelude::*;
use vstd::string::StringExecFns;

verus! {

/// Why a request is turned down for where it wants to go.
#[derive(Debug, Clone, Copy, PartialEq, Eq)]
pub enum HeaderError {
    /// The destination's host is not one that the operator allows.
    InvalidHost,
}

impl HeaderError {
    /// The text that the client is answered with.
    pub open spec fn message(self) -> Seq<char> {
        "Invalid host"@
    }

    /// The text that the client is answered with.
    pub fn to_string(&self) -> (message: String)
        ensures
            message@ == self.message(),
    {
        String::from_str("Invalid host")
    }
}

/// Every way in which a request can fail.
#[derive(Debug, Clone, PartialEq, Eq)]
pub enum TunnelError {
    /// The body is no envelope, or its project is not allowed.
    Body(BodyError),
    /// The destination's host is not allowed.
    Header(HeaderError),
    /// The forward could not be delivered; the detail is the transport's.
    Forward(String),
}

/// A [`TunnelError`] as contracts see it.
pub enum TunnelErrorView {
    Body(BodyErrorView),
    Header(HeaderError),
    Forward(Seq<char>),
}

impl View for TunnelError {
    type V = TunnelErrorView;

    open spec fn view(&self) -> TunnelErrorView {
        match self {
            TunnelError::Body(e) => TunnelErrorView::Body(e@),
            TunnelError::Header(e) => TunnelErrorView::Header(*e),
            TunnelError::Forward(detail) => TunnelErrorView::Forward(detail@),
        }
    }
}

/// The status of an answer to a request that was forwarded.
pub const STATUS_OK: u16 = 200;

/// The status of an answer to a request that the tunnel turned down.
pub const STATUS_BAD_REQUEST: u16 = 400;

/// The status of an answer to a request whose forward failed.
pub const STATUS_INTERNAL_SERVER_ERROR: u16 = 500;

impl TunnelErrorView {
    /// The text that the client is answered with.
    pub open spec fn message(self) -> Seq<char> {
        match self {
            TunnelErrorView::Body(e) => e.message(),
            TunnelErrorView::Header(e) => e.message(),
            TunnelErrorView::Forward(detail) => detail,
        }
    }

    /// The status that the client is answered with: a failed forward is the
    /// server's fault, everything else the request's.
    pub open spec fn status(self) -> u16 {
        match self {
            TunnelErrorView::Body(_) => STATUS_BAD_REQUEST,
            TunnelErrorView::Header(_) => STATUS_BAD_REQUEST,
            TunnelErrorView::Forward(_) => STATUS_INTERNAL_SERVER_ERROR,
        }
    }
}

impl TunnelError {
    /// The text that the client is answered with.
    pub fn to_string(&self) -> (message: String)
        ensures
            message@ == self@.message(),
    {
        match self {
            TunnelError::Body(e) => e.to_string(),
            TunnelError::Header(e) => e.to_string(),
            TunnelError::Forward(detail) => detail.clone(),
        }
    }

    /// The status that the client is answered with.
    pub fn status(&self) -> (status: u16)
        ensures
            status == self@.status(),
    {
        match self {
            TunnelError::Body(_) => STATUS_BAD_REQUEST,
            TunnelError::Header(_) => STATUS_BAD_REQUEST,
            TunnelError::Forward(_) => STATUS_INTERNAL_SERVER_ERROR,
        }
    }
}

/// Whether the operator lets an envelope through. The project is looked at
/// first, then the host.
pub open spec fn authorization_of(envelope: EnvelopeView, config: Config) -> Result<
    (),
    TunnelErrorView,
> {
    if !config.allows_project(envelope.dsn.project_id) {
        Err(TunnelErrorView::Body(BodyErrorView::InvalidProjectId))
    } else if !config.allows_host(envelope.dsn.host) {
        Err(TunnelErrorView::Header(HeaderError::InvalidHost))
    } else {
        Ok(())
    }
}

/// Checks an envelope's destination against the operator's allow-lists.
pub fn authorize(envelope: &SentryEnvelope, config: &Config) -> (verdict: Result<(), TunnelError>)
    ensures
        match verdict {
            Ok(_) => authorization_of(envelope@, *config) == Ok::<(), TunnelErrorView>(()),
            Err(e) => authorization_of(envelope@, *config) == Err::<(), TunnelErrorView>(e@),
        },
{
    if !config.project_id_is_allowed(&envelope.dsn.project_id) {
        Err(TunnelError::Body(BodyError::InvalidProjectId))
    } else if !envelope.dsn_host_is_valid(config.remote_hosts.as_slice()) {
        Err(TunnelError::Header(HeaderError::InvalidHost))
    } else {
        Ok(())
    }
}

/// What becomes of a request body: the request that forwards it, or the
/// first reason why it is not forwarded.
pub open spec fn decision_of(body: Seq<u8>, config: Config) -> Result<
    ForwardRequestView,
    TunnelErrorView,
> {
    match envelope_of(body) {
        Err(e) => Err(TunnelErrorView::Body(e)),
        Ok(envelope) => match authorization_of(envelope, config) {
            Err(e) => Err(e),
            Ok(_) => Ok(forward_of(envelope)),
        },
    }
}

/// Takes a request body from reception to the forward that it asks for.
pub fn handle(body: Vec<u8>, config: &Config) -> (decision: Result<ForwardRequest, TunnelError>)
    ensures
        match decision {
            Ok(request) => decision_of(body@, *config) == Ok::<
                ForwardRequestView,
                TunnelErrorView,
            >(request@),
            Err(e) => decision_of(body@, *config) == Err::<ForwardRequestView, TunnelErrorView>(
                e@,
            ),
        },
        decision matches Ok(request) ==> request.body@ == body@,
{
    match SentryEnvelope::try_new_from_body(body) {
        Err(e) => Err(TunnelError::Body(e)),
        Ok(envelope) => match authorize(&envelope, config) {
            Err(e) => Err(e),
            Ok(_) => Ok(envelope.forward()),
        },
    }
}

/// What became of a forward that was sent.
#[derive(Debug, Clone, PartialEq, Eq)]
pub enum Delivery {
    /// The destination answered, with this status.
    Answered(u16),
    /// The request did not get through; the detail is the transport's.
    Failed(String),
}

/// A [`Delivery`] as contracts see it.
pub enum DeliveryView {
    Answered(u16),
    Failed(Seq<char>),
}

impl View for Delivery {
    type V = DeliveryView;

    open spec fn view(&self) -> DeliveryView {
        match self {
            Delivery::Answered(status) => DeliveryView::Answered(*status),
            Delivery::Failed(detail) => DeliveryView::Failed(detail@),
        }
    }
}

/// How a request ends once its forward was sent. The tunnel delivers bytes:
/// whatever the destination answers, the forward counts as delivered, and
/// only a transport that fails makes the request fail.
pub open spec fn outcome_of(delivery: DeliveryView) -> Result<(), TunnelErrorView> {
    match delivery {
        DeliveryView::Answered(_) => Ok(()),
        DeliveryView::Failed(detail) => Err(TunnelErrorView::Forward(detail)),
    }
}

/// Judges a forward that was sent.
pub fn conclude(delivery: Delivery) -> (outcome: Result<(), TunnelError>)
    ensures
        match outcome {
            Ok(_) => outcome_of(delivery@) == Ok::<(), TunnelErrorView>(()),
            Err(e) => outcome_of(delivery@) == Err::<(), TunnelErrorView>(e@),
        },
{
    match delivery {
        Delivery::Answered(_) => Ok(()),
        Delivery::Failed(detail) => Err(TunnelError::Forward(detail)),
    }
}

/// What the client is answered with.
#[derive(Debug, Clone, PartialEq, Eq)]
pub struct Response {
    /// The HTTP status.
    pub status: u16,
    /// The text of the body.
    pub body: String,
}

/// A [`Response`] as contracts see it.
pub struct ResponseView {
    pub status: u16,
    pub body: Seq<char>,
}

impl View for Response {
    type V = ResponseView;

    open spec fn view(&self) -> ResponseView {
        ResponseView { status: self.status, body: self.body@ }
    }
}

/// The answer to a request, given how it ended: an empty 200 when the
/// forward was delivered, else the failure's status and text.
pub open spec fn response_of(outcome: Result<(), TunnelErrorView>) -> ResponseView {
    match outcome {
        Ok(_) => ResponseView { status: STATUS_OK, body: Seq::empty() },
        Err(e) => ResponseView { status: e.status(), body: e.message() },
    }
}

/// Answers the client.
pub fn respond(outcome: Result<(), TunnelError>) -> (response: Response)
    ensures
        response@ == response_of(
            match outcome {
                Ok(_) => Ok(()),
                Err(e) => Err(e@),
            },
        ),
{
    match outcome {
        Ok(_) => Response { status: STATUS_OK, body: String::new() },
        Err(e) => Response { status: e.status(), body: e.to_string() },
    }
}

/// A body that is no envelope is answered with status 400 and the text of
/// the reason.
pub proof fn lemma_refused_body_is_answered(body: Seq<u8>, config: Config, reason: BodyErrorView)
    requires
        envelope_of(body) == Err::<EnvelopeView, BodyErrorView>(reason),
    ensures
        decision_of(body, config) == Err::<ForwardRequestView, TunnelErrorView>(
            TunnelErrorView::Body(reason),
        ),
        response_of(Err(TunnelErrorView::Body(reason))) == (ResponseView {
            status: STATUS_BAD_REQUEST,
            body: reason.message(),
        }),
{
}

/// An envelope for a project that the operator does not allow is turned down
/// for its project, whether its host is allowed or not.
pub proof fn lemma_project_is_checked_first(body: Seq<u8>, config: Config, envelope: EnvelopeView)
    requires
        envelope_of(body) == Ok::<EnvelopeView, BodyErrorView>(envelope),
        !config.allows_project(envelope.dsn.project_id),
    ensures
        decision_of(body, config) == Err::<ForwardRequestView, TunnelErrorView>(
            TunnelErrorView::Body(BodyErrorView::InvalidProjectId),
        ),
{
}

/// An envelope for a host that the operator does not allow is never
/// forwarded, whatever its project; where the project is allowed, it is
/// turned down for its host.
pub proof fn lemma_unlisted_host_is_turned_down(
    body: Seq<u8>,
    config: Config,
    envelope: EnvelopeView,
)
    requires
        envelope_of(body) == Ok::<EnvelopeView, BodyErrorView>(envelope),
        !config.allows_host(envelope.dsn.host),
    ensures
        decision_of(body, config) is Err,
        config.allows_project(envelope.dsn.project_id) ==> decision_of(body, config) == Err::<
            ForwardRequestView,
            TunnelErrorView,
        >(TunnelErrorView::Header(HeaderError::InvalidHost)),
{
}

/// An envelope whose project and host are both allowed is forwarded, and the
/// forward carries the request body byte for byte, whatever follows the
/// header.
pub proof fn lemma_forward_carries_the_body(body: Seq<u8>, config: Config, envelope: EnvelopeView)
    requires
        envelope_of(body) == Ok::<EnvelopeView, BodyErrorView>(envelope),
        config.allows_project(envelope.dsn.project_id),
        config.allows_host(envelope.dsn.host),
    ensures
        decision_of(body, config) == Ok::<ForwardRequestView, TunnelErrorView>(
            forward_of(envelope),
        ),
        forward_of(envelope).body == body,
{
}

/// Whatever is forwarded for a body is that body.
pub proof fn lemma_forwarded_bytes_are_the_body(
    body: Seq<u8>,
    config: Config,
    request: ForwardRequestView,
)
    requires
        decision_of(body, config) == Ok::<ForwardRequestView, TunnelErrorView>(request),
    ensures
        request.body == body,
{
}

/// Submitting the same body twice under the same configuration is decided
/// the same way twice: when the first is forwarded, so is the second, with
/// the same request and the same bytes. Nothing is remembered between the
/// two.
pub proof fn lemma_resubmission_is_decided_alike(
    body: Seq<u8>,
    config: Config,
    first: Result<ForwardRequestView, TunnelErrorView>,
    second: Result<ForwardRequestView, TunnelErrorView>,
)
    requires
        first == decision_of(body, config),
        second == decision_of(body, config),
    ensures
        first == second,
        first matches Ok(request) ==> second == Ok::<ForwardRequestView, TunnelErrorView>(request)
            && request.body == body,
{
}

} // verus!
