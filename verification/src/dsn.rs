//! The destination that an envelope names.
//!
//! A destination is written as a DSN, `scheme://public_key@host[:port]/project_id`.
//! Reading that grammar is left to `sentry_types`; what it finds is copied into
//! [`Destination`], a plain record that the rest of the crate works on.

use std::str::FromStr;
use vstd::prelude::*;

verus! {

#[verifier::external_type_specification]
#[verifier::external_body]
pub struct ExSentryDsn(sentry_types::Dsn);

#[verifier::external_type_specification]
#[verifier::external_body]
pub struct ExParseDsnError(sentry_types::ParseDsnError);

/// What `sentry_types::Dsn::from_str` makes of a text: the DSN it reads, or
/// the error it reports.
pub uninterp spec fn dsn_parse(text: Seq<char>) -> Result<
    sentry_types::Dsn,
    sentry_types::ParseDsnError,
>;

/// The host of a DSN, as `sentry_types::Dsn::host` gives it.
pub uninterp spec fn dsn_host(dsn: sentry_types::Dsn) -> Seq<char>;

/// The project id of a DSN, as `sentry_types::Dsn::project_id` gives it.
pub uninterp spec fn dsn_project_id(dsn: sentry_types::Dsn) -> Seq<char>;

/// The public key of a DSN, as `sentry_types::Dsn::public_key` gives it.
pub uninterp spec fn dsn_public_key(dsn: sentry_types::Dsn) -> Seq<char>;

/// The envelope endpoint of a DSN, as `sentry_types::Dsn::envelope_api_url`
/// gives it, written out as text.
pub uninterp spec fn dsn_envelope_api_url(dsn: sentry_types::Dsn) -> Seq<char>;

/// Calls `sentry_types::Dsn::from_str`. The contract only gives the result
/// its name: the same text always reads the same way.
#[verifier::external_body]
fn sentry_dsn_from_str(text: &str) -> (parsed: Result<
    sentry_types::Dsn,
    sentry_types::ParseDsnError,
>)
    ensures
        parsed == dsn_parse(text@),
{
    sentry_types::Dsn::from_str(text)
}

/// Calls `sentry_types::Dsn::host`. The contract only gives the result its
/// name.
#[verifier::external_body]
fn sentry_dsn_host<'a>(dsn: &'a sentry_types::Dsn) -> (host: &'a str)
    ensures
        host@ == dsn_host(*dsn),
{
    dsn.host()
}

/// Calls `sentry_types::Dsn::project_id` and takes the id's text with
/// `sentry_types::ProjectId::value`. The contract only gives the result its
/// name.
#[verifier::external_body]
fn sentry_dsn_project_id<'a>(dsn: &'a sentry_types::Dsn) -> (id: &'a str)
    ensures
        id@ == dsn_project_id(*dsn),
{
    dsn.project_id().value()
}

/// Calls `sentry_types::Dsn::public_key`. The contract only gives the result
/// its name.
#[verifier::external_body]
fn sentry_dsn_public_key<'a>(dsn: &'a sentry_types::Dsn) -> (key: &'a str)
    ensures
        key@ == dsn_public_key(*dsn),
{
    dsn.public_key()
}

/// Calls `sentry_types::Dsn::envelope_api_url` and writes the URL out with
/// `to_string`. The contract only gives the result its name.
#[verifier::external_body]
fn sentry_dsn_envelope_api_url(dsn: &sentry_types::Dsn) -> (url: String)
    ensures
        url@ == dsn_envelope_api_url(*dsn),
{
    dsn.envelope_api_url().to_string()
}

/// A destination: where an envelope asks to be sent.
#[derive(Debug, Clone, PartialEq, Eq)]
pub struct Destination {
    /// The destination's host, without a port.
    pub host: String,
    /// The project that the envelope belongs to.
    pub project_id: String,
    /// The key that the destination knows the client by.
    pub public_key: String,
    /// The URL of the destination's envelope endpoint, without a query.
    pub envelope_api_url: String,
}

/// A [`Destination`] as contracts see it.
pub struct DestinationView {
    pub host: Seq<char>,
    pub project_id: Seq<char>,
    pub public_key: Seq<char>,
    pub envelope_api_url: Seq<char>,
}

impl DestinationView {
    /// A destination has a host and a project.
    pub open spec fn wf(self) -> bool {
        self.host.len() > 0 && self.project_id.len() > 0
    }
}

impl View for Destination {
    type V = DestinationView;

    open spec fn view(&self) -> DestinationView {
        DestinationView {
            host: self.host@,
            project_id: self.project_id@,
            public_key: self.public_key@,
            envelope_api_url: self.envelope_api_url@,
        }
    }
}

/// The destination made of four texts, if they make one.
pub open spec fn destination_of_parts(
    host: Seq<char>,
    project_id: Seq<char>,
    public_key: Seq<char>,
    envelope_api_url: Seq<char>,
) -> Option<DestinationView> {
    let dsn = DestinationView { host, project_id, public_key, envelope_api_url };
    if dsn.wf() {
        Some(dsn)
    } else {
        None
    }
}

/// The destination that a DSN text names, if it names one.
pub open spec fn destination_of_text(text: Seq<char>) -> Option<DestinationView> {
    match dsn_parse(text) {
        Ok(dsn) => destination_of_parts(
            dsn_host(dsn),
            dsn_project_id(dsn),
            dsn_public_key(dsn),
            dsn_envelope_api_url(dsn),
        ),
        Err(_) => None,
    }
}

impl Destination {
    /// Well-formedness of the record itself.
    pub open spec fn wf(&self) -> bool {
        self@.wf()
    }

    /// Makes a destination of its four parts. A destination without a host or
    /// without a project is none.
    pub fn new(host: String, project_id: String, public_key: String, envelope_api_url: String) -> (dsn:
        Option<Destination>)
        ensures
            match dsn {
                Some(d) => destination_of_parts(host@, project_id@, public_key@, envelope_api_url@)
                    == Some(d@),
                None => destination_of_parts(host@, project_id@, public_key@, envelope_api_url@)
                    is None,
            },
    {
        if host.as_str().is_empty() || project_id.as_str().is_empty() {
            None
        } else {
            Some(Destination { host, project_id, public_key, envelope_api_url })
        }
    }

    /// Reads a DSN text.
    pub fn parse(text: &str) -> (dsn: Option<Destination>)
        ensures
            match dsn {
                Some(d) => destination_of_text(text@) == Some(d@),
                None => destination_of_text(text@) is None,
            },
    {
        match sentry_dsn_from_str(text) {
            Ok(parsed) => Destination::new(
                sentry_dsn_host(&parsed).to_owned(),
                sentry_dsn_project_id(&parsed).to_owned(),
                sentry_dsn_public_key(&parsed).to_owned(),
                sentry_dsn_envelope_api_url(&parsed),
            ),
            Err(_) => None,
        }
    }
}

} // verus!
