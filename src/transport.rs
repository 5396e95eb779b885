//! The relay connection that composed messages are submitted through.

use vstd::prelude::*;
use lettre::transport::smtp::authentication::Credentials as SmtpCredentials;
use lettre::transport::smtp::SmtpTransportBuilder;
use lettre::SmtpTransport;
use crate::response::SubmissionOutcome;

verus! {

#[verifier::external_type_specification]
#[verifier::external_body]
pub struct ExSmtpTransport(SmtpTransport);

#[verifier::external_type_specification]
#[verifier::external_body]
pub struct ExSmtpTransportBuilder(SmtpTransportBuilder);

/// The account and relay host that mail is submitted through; loaded once and
/// never changed afterwards.
pub struct Credentials {
    pub username: String,
    pub password: String,
    pub server: String,
}

/// A transport builder for a relay host.
pub struct RelayBuilder {
    builder: SmtpTransportBuilder,
    server: Ghost<Seq<char>>,
}

impl RelayBuilder {
    /// The relay host the builder connects to.
    pub closed spec fn server(&self) -> Seq<char> {
        self.server@
    }
}

/// An authenticated transport to a relay host.
pub struct Relay {
    transport: SmtpTransport,
    server: Ghost<Seq<char>>,
    username: Ghost<Seq<char>>,
    password: Ghost<Seq<char>>,
}

impl Relay {
    /// The relay host the transport connects to.
    pub closed spec fn server(&self) -> Seq<char> {
        self.server@
    }

    /// The username it authenticates with.
    pub closed spec fn username(&self) -> Seq<char> {
        self.username@
    }

    /// The password it authenticates with.
    pub closed spec fn password(&self) -> Seq<char> {
        self.password@
    }

    /// The transport, for sending.
    pub fn transport(&self) -> &SmtpTransport {
        &self.transport
    }
}

/// Relies on `SmtpTransport::relay`: a transport builder for a TLS connection to
/// the host on the submissions port; its error is kept as its debug text. Whether
/// it succeeds depends on the process-wide default rustls crypto provider, so
/// nothing is stated of success.
#[verifier::external_body]
fn relay_builder(server: &str) -> (r: Result<RelayBuilder, String>)
    ensures
        r is Ok ==> r->Ok_0.server() == server@,
{
    match SmtpTransport::relay(server) {
        Ok(builder) => Ok(RelayBuilder { builder, server: Ghost(server@) }),
        Err(e) => Err(format!("{:?}", e)),
    }
}

/// Relies on `Credentials::new`, `SmtpTransportBuilder::credentials` and
/// `SmtpTransportBuilder::build`: the transport that authenticates with the
/// username and password, and connects only when a message is sent.
#[verifier::external_body]
fn authenticated(b: RelayBuilder, username: String, password: String) -> (r: Relay)
    ensures
        r.server() == b.server(),
        r.username() == username@ && r.password() == password@,
{
    let (user, pass) = (Ghost(username@), Ghost(password@));
    let transport = b.builder.credentials(SmtpCredentials::new(username, password)).build();
    Relay { transport, server: b.server, username: user, password: pass }
}

/// The transport to the relay named in the credentials, authenticating with
/// them; where the relay cannot be set up, the failure outcome of the submission.
pub fn relay_transport(creds: &Credentials) -> (r: Result<Relay, SubmissionOutcome>)
    ensures
        r is Ok ==> r->Ok_0.server() == creds.server@ && r->Ok_0.username() == creds.username@
            && r->Ok_0.password() == creds.password@,
        r is Err ==> r->Err_0 is Failure,
{
    match relay_builder(creds.server.as_str()) {
        Err(text) => Err(SubmissionOutcome::Failure(text)),
        Ok(builder) => Ok(authenticated(builder, creds.username.clone(), creds.password.clone())),
    }
}

} // verus!
