//! Building the single-part, plain-text message that goes to the relay.

use vstd::prelude::*;
use lettre::address::AddressError;
use lettre::message::{Mailbox, SinglePart};
use lettre::Message;
use crate::request::MailRequest;

verus! {

#[verifier::external_type_specification]
#[verifier::external_body]
pub struct ExMailbox(Mailbox);

#[verifier::external_type_specification]
#[verifier::external_body]
pub struct ExAddressError(AddressError);

#[verifier::external_type_specification]
#[verifier::external_body]
pub struct ExMessage(Message);

#[verifier::external_type_specification]
#[verifier::external_body]
pub struct ExEmailError(lettre::error::Error);

/// Whether lettre reads the text as one mailbox (`name <user@domain>` or a bare address).
pub uninterp spec fn mailbox_accepts(s: Seq<char>) -> bool;

/// A mailbox together with the text it was parsed from.
pub struct Address {
    mailbox: Mailbox,
    text: Ghost<Seq<char>>,
}

impl Address {
    /// The text the mailbox was parsed from.
    pub closed spec fn text(&self) -> Seq<char> {
        self.text@
    }
}

/// A composed message together with what it was composed from.
pub struct MailMessage {
    message: Message,
    from: Ghost<Seq<char>>,
    to: Ghost<Seq<char>>,
    subject: Ghost<Seq<char>>,
    body: Ghost<Seq<char>>,
}

impl MailMessage {
    /// The text of the mailbox in the From header.
    pub closed spec fn from_text(&self) -> Seq<char> {
        self.from@
    }

    /// The text of the mailbox in the To header.
    pub closed spec fn to_text(&self) -> Seq<char> {
        self.to@
    }

    /// The Subject header.
    pub closed spec fn subject_text(&self) -> Seq<char> {
        self.subject@
    }

    /// The text handed to the builder as the body of the single `text/plain` part
    /// (the builder writes its line breaks as CRLF).
    pub closed spec fn body_text(&self) -> Seq<char> {
        self.body@
    }

    /// The message, for the transport.
    pub fn message(&self) -> &Message {
        &self.message
    }
}

/// Relies on `<Mailbox as FromStr>::from_str`: parses one mailbox; whether it
/// succeeds depends on the text alone.
#[verifier::external_body]
fn parse_mailbox(s: &str) -> (r: Result<Address, AddressError>)
    ensures
        r is Ok <==> mailbox_accepts(s@),
        r is Ok ==> r->Ok_0.text() == s@,
{
    match s.parse::<Mailbox>() {
        Ok(mailbox) => Ok(Address { mailbox, text: Ghost(s@) }),
        Err(e) => Err(e),
    }
}

/// Whether lettre builds a message whose From and To mailboxes were parsed from
/// these texts: the build reads both headers back from their written form, and
/// fails where that no longer parses (a quoted local part such as `"a b"@x.com`).
pub uninterp spec fn message_builds(from: Seq<char>, to: Seq<char>) -> bool;

/// Relies on `Message::builder`, `MessageBuilder::from`, `MessageBuilder::to`,
/// `MessageBuilder::subject`, `SinglePart::plain` and `MessageBuilder::singlepart`:
/// a message with one From and one To mailbox, the subject, and one `text/plain`
/// part. The build fails only where the From or To header does not read back,
/// which depends on the two mailbox texts alone.
#[verifier::external_body]
fn build_plain(from: Address, to: Address, subject: &str, body: String) -> (r: Result<MailMessage, lettre::error::Error>)
    ensures
        r is Ok <==> message_builds(from.text(), to.text()),
        r is Ok ==> r->Ok_0.from_text() == from.text() && r->Ok_0.to_text() == to.text(),
        r is Ok ==> r->Ok_0.subject_text() == subject@ && r->Ok_0.body_text() == body@,
{
    let body_text = Ghost(body@);
    let message = Message::builder().from(from.mailbox).to(to.mailbox).subject(subject)
        .singlepart(SinglePart::plain(body))?;
    Ok(MailMessage { message, from: from.text, to: to.text, subject: Ghost(subject@), body: body_text })
}

/// Why a message could not be composed.
#[derive(PartialEq, Eq, Debug)]
pub enum ComposeError {
    /// The from address is not a mailbox.
    InvalidFrom,
    /// The to address is not a mailbox.
    InvalidTo,
    /// Both addresses parse, but the message builder cannot read its From or To
    /// header back.
    Build,
}

/// The text that tells the caller why composing failed.
pub open spec fn compose_message(e: ComposeError) -> Seq<char> {
    match e {
        ComposeError::InvalidFrom => "Invalid from address"@,
        ComposeError::InvalidTo => "Invalid to address"@,
        ComposeError::Build => "Failed to build message"@,
    }
}

impl ComposeError {
    /// The text that tells the caller why composing failed.
    pub fn message(&self) -> (r: String)
        ensures
            r@ == compose_message(*self),
    {
        match self {
            ComposeError::InvalidFrom => String::from_str("Invalid from address"),
            ComposeError::InvalidTo => String::from_str("Invalid to address"),
            ComposeError::Build => String::from_str("Failed to build message"),
        }
    }
}

/// Composes the message from `from`, `to`, `subject` and `message`; the other
/// members of the request are not applied. The from address is checked first.
pub fn compose(mail: &MailRequest) -> (r: Result<MailMessage, ComposeError>)
    ensures
        !mailbox_accepts(mail.from@) ==> (r matches Err(ComposeError::InvalidFrom)),
        mailbox_accepts(mail.from@) && !mailbox_accepts(mail.to@) ==> (r matches Err(ComposeError::InvalidTo)),
        mailbox_accepts(mail.from@) && mailbox_accepts(mail.to@) && !message_builds(mail.from@, mail.to@)
            ==> (r matches Err(ComposeError::Build)),
        mailbox_accepts(mail.from@) && mailbox_accepts(mail.to@) && message_builds(mail.from@, mail.to@)
            ==> (r matches Ok(m) && m.from_text() == mail.from@ && m.to_text() == mail.to@
            && m.subject_text() == mail.subject@ && m.body_text() == mail.message@),
{
    let from = match parse_mailbox(mail.from.as_str()) {
        Ok(m) => m,
        Err(_) => return Err(ComposeError::InvalidFrom),
    };
    let to = match parse_mailbox(mail.to.as_str()) {
        Ok(m) => m,
        Err(_) => return Err(ComposeError::InvalidTo),
    };
    match build_plain(from, to, mail.subject.as_str(), mail.message.clone()) {
        Ok(m) => Ok(m),
        Err(_) => Err(ComposeError::Build),
    }
}

} // verus!
