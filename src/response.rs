//! The outcome of a submission, the response envelope every path ends in, and
//! its pretty-printed JSON text.

use vstd::prelude::*;
use crate::json::{json_string_literal, quote};

verus! {

/// What the relay made of a submission: its acknowledgement, or the transport error.
#[derive(PartialEq, Eq, Debug)]
pub enum SubmissionOutcome {
    Success(String),
    Failure(String),
}

#[derive(Clone, Copy, PartialEq, Eq, Debug, Structural)]
pub enum Status {
    Success,
    Error,
}

/// The response handed back to the caller.
#[derive(PartialEq, Eq, Debug)]
pub struct ResponseEnvelope {
    pub status: Status,
    pub message: String,
}

/// The status of an envelope for a submission outcome.
pub open spec fn outcome_status(o: SubmissionOutcome) -> Status {
    match o {
        SubmissionOutcome::Success(_) => Status::Success,
        SubmissionOutcome::Failure(_) => Status::Error,
    }
}

/// The message of an envelope for a submission outcome.
pub open spec fn outcome_message(o: SubmissionOutcome) -> Seq<char> {
    match o {
        SubmissionOutcome::Success(ack) => "Email sent successfully: "@ + ack@,
        SubmissionOutcome::Failure(err) => "Failed to send email: "@ + err@,
    }
}

impl ResponseEnvelope {
    /// An error response with the given message.
    pub fn error(message: String) -> (r: ResponseEnvelope)
        ensures
            r.status == Status::Error,
            r.message == message,
    {
        ResponseEnvelope { status: Status::Error, message }
    }

    /// The response for a submission outcome; only a success has status success.
    pub fn for_outcome(outcome: &SubmissionOutcome) -> (r: ResponseEnvelope)
        ensures
            r.status == outcome_status(*outcome),
            r.message@ == outcome_message(*outcome),
    {
        match outcome {
            SubmissionOutcome::Success(ack) => ResponseEnvelope {
                status: Status::Success,
                message: String::from_str("Email sent successfully: ").concat(ack.as_str()),
            },
            SubmissionOutcome::Failure(err) => ResponseEnvelope {
                status: Status::Error,
                message: String::from_str("Failed to send email: ").concat(err.as_str()),
            },
        }
    }
}

/// The start of the encoded text of a success response, up to its message.
pub const SUCCESS_HEAD: &'static str = "{\n  \"status\": \"success\",\n  \"message\": ";

/// The start of the encoded text of an error response, up to its message.
pub const ERROR_HEAD: &'static str = "{\n  \"status\": \"error\",\n  \"message\": ";

/// The end of every encoded response.
pub const TAIL: &'static str = "\n}";

pub open spec fn head_of(s: Status) -> Seq<char> {
    match s {
        Status::Success => SUCCESS_HEAD@,
        Status::Error => ERROR_HEAD@,
    }
}

/// The pretty-printed JSON object `{"status": ..., "message": ...}`, with two
/// spaces of indent.
pub open spec fn envelope_text(s: Status, message: Seq<char>) -> Seq<char> {
    head_of(s) + json_string_literal(message) + TAIL@
}

/// Encodes an envelope as pretty-printed JSON.
pub fn encode(env: &ResponseEnvelope) -> (r: String)
    ensures
        r@ == envelope_text(env.status, env.message@),
{
    let head = match env.status {
        Status::Success => String::from_str(SUCCESS_HEAD),
        Status::Error => String::from_str(ERROR_HEAD),
    };
    let literal = quote(env.message.as_str());
    head.concat(literal.as_str()).concat(TAIL)
}

/// `prefix` is the start of `text`.
pub open spec fn starts_with(text: Seq<char>, prefix: Seq<char>) -> bool {
    prefix.len() <= text.len() && text.subrange(0, prefix.len() as int) == prefix
}

/// The status that an encoded response text declares, if it is one.
pub open spec fn declared_status(text: Seq<char>) -> Option<Status> {
    if starts_with(text, SUCCESS_HEAD@) {
        Some(Status::Success)
    } else if starts_with(text, ERROR_HEAD@) {
        Some(Status::Error)
    } else {
        None
    }
}

fn has_prefix(text: &str, prefix: &str) -> (r: bool)
    ensures
        r == starts_with(text@, prefix@),
{
    let n = prefix.unicode_len();
    let m = text.unicode_len();
    if n > m {
        return false;
    }
    let mut i: usize = 0;
    while i < n
        invariant
            n == prefix@.len(),
            n <= m == text@.len(),
            i <= n,
            forall|j: int| 0 <= j < i ==> text@[j] == prefix@[j],
        decreases n - i,
    {
        if text.get_char(i) != prefix.get_char(i) {
            assert(text@.subrange(0, n as int)[i as int] != prefix@[i as int]);
            return false;
        }
        i = i + 1;
    }
    assert(text@.subrange(0, n as int) =~= prefix@);
    true
}

/// Reads back the status of an encoded response.
pub fn response_status(text: &str) -> (r: Option<Status>)
    ensures
        r == declared_status(text@),
{
    if has_prefix(text, SUCCESS_HEAD) {
        Some(Status::Success)
    } else if has_prefix(text, ERROR_HEAD) {
        Some(Status::Error)
    } else {
        None
    }
}

/// Encoding the response for a successful submission and reading its status
/// back gives success, whatever the relay acknowledged.
pub proof fn lemma_success_round_trip(ack: String)
    ensures
        declared_status(envelope_text(
            outcome_status(SubmissionOutcome::Success(ack)),
            outcome_message(SubmissionOutcome::Success(ack)),
        )) == Some(Status::Success),
{
    lemma_encoded_status(Status::Success, outcome_message(SubmissionOutcome::Success(ack)));
}

/// Every encoded response declares the status of the envelope it was made from.
pub proof fn lemma_encoded_status(s: Status, message: Seq<char>)
    ensures
        declared_status(envelope_text(s, message)) == Some(s),
{
    let text = envelope_text(s, message);
    assert(text.subrange(0, head_of(s).len() as int) =~= head_of(s));
    if s == Status::Error {
        reveal_strlit("{\n  \"status\": \"success\",\n  \"message\": ");
        reveal_strlit("{\n  \"status\": \"error\",\n  \"message\": ");
        assert(text[15] != SUCCESS_HEAD@[15]);
    }
}

} // verus!
