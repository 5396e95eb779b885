//! One send request from the host: decode and compose before the submission,
//! encode the response after it.

use vstd::prelude::*;
use vstd::utf8::*;
use crate::compose::{compose, compose_message, mailbox_accepts, message_builds, ComposeError, MailMessage};
use crate::json::json_document_of;
use crate::request::{
    decode_message, decode_request, first_empty, opt_str_view, request_spec, schema_spec, content_type_spec,
    DecodeFailure, Field, MailView, JSON_MEDIA_TYPE,
};
use crate::response::{
    encode, envelope_text, outcome_message, outcome_status, ResponseEnvelope, Status,
    SubmissionOutcome,
};

verus! {

/// The message of the error response for a request that is turned away before
/// submission, or `None` where its message is built.
pub open spec fn rejection(content_type: Option<Seq<char>>, body: Seq<u8>) -> Option<Seq<char>> {
    match request_spec(content_type, body) {
        Err(f) => Some(decode_message(f)),
        Ok(v) => if !mailbox_accepts(v.from) {
            Some(compose_message(ComposeError::InvalidFrom))
        } else if !mailbox_accepts(v.to) {
            Some(compose_message(ComposeError::InvalidTo))
        } else if !message_builds(v.from, v.to) {
            Some(compose_message(ComposeError::Build))
        } else {
            None
        },
    }
}

/// Decodes and validates a send request and composes its message; every failure
/// becomes an error response.
pub fn prepare(content_type: Option<&str>, body: &[u8]) -> (r: Result<MailMessage, ResponseEnvelope>)
    ensures
        match rejection(opt_str_view(content_type), body@) {
            Some(msg) => r is Err && r->Err_0.status == Status::Error && r->Err_0.message@ == msg,
            None => {
                let v = request_spec(opt_str_view(content_type), body@)->Ok_0;
                &&& r is Ok
                &&& r->Ok_0.from_text() == v.from && r->Ok_0.to_text() == v.to
                &&& r->Ok_0.subject_text() == v.subject && r->Ok_0.body_text() == v.message
            },
        },
{
    let mail = match decode_request(content_type, body) {
        Ok(m) => m,
        Err(e) => return Err(ResponseEnvelope::error(e.message())),
    };
    match compose(&mail) {
        Ok(m) => Ok(m),
        Err(e) => Err(ResponseEnvelope::error(e.message())),
    }
}

/// The encoded response for a submission outcome.
pub fn respond(outcome: &SubmissionOutcome) -> (r: String)
    ensures
        r@ == envelope_text(outcome_status(*outcome), outcome_message(*outcome)),
{
    encode(&ResponseEnvelope::for_outcome(outcome))
}

/// A well-formed JSON request with an empty required field is turned away with
/// the message for the first empty one, in the order from, to, subject, message.
pub proof fn lemma_first_empty_field_reported(content_type: Option<Seq<char>>, body: Seq<u8>)
    requires
        content_type == Some(JSON_MEDIA_TYPE@),
        valid_utf8(body),
        json_document_of(decode_utf8(body)) matches Ok(Some(ms))
            && schema_spec(ms@) matches Ok(v)
            && first_empty(v) is Some,
    ensures
        ({
            let v = schema_spec(json_document_of(decode_utf8(body))->Ok_0->Some_0@)->Ok_0;
            rejection(content_type, body) == Some(decode_message(DecodeFailure::EmptyField(first_empty(v)->Some_0)))
        }),
{
}

/// The four empty-field messages are distinct.
pub proof fn lemma_empty_field_messages_distinct(f: Field, g: Field)
    requires
        f != g,
    ensures
        decode_message(DecodeFailure::EmptyField(f)) != decode_message(DecodeFailure::EmptyField(g)),
{
    reveal_strlit("No from address");
    reveal_strlit("No to address");
    reveal_strlit("No subject");
    reveal_strlit("No message");
    let a = decode_message(DecodeFailure::EmptyField(f));
    let b = decode_message(DecodeFailure::EmptyField(g));
    if a.len() == b.len() {
        assert(a[3] != b[3]);
    }
}

/// A missing or non-JSON content type decides the outcome whatever the body
/// holds: the body is not parsed.
pub proof fn lemma_content_type_checked_first(content_type: Option<Seq<char>>, b1: Seq<u8>, b2: Seq<u8>)
    requires
        content_type_spec(content_type) is Some,
    ensures
        request_spec(content_type, b1) == request_spec(content_type, b2),
        request_spec(content_type, b1) == Err::<MailView, DecodeFailure>(content_type_spec(content_type)->Some_0),
        rejection(content_type, b1) == Some(decode_message(content_type_spec(content_type)->Some_0)),
{
}

/// A body that is not JSON, under the JSON content type, is turned away with
/// the parser's message.
pub proof fn lemma_invalid_json_reported(body: Seq<u8>)
    requires
        valid_utf8(body),
        json_document_of(decode_utf8(body)) is Err,
    ensures
        rejection(Some(JSON_MEDIA_TYPE@), body) == Some(
            "Invalid JSON: "@ + json_document_of(decode_utf8(body))->Err_0@,
        ),
{
}

} // verus!
