//! The send request: its schema, how it is read from a JSON document, and the
//! order in which its required fields are checked.

use vstd::prelude::*;
use vstd::utf8::*;
use crate::json::{JsonField, ParsedDocument, json_document_of, parse_document, utf8_text};

verus! {

/// The only media type a send request may declare.
pub const JSON_MEDIA_TYPE: &'static str = "application/json";

/// A member of the request schema.
#[derive(Clone, Copy, PartialEq, Eq, Debug, Structural)]
pub enum Member {
    From,
    To,
    Cc,
    Bcc,
    ReplyTo,
    SenderName,
    SenderEmail,
    Subject,
    Message,
    Attachments,
}

/// A required field that must not be empty, in the order the checks run.
#[derive(Clone, Copy, PartialEq, Eq, Debug, Structural)]
pub enum Field {
    From,
    To,
    Subject,
    Message,
}

/// The name of a member in the JSON object.
pub open spec fn member_key(m: Member) -> Seq<char> {
    match m {
        Member::From => "from"@,
        Member::To => "to"@,
        Member::Cc => "cc"@,
        Member::Bcc => "bcc"@,
        Member::ReplyTo => "reply_to"@,
        Member::SenderName => "sender_name"@,
        Member::SenderEmail => "sender_email"@,
        Member::Subject => "subject"@,
        Member::Message => "message"@,
        Member::Attachments => "attachments"@,
    }
}

impl Member {
    pub fn key(&self) -> (r: &'static str)
        ensures
            r@ == member_key(*self),
    {
        match self {
            Member::From => "from",
            Member::To => "to",
            Member::Cc => "cc",
            Member::Bcc => "bcc",
            Member::ReplyTo => "reply_to",
            Member::SenderName => "sender_name",
            Member::SenderEmail => "sender_email",
            Member::Subject => "subject",
            Member::Message => "message",
            Member::Attachments => "attachments",
        }
    }
}

/// A validated send request.
#[derive(PartialEq, Eq, Debug)]
pub struct MailRequest {
    pub from: String,
    pub to: String,
    pub cc: Option<String>,
    pub bcc: Option<String>,
    pub reply_to: Option<String>,
    pub sender_name: Option<String>,
    pub sender_email: Option<String>,
    pub subject: String,
    pub message: String,
    pub attachments: Option<Vec<String>>,
}

/// The mathematical content of a [`MailRequest`].
pub struct MailView {
    pub from: Seq<char>,
    pub to: Seq<char>,
    pub cc: Option<Seq<char>>,
    pub bcc: Option<Seq<char>>,
    pub reply_to: Option<Seq<char>>,
    pub sender_name: Option<Seq<char>>,
    pub sender_email: Option<Seq<char>>,
    pub subject: Seq<char>,
    pub message: Seq<char>,
    pub attachments: Option<Seq<Seq<char>>>,
}

pub open spec fn opt_text_view(o: Option<String>) -> Option<Seq<char>> {
    match o {
        Some(s) => Some(s@),
        None => None,
    }
}

pub open spec fn texts_view(v: Seq<String>) -> Seq<Seq<char>> {
    v.map_values(|s: String| s@)
}

impl View for MailRequest {
    type V = MailView;

    open spec fn view(&self) -> MailView {
        MailView {
            from: self.from@,
            to: self.to@,
            cc: opt_text_view(self.cc),
            bcc: opt_text_view(self.bcc),
            reply_to: opt_text_view(self.reply_to),
            sender_name: opt_text_view(self.sender_name),
            sender_email: opt_text_view(self.sender_email),
            subject: self.subject@,
            message: self.message@,
            attachments: match self.attachments {
                Some(v) => Some(texts_view(v@)),
                None => None,
            },
        }
    }
}

/// Why a request could not be decoded.
#[derive(PartialEq, Eq, Debug)]
pub enum DecodeError {
    MissingContentType,
    /// The declared media type, which is not JSON.
    InvalidContentType(String),
    /// The body is not valid UTF-8.
    InvalidEncoding,
    /// The body is not JSON; the parser's message.
    InvalidJson(String),
    /// The body is JSON, but not an object.
    NotAnObject,
    MissingMember(Member),
    WrongType(Member),
    EmptyField(Field),
}

/// The mathematical content of a [`DecodeError`].
pub enum DecodeFailure {
    MissingContentType,
    InvalidContentType(Seq<char>),
    InvalidEncoding,
    InvalidJson(Seq<char>),
    NotAnObject,
    MissingMember(Member),
    WrongType(Member),
    EmptyField(Field),
}

impl View for DecodeError {
    type V = DecodeFailure;

    open spec fn view(&self) -> DecodeFailure {
        match self {
            DecodeError::MissingContentType => DecodeFailure::MissingContentType,
            DecodeError::InvalidContentType(s) => DecodeFailure::InvalidContentType(s@),
            DecodeError::InvalidEncoding => DecodeFailure::InvalidEncoding,
            DecodeError::InvalidJson(s) => DecodeFailure::InvalidJson(s@),
            DecodeError::NotAnObject => DecodeFailure::NotAnObject,
            DecodeError::MissingMember(m) => DecodeFailure::MissingMember(*m),
            DecodeError::WrongType(m) => DecodeFailure::WrongType(*m),
            DecodeError::EmptyField(f) => DecodeFailure::EmptyField(*f),
        }
    }
}

pub open spec fn decoded_view<T: View>(r: Result<T, DecodeError>) -> Result<T::V, DecodeFailure> {
    match r {
        Ok(v) => Ok(v@),
        Err(e) => Err(e@),
    }
}

/// The value of the first member named `key`, looking from index `i` on.
pub open spec fn lookup_from(ms: Seq<(String, JsonField)>, key: Seq<char>, i: int) -> Option<JsonField>
    decreases ms.len() - i,
{
    if i < 0 || i >= ms.len() {
        None
    } else if ms[i].0@ == key {
        Some(ms[i].1)
    } else {
        lookup_from(ms, key, i + 1)
    }
}

/// The value of the member `m` in an object.
pub open spec fn lookup(ms: Seq<(String, JsonField)>, m: Member) -> Option<JsonField> {
    lookup_from(ms, member_key(m), 0)
}

/// A member that must hold a string.
pub open spec fn required_text_spec(ms: Seq<(String, JsonField)>, m: Member) -> Result<Seq<char>, DecodeFailure> {
    match lookup(ms, m) {
        None => Err(DecodeFailure::MissingMember(m)),
        Some(JsonField::Text(s)) => Ok(s@),
        Some(_) => Err(DecodeFailure::WrongType(m)),
    }
}

/// A member that may be absent or null, and otherwise holds a string.
pub open spec fn optional_text_spec(ms: Seq<(String, JsonField)>, m: Member) -> Result<Option<Seq<char>>, DecodeFailure> {
    match lookup(ms, m) {
        None => Ok(None),
        Some(JsonField::Null) => Ok(None),
        Some(JsonField::Text(s)) => Ok(Some(s@)),
        Some(_) => Err(DecodeFailure::WrongType(m)),
    }
}

/// Every element of the array is a string.
pub open spec fn all_texts(items: Seq<Option<String>>) -> bool {
    forall|i: int| 0 <= i < items.len() ==> (#[trigger] items[i]) is Some
}

/// A member that may be absent or null, and otherwise holds an array of strings.
pub open spec fn optional_list_spec(ms: Seq<(String, JsonField)>, m: Member) -> Result<Option<Seq<Seq<char>>>, DecodeFailure> {
    match lookup(ms, m) {
        None => Ok(None),
        Some(JsonField::Null) => Ok(None),
        Some(JsonField::List(items)) => if all_texts(items@) {
            Ok(Some(items@.map_values(|o: Option<String>| o->Some_0@)))
        } else {
            Err(DecodeFailure::WrongType(m))
        },
        Some(_) => Err(DecodeFailure::WrongType(m)),
    }
}


/// Reads the object's members into a request, member by member in schema order;
/// the first member that is missing or of the wrong type is the error.
pub open spec fn schema_spec(ms: Seq<(String, JsonField)>) -> Result<MailView, DecodeFailure> {
    let from = required_text_spec(ms, Member::From);
    let to = required_text_spec(ms, Member::To);
    let cc = optional_text_spec(ms, Member::Cc);
    let bcc = optional_text_spec(ms, Member::Bcc);
    let reply_to = optional_text_spec(ms, Member::ReplyTo);
    let sender_name = optional_text_spec(ms, Member::SenderName);
    let sender_email = optional_text_spec(ms, Member::SenderEmail);
    let subject = required_text_spec(ms, Member::Subject);
    let message = required_text_spec(ms, Member::Message);
    let attachments = optional_list_spec(ms, Member::Attachments);
    if from is Err {
        Err(from->Err_0)
    } else if to is Err {
        Err(to->Err_0)
    } else if cc is Err {
        Err(cc->Err_0)
    } else if bcc is Err {
        Err(bcc->Err_0)
    } else if reply_to is Err {
        Err(reply_to->Err_0)
    } else if sender_name is Err {
        Err(sender_name->Err_0)
    } else if sender_email is Err {
        Err(sender_email->Err_0)
    } else if subject is Err {
        Err(subject->Err_0)
    } else if message is Err {
        Err(message->Err_0)
    } else if attachments is Err {
        Err(attachments->Err_0)
    } else {
        Ok(MailView {
            from: from->Ok_0,
            to: to->Ok_0,
            cc: cc->Ok_0,
            bcc: bcc->Ok_0,
            reply_to: reply_to->Ok_0,
            sender_name: sender_name->Ok_0,
            sender_email: sender_email->Ok_0,
            subject: subject->Ok_0,
            message: message->Ok_0,
            attachments: attachments->Ok_0,
        })
    }
}

/// The first of from, to, subject and message that is empty.
pub open spec fn first_empty(v: MailView) -> Option<Field> {
    if v.from.len() == 0 {
        Some(Field::From)
    } else if v.to.len() == 0 {
        Some(Field::To)
    } else if v.subject.len() == 0 {
        Some(Field::Subject)
    } else if v.message.len() == 0 {
        Some(Field::Message)
    } else {
        None
    }
}

/// The required fields are checked in the order from, to, subject, message; the
/// first empty one is the error.
pub open spec fn validate_spec(v: MailView) -> Result<MailView, DecodeFailure> {
    match first_empty(v) {
        Some(f) => Err(DecodeFailure::EmptyField(f)),
        None => Ok(v),
    }
}

/// What a parsed JSON document decodes to.
pub open spec fn document_spec(doc: ParsedDocument) -> Result<MailView, DecodeFailure> {
    match doc {
        Err(e) => Err(DecodeFailure::InvalidJson(e@)),
        Ok(None) => Err(DecodeFailure::NotAnObject),
        Ok(Some(ms)) => match schema_spec(ms@) {
            Err(e) => Err(e),
            Ok(v) => validate_spec(v),
        },
    }
}

/// The failure a declared content type gives, if any.
pub open spec fn content_type_spec(content_type: Option<Seq<char>>) -> Option<DecodeFailure> {
    match content_type {
        None => Some(DecodeFailure::MissingContentType),
        Some(t) => if t == JSON_MEDIA_TYPE@ {
            None
        } else {
            Some(DecodeFailure::InvalidContentType(t))
        },
    }
}

pub open spec fn opt_str_view(o: Option<&str>) -> Option<Seq<char>> {
    match o {
        Some(s) => Some(s@),
        None => None,
    }
}

/// What a request decodes to: the content type first, then the encoding of the
/// body, then the JSON document it holds.
pub open spec fn request_spec(content_type: Option<Seq<char>>, body: Seq<u8>) -> Result<MailView, DecodeFailure> {
    match content_type_spec(content_type) {
        Some(e) => Err(e),
        None => if !valid_utf8(body) {
            Err(DecodeFailure::InvalidEncoding)
        } else {
            document_spec(json_document_of(decode_utf8(body)))
        },
    }
}

/// The index of the first member named after `m`, if there is one.
fn find_member(ms: &Vec<(String, JsonField)>, m: Member) -> (r: Option<usize>)
    ensures
        match r {
            None => lookup(ms@, m) is None,
            Some(i) => i < ms@.len() && lookup(ms@, m) == Some(ms@[i as int].1),
        },
{
    let key = String::from_str(m.key());
    let mut i: usize = 0;
    while i < ms.len()
        invariant
            i <= ms@.len(),
            key@ == member_key(m),
            lookup(ms@, m) == lookup_from(ms@, key@, i as int),
        decreases ms@.len() - i,
    {
        if ms[i].0 == key {
            return Some(i);
        }
        i = i + 1;
    }
    None
}

fn required_text(ms: &Vec<(String, JsonField)>, m: Member) -> (r: Result<String, DecodeError>)
    ensures
        decoded_view(r) == required_text_spec(ms@, m),
{
    match find_member(ms, m) {
        None => Err(DecodeError::MissingMember(m)),
        Some(i) => match &ms[i].1 {
            JsonField::Text(s) => Ok(s.clone()),
            _ => Err(DecodeError::WrongType(m)),
        },
    }
}

fn optional_text(ms: &Vec<(String, JsonField)>, m: Member) -> (r: Result<Option<String>, DecodeError>)
    ensures
        match (r, optional_text_spec(ms@, m)) {
            (Ok(o), Ok(w)) => opt_text_view(o) == w,
            (Err(e), Err(f)) => e@ == f,
            _ => false,
        },
{
    match find_member(ms, m) {
        None => Ok(None),
        Some(i) => match &ms[i].1 {
            JsonField::Null => Ok(None),
            JsonField::Text(s) => Ok(Some(s.clone())),
            _ => Err(DecodeError::WrongType(m)),
        },
    }
}

/// The strings of an array, or `None` where an element is not a string.
fn texts_of(items: &Vec<Option<String>>) -> (r: Option<Vec<String>>)
    ensures
        r is Some <==> all_texts(items@),
        r is Some ==> texts_view(r->Some_0@) == items@.map_values(|o: Option<String>| o->Some_0@),
{
    let mut out: Vec<String> = Vec::new();
    let mut i: usize = 0;
    while i < items.len()
        invariant
            i <= items@.len(),
            out@.len() == i,
            forall|j: int| 0 <= j < i ==> (#[trigger] items@[j]) is Some,
            forall|j: int| 0 <= j < i ==> (#[trigger] out@[j])@ == items@[j]->Some_0@,
        decreases items@.len() - i,
    {
        match &items[i] {
            Some(s) => out.push(s.clone()),
            None => return None,
        }
        i = i + 1;
    }
    assert(texts_view(out@) =~= items@.map_values(|o: Option<String>| o->Some_0@));
    Some(out)
}

fn optional_list(ms: &Vec<(String, JsonField)>, m: Member) -> (r: Result<Option<Vec<String>>, DecodeError>)
    ensures
        match (r, optional_list_spec(ms@, m)) {
            (Ok(Some(v)), Ok(Some(w))) => texts_view(v@) == w,
            (Ok(None), Ok(None)) => true,
            (Err(e), Err(f)) => e@ == f,
            _ => false,
        },
{
    match find_member(ms, m) {
        None => Ok(None),
        Some(i) => match &ms[i].1 {
            JsonField::Null => Ok(None),
            JsonField::List(items) => match texts_of(items) {
                Some(v) => Ok(Some(v)),
                None => Err(DecodeError::WrongType(m)),
            },
            _ => Err(DecodeError::WrongType(m)),
        },
    }
}


/// Reads an object's members into a request, without the emptiness checks.
pub fn read_members(ms: &Vec<(String, JsonField)>) -> (r: Result<MailRequest, DecodeError>)
    ensures
        decoded_view(r) == schema_spec(ms@),
{
    let from = required_text(ms, Member::From)?;
    let to = required_text(ms, Member::To)?;
    let cc = optional_text(ms, Member::Cc)?;
    let bcc = optional_text(ms, Member::Bcc)?;
    let reply_to = optional_text(ms, Member::ReplyTo)?;
    let sender_name = optional_text(ms, Member::SenderName)?;
    let sender_email = optional_text(ms, Member::SenderEmail)?;
    let subject = required_text(ms, Member::Subject)?;
    let message = required_text(ms, Member::Message)?;
    let attachments = optional_list(ms, Member::Attachments)?;
    Ok(MailRequest {
        from,
        to,
        cc,
        bcc,
        reply_to,
        sender_name,
        sender_email,
        subject,
        message,
        attachments,
    })
}

/// Checks that from, to, subject and message are not empty, in that order.
pub fn validate(mail: MailRequest) -> (r: Result<MailRequest, DecodeError>)
    ensures
        decoded_view(r) == validate_spec(mail@),
{
    if mail.from.as_str().is_empty() {
        Err(DecodeError::EmptyField(Field::From))
    } else if mail.to.as_str().is_empty() {
        Err(DecodeError::EmptyField(Field::To))
    } else if mail.subject.as_str().is_empty() {
        Err(DecodeError::EmptyField(Field::Subject))
    } else if mail.message.as_str().is_empty() {
        Err(DecodeError::EmptyField(Field::Message))
    } else {
        Ok(mail)
    }
}

/// Decodes a request from what the JSON parser made of the body.
pub fn decode_document(doc: &ParsedDocument) -> (r: Result<MailRequest, DecodeError>)
    ensures
        decoded_view(r) == document_spec(*doc),
{
    match doc {
        Err(e) => Err(DecodeError::InvalidJson(e.clone())),
        Ok(None) => Err(DecodeError::NotAnObject),
        Ok(Some(ms)) => {
            let mail = read_members(ms)?;
            validate(mail)
        },
    }
}

/// Checks the declared content type; the body is not looked at.
pub fn check_content_type(content_type: Option<&str>) -> (r: Result<(), DecodeError>)
    ensures
        match content_type_spec(opt_str_view(content_type)) {
            None => r is Ok,
            Some(f) => r is Err && r->Err_0@ == f,
        },
{
    match content_type {
        None => Err(DecodeError::MissingContentType),
        Some(t) => {
            let declared = String::from_str(t);
            if declared == String::from_str(JSON_MEDIA_TYPE) {
                Ok(())
            } else {
                Err(DecodeError::InvalidContentType(declared))
            }
        },
    }
}

/// Decodes a send request from its declared content type and its raw body.
pub fn decode_request(content_type: Option<&str>, body: &[u8]) -> (r: Result<MailRequest, DecodeError>)
    ensures
        decoded_view(r) == request_spec(opt_str_view(content_type), body@),
{
    check_content_type(content_type)?;
    match utf8_text(body) {
        None => Err(DecodeError::InvalidEncoding),
        Some(text) => {
            let doc = parse_document(text);
            decode_document(&doc)
        },
    }
}


/// The text that tells the caller why decoding failed.
pub open spec fn decode_message(f: DecodeFailure) -> Seq<char> {
    match f {
        DecodeFailure::MissingContentType => "No content type"@,
        DecodeFailure::InvalidContentType(t) => "Invalid content type: "@ + t,
        DecodeFailure::InvalidEncoding => "Invalid UTF-8 sequence"@,
        DecodeFailure::InvalidJson(e) => "Invalid JSON: "@ + e,
        DecodeFailure::NotAnObject => "Invalid JSON: expected an object"@,
        DecodeFailure::MissingMember(m) => "Invalid JSON: missing field `"@ + member_key(m) + "`"@,
        DecodeFailure::WrongType(m) => "Invalid JSON: invalid type for field `"@ + member_key(m) + "`"@,
        DecodeFailure::EmptyField(Field::From) => "No from address"@,
        DecodeFailure::EmptyField(Field::To) => "No to address"@,
        DecodeFailure::EmptyField(Field::Subject) => "No subject"@,
        DecodeFailure::EmptyField(Field::Message) => "No message"@,
    }
}

impl DecodeError {
    /// The text that tells the caller why decoding failed.
    pub fn message(&self) -> (r: String)
        ensures
            r@ == decode_message(self@),
    {
        match self {
            DecodeError::MissingContentType => String::from_str("No content type"),
            DecodeError::InvalidContentType(t) => String::from_str("Invalid content type: ").concat(t.as_str()),
            DecodeError::InvalidEncoding => String::from_str("Invalid UTF-8 sequence"),
            DecodeError::InvalidJson(e) => String::from_str("Invalid JSON: ").concat(e.as_str()),
            DecodeError::NotAnObject => String::from_str("Invalid JSON: expected an object"),
            DecodeError::MissingMember(m) => String::from_str("Invalid JSON: missing field `").concat(m.key()).concat("`"),
            DecodeError::WrongType(m) => String::from_str("Invalid JSON: invalid type for field `").concat(m.key()).concat("`"),
            DecodeError::EmptyField(Field::From) => String::from_str("No from address"),
            DecodeError::EmptyField(Field::To) => String::from_str("No to address"),
            DecodeError::EmptyField(Field::Subject) => String::from_str("No subject"),
            DecodeError::EmptyField(Field::Message) => String::from_str("No message"),
        }
    }
}

} // verus!
