use arp_gmail::json::JsonField;
use arp_gmail::request::{
    check_content_type, decode_document, decode_request, validate, DecodeError, Field, MailRequest,
    Member,
};

const VALID: &str = r#"{"from":"a@x.com","to":"b@y.com","subject":"Hi","message":"Hello"}"#;

fn decode(body: &str) -> Result<MailRequest, DecodeError> {
    decode_request(Some("application/json"), body.as_bytes())
}

#[test]
fn decodes_minimal_request() {
    let m = decode(VALID).unwrap();
    assert_eq!(m.from, "a@x.com");
    assert_eq!(m.to, "b@y.com");
    assert_eq!(m.subject, "Hi");
    assert_eq!(m.message, "Hello");
    assert_eq!(m.cc, None);
    assert_eq!(m.attachments, None);
}

#[test]
fn decodes_optional_members() {
    let body = r#"{"from":"a@x.com","to":"b@y.com","cc":"c@z.com","bcc":null,"reply_to":"r@x.com",
        "sender_name":"A","sender_email":"s@x.com","subject":"Hi","message":"Hello",
        "attachments":["one.txt","two.txt"]}"#;
    let m = decode(body).unwrap();
    assert_eq!(m.cc, Some("c@z.com".to_string()));
    assert_eq!(m.bcc, None);
    assert_eq!(m.reply_to, Some("r@x.com".to_string()));
    assert_eq!(m.sender_name, Some("A".to_string()));
    assert_eq!(m.sender_email, Some("s@x.com".to_string()));
    assert_eq!(m.attachments, Some(vec!["one.txt".to_string(), "two.txt".to_string()]));
}

#[test]
fn missing_content_type_is_rejected() {
    assert_eq!(decode_request(None, VALID.as_bytes()), Err(DecodeError::MissingContentType));
    assert_eq!(check_content_type(None), Err(DecodeError::MissingContentType));
}

#[test]
fn wrong_content_type_is_rejected_whatever_the_body() {
    let e = decode_request(Some("text/plain"), VALID.as_bytes()).unwrap_err();
    assert_eq!(e, DecodeError::InvalidContentType("text/plain".to_string()));
    assert_eq!(e.message(), "Invalid content type: text/plain");
    let e2 = decode_request(Some("text/plain"), b"\xff not json").unwrap_err();
    assert_eq!(e2, e);
    assert_eq!(check_content_type(Some("application/json")), Ok(()));
    assert!(check_content_type(Some("application/json; charset=utf-8")).is_err());
}

#[test]
fn invalid_utf8_is_rejected() {
    let e = decode_request(Some("application/json"), b"{\"from\":\"\xff\"}").unwrap_err();
    assert_eq!(e, DecodeError::InvalidEncoding);
    assert_eq!(e.message(), "Invalid UTF-8 sequence");
}

#[test]
fn invalid_json_reports_the_parser() {
    let e = decode("{not json").unwrap_err();
    match &e {
        DecodeError::InvalidJson(text) => assert!(!text.is_empty()),
        other => panic!("unexpected {:?}", other),
    }
    assert!(e.message().starts_with("Invalid JSON: "));
    assert!(e.message().len() > "Invalid JSON: ".len());
}

#[test]
fn non_object_document_is_rejected() {
    assert_eq!(decode("[1, 2]"), Err(DecodeError::NotAnObject));
    assert_eq!(decode("\"text\""), Err(DecodeError::NotAnObject));
}

#[test]
fn missing_member_is_named() {
    let e = decode(r#"{"to":"b@y.com","subject":"Hi","message":"Hello"}"#).unwrap_err();
    assert_eq!(e, DecodeError::MissingMember(Member::From));
    assert_eq!(e.message(), "Invalid JSON: missing field `from`");
    let e = decode(r#"{"from":"a@x.com","to":"b@y.com","subject":"Hi"}"#).unwrap_err();
    assert_eq!(e, DecodeError::MissingMember(Member::Message));
}

#[test]
fn wrong_member_types_are_named() {
    let e = decode(r#"{"from":"a@x.com","to":"b@y.com","cc":5,"subject":"Hi","message":"Hello"}"#).unwrap_err();
    assert_eq!(e, DecodeError::WrongType(Member::Cc));
    assert_eq!(e.message(), "Invalid JSON: invalid type for field `cc`");
    let e = decode(r#"{"from":null,"to":"b@y.com","subject":"Hi","message":"Hello"}"#).unwrap_err();
    assert_eq!(e, DecodeError::WrongType(Member::From));
    let e = decode(r#"{"from":"a@x.com","to":"b@y.com","subject":"Hi","message":"Hello","attachments":["a",1]}"#)
        .unwrap_err();
    assert_eq!(e, DecodeError::WrongType(Member::Attachments));
}

#[test]
fn empty_fields_are_reported_in_order() {
    let cases = [
        (r#"{"from":"","to":"","subject":"","message":""}"#, Field::From, "No from address"),
        (r#"{"from":"a@x.com","to":"","subject":"","message":""}"#, Field::To, "No to address"),
        (r#"{"from":"a@x.com","to":"b@y.com","subject":"","message":""}"#, Field::Subject, "No subject"),
        (r#"{"from":"a@x.com","to":"b@y.com","subject":"Hi","message":""}"#, Field::Message, "No message"),
    ];
    for (body, field, text) in cases {
        let e = decode(body).unwrap_err();
        assert_eq!(e, DecodeError::EmptyField(field));
        assert_eq!(e.message(), text);
    }
}

#[test]
fn empty_to_is_reported() {
    let e = decode(r#"{"from":"a@x.com","to":"","subject":"Hi","message":"Hello"}"#).unwrap_err();
    assert_eq!(e.message(), "No to address");
}

#[test]
fn document_decoding_from_members() {
    let members = vec![
        ("from".to_string(), JsonField::Text("a@x.com".to_string())),
        ("message".to_string(), JsonField::Text("Hello".to_string())),
        ("subject".to_string(), JsonField::Text("Hi".to_string())),
        ("to".to_string(), JsonField::Text("b@y.com".to_string())),
        ("attachments".to_string(), JsonField::List(vec![Some("f".to_string())])),
    ];
    let m = decode_document(&Ok(Some(members))).unwrap();
    assert_eq!(m.to, "b@y.com");
    assert_eq!(m.attachments, Some(vec!["f".to_string()]));
    assert_eq!(
        decode_document(&Err("bad".to_string())),
        Err(DecodeError::InvalidJson("bad".to_string()))
    );
    assert_eq!(decode_document(&Ok(None)), Err(DecodeError::NotAnObject));
    let members = vec![("from".to_string(), JsonField::Other)];
    assert_eq!(decode_document(&Ok(Some(members))), Err(DecodeError::WrongType(Member::From)));
}

#[test]
fn validate_keeps_a_complete_request() {
    let m = decode(VALID).unwrap();
    let again = decode(VALID).unwrap();
    assert_eq!(validate(m), Ok(again));
}
