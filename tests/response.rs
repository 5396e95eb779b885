use arp_gmail::compose::{compose, ComposeError};
use arp_gmail::handler::{prepare, respond};
use arp_gmail::plugin::{about, routes};
use arp_gmail::request::decode_request;
use arp_gmail::response::{encode, response_status, ResponseEnvelope, Status, SubmissionOutcome};
use arp_gmail::transport::{relay_transport, Credentials};

const VALID: &str = r#"{"from":"a@x.com","to":"b@y.com","subject":"Hi","message":"Hello"}"#;

fn fields(text: &str) -> (String, String) {
    let v: serde_json::Value = serde_json::from_str(text).unwrap();
    let obj = v.as_object().unwrap();
    assert_eq!(obj.len(), 2);
    (
        obj["status"].as_str().unwrap().to_string(),
        obj["message"].as_str().unwrap().to_string(),
    )
}

fn rejected(content_type: Option<&str>, body: &[u8]) -> (String, String) {
    match prepare(content_type, body) {
        Ok(_) => panic!("request was accepted"),
        Err(env) => fields(&encode(&env)),
    }
}

#[test]
fn valid_request_is_composed() {
    assert!(prepare(Some("application/json"), VALID.as_bytes()).is_ok());
}

#[test]
fn success_response_reports_the_acknowledgement() {
    let text = respond(&SubmissionOutcome::Success("250 OK".to_string()));
    assert_eq!(
        fields(&text),
        ("success".to_string(), "Email sent successfully: 250 OK".to_string())
    );
    assert_eq!(response_status(&text), Some(Status::Success));
}

#[test]
fn failure_response_is_an_error() {
    let text = respond(&SubmissionOutcome::Failure("connection refused".to_string()));
    assert_eq!(
        fields(&text),
        ("error".to_string(), "Failed to send email: connection refused".to_string())
    );
    assert_eq!(response_status(&text), Some(Status::Error));
}

#[test]
fn empty_to_gives_error_response() {
    let body = r#"{"from":"a@x.com","to":"","subject":"Hi","message":"Hello"}"#;
    assert_eq!(
        rejected(Some("application/json"), body.as_bytes()),
        ("error".to_string(), "No to address".to_string())
    );
}

#[test]
fn plain_text_content_type_gives_error_response() {
    assert_eq!(
        rejected(Some("text/plain"), VALID.as_bytes()),
        ("error".to_string(), "Invalid content type: text/plain".to_string())
    );
    assert_eq!(
        rejected(None, VALID.as_bytes()),
        ("error".to_string(), "No content type".to_string())
    );
}

#[test]
fn invalid_json_gives_error_response() {
    let (status, message) = rejected(Some("application/json"), b"{\"from\":");
    assert_eq!(status, "error");
    assert!(message.starts_with("Invalid JSON: "));
}

#[test]
fn first_empty_field_is_reported() {
    let body = r#"{"from":"a@x.com","to":"b@y.com","subject":"","message":""}"#;
    assert_eq!(
        rejected(Some("application/json"), body.as_bytes()),
        ("error".to_string(), "No subject".to_string())
    );
}

#[test]
fn unparseable_addresses_are_rejected() {
    let bad_from = r#"{"from":"not an address","to":"b@y.com","subject":"Hi","message":"Hello"}"#;
    let m = decode_request(Some("application/json"), bad_from.as_bytes()).unwrap();
    assert_eq!(compose(&m).err(), Some(ComposeError::InvalidFrom));
    assert_eq!(
        rejected(Some("application/json"), bad_from.as_bytes()),
        ("error".to_string(), "Invalid from address".to_string())
    );
    let bad_to = r#"{"from":"a@x.com","to":"nobody","subject":"Hi","message":"Hello"}"#;
    let m = decode_request(Some("application/json"), bad_to.as_bytes()).unwrap();
    assert_eq!(compose(&m).err(), Some(ComposeError::InvalidTo));
    assert_eq!(ComposeError::InvalidTo.message(), "Invalid to address");
}

#[test]
fn messages_are_escaped_in_the_response() {
    let env = ResponseEnvelope::error("say \"hi\"\nnow".to_string());
    let text = encode(&env);
    assert_eq!(
        text,
        "{\n  \"status\": \"error\",\n  \"message\": \"say \\\"hi\\\"\\nnow\"\n}"
    );
    assert_eq!(fields(&text), ("error".to_string(), "say \"hi\"\nnow".to_string()));
}

#[test]
fn response_status_of_other_text_is_none() {
    assert_eq!(response_status("{\"status\":\"success\"}"), None);
    assert_eq!(response_status(""), None);
}

#[test]
fn routes_list_both_endpoints() {
    let text = routes();
    let v: serde_json::Value = serde_json::from_str(&text).unwrap();
    let list = v.as_array().unwrap();
    assert_eq!(list.len(), 2);
    assert_eq!(list[0]["path"], "/sendmail");
    assert_eq!(list[0]["function"], "sendmail");
    assert_eq!(list[0]["method_router"], "post");
    assert_eq!(list[0]["response_type"], "json");
    assert_eq!(list[1]["path"], "/about");
    assert_eq!(list[1]["method_router"], "get");
    assert!(text.starts_with("[\n  {\n    \"path\": \"/sendmail\",\n"));
}

#[test]
fn about_describes_the_plugin() {
    let text = about();
    assert!(text.starts_with("Name: arp-gmail\nVersion: 0.1.0\n"));
    assert!(text.ends_with("License: MIT"));
}

#[test]
fn relay_transport_is_set_up_for_a_host_name() {
    let creds = Credentials {
        username: "user".to_string(),
        password: "secret".to_string(),
        server: "smtp.example.com".to_string(),
    };
    match relay_transport(&creds) {
        Ok(_) => {}
        Err(outcome) => panic!("relay was not set up: {:?}", outcome),
    }
}

#[test]
fn quoted_control_characters_use_unicode_escapes() {
    let env = ResponseEnvelope::error("a\u{1}b\tc\\".to_string());
    assert_eq!(
        encode(&env),
        "{\n  \"status\": \"error\",\n  \"message\": \"a\\u0001b\\tc\\\\\"\n}"
    );
}

#[test]
fn quoted_local_part_does_not_build() {
    let body = r#"{"from":"\"\\\"a b\\\"\"@x.com","to":"b@y.com","subject":"Hi","message":"Hello"}"#;
    let m = decode_request(Some("application/json"), body.as_bytes()).unwrap();
    assert_eq!(m.from, r#""\"a b\""@x.com"#);
    assert_eq!(compose(&m).err(), Some(ComposeError::Build));
    assert_eq!(
        rejected(Some("application/json"), body.as_bytes()),
        ("error".to_string(), "Failed to build message".to_string())
    );
}
