use sentry_tunnel::config::Config;
use sentry_tunnel::envelope::BodyError;
use sentry_tunnel::envelope::Scheme;
use sentry_tunnel::gateway::ForwardResult;
use sentry_tunnel::gateway::HeaderError;
use sentry_tunnel::gateway::TunnelError;
use sentry_tunnel::gateway::process;
use sentry_tunnel::gateway::response_for_forward;
use sentry_tunnel::gateway::response_for_rejection;

fn test_config(hosts: &[&str], ids: &[&str]) -> Config {
    let host_urls: Vec<String> = hosts.iter().map(|h| h.to_string()).collect();
    let id_list: Vec<String> = ids.iter().map(|i| i.to_string()).collect();
    Config::try_new(
        &host_urls,
        id_list,
        7878,
        "/tunnel".to_string(),
        "0.0.0.0".to_string(),
    )
    .unwrap()
}

fn content_length_of(body: &[u8]) -> Vec<u8> {
    format!("{}", body.len()).into_bytes()
}

fn body_of(lines: &[&str]) -> Vec<u8> {
    lines.join("\n").into_bytes()
}

#[test]
fn authorized_envelope_is_forwarded_byte_exactly() {
    let config = test_config(&["http://relay.example"], &["5"]);
    let body = body_of(&[
        r#"{"dsn":"http://public@relay.example/5"}"#,
        r#"{"type":"session"}"#,
        r#"{"status":"ok"}"#,
    ]);
    let len = content_length_of(&body);
    let env = process(&config, Some(&len), body.clone()).unwrap();
    assert_eq!(env.raw_body, body);
    assert_eq!(env.dsn.scheme, Scheme::Http);
    assert_eq!(env.dsn.public_key, "public");
    assert_eq!(env.dsn.host, "relay.example");
    assert_eq!(env.dsn.port, 80);
    assert_eq!(env.dsn.project_id, "5");
    let request = env.forward_request();
    assert_eq!(request.method(), "POST");
    assert_eq!(request.content_type(), "application/x-sentry-envelope");
    assert_eq!(
        request.uri,
        "http://relay.example/api/5/envelope/?sentry_key=public"
    );
    assert_eq!(request.body, body);
    let (status, text) = response_for_forward(ForwardResult::Delivered);
    assert_eq!(status, 200);
    assert_eq!(text, "");
}

#[test]
fn unpermitted_host_is_rejected() {
    let config = test_config(&["http://relay.example"], &["5"]);
    let body = body_of(&[
        r#"{"dsn":"https://public@not-allowed.example/5"}"#,
        r#"{"type":"session"}"#,
    ]);
    let len = content_length_of(&body);
    let err = process(&config, Some(&len), body).unwrap_err();
    assert!(matches!(
        err,
        TunnelError::Header(HeaderError::InvalidHost)
    ));
    let (status, text) = response_for_rejection(&err);
    assert_eq!(status, 400);
    assert_eq!(
        text,
        "Invalid sentry host, check your config against the dsn used in the request."
    );
}

#[test]
fn missing_descriptor_is_rejected() {
    let config = test_config(&["http://relay.example"], &["5"]);
    let body = body_of(&[
        r#"{"sent_at":"2021-10-14T17:10:40.136Z"}"#,
        r#"{"type":"session"}"#,
        r#"{"status":"ok"}"#,
    ]);
    let len = content_length_of(&body);
    let err = process(&config, Some(&len), body).unwrap_err();
    assert!(matches!(
        err,
        TunnelError::Body(BodyError::MissingDsnKeyInHeader)
    ));
    let (status, text) = response_for_rejection(&err);
    assert_eq!(status, 400);
    assert_eq!(text, "The dsn key is missing from the header header");
}

#[test]
fn unpermitted_project_id_is_rejected_before_host() {
    // The host is not permitted either, but the submission id is checked
    // first and alone names the rejection.
    let config = test_config(&["https://sentry.example.com/"], &["5"]);
    let body = body_of(&[
        r#"{"dsn":"https://public@elsewhere.example.com/4"}"#,
        r#"{"type":"session"}"#,
    ]);
    let len = content_length_of(&body);
    let err = process(&config, Some(&len), body).unwrap_err();
    assert!(matches!(
        err,
        TunnelError::Body(BodyError::InvalidProjectId)
    ));
    let (status, text) = response_for_rejection(&err);
    assert_eq!(status, 400);
    assert_eq!(text, "Unauthorized project ID");
}

#[test]
fn missing_content_length_is_rejected() {
    let config = test_config(&["http://relay.example"], &["5"]);
    let body: Vec<u8> = br#"{"dsn":"http://public@relay.example/5"}"#.to_vec();
    let err = process(&config, None, body).unwrap_err();
    assert!(matches!(
        err,
        TunnelError::Header(HeaderError::MissingContentLength)
    ));
    let (status, text) = response_for_rejection(&err);
    assert_eq!(status, 400);
    assert_eq!(text, "Missing content length header.");
}

#[test]
fn unparseable_content_length_is_rejected() {
    let config = test_config(&["http://relay.example"], &["5"]);
    let body: Vec<u8> = br#"{"dsn":"http://public@relay.example/5"}"#.to_vec();
    let err = process(&config, Some(b"12abc"), body).unwrap_err();
    assert!(matches!(
        err,
        TunnelError::Header(HeaderError::CouldNotParseContentLength)
    ));
    let (status, text) = response_for_rejection(&err);
    assert_eq!(status, 400);
    assert_eq!(text, "could not parse content length header.");
}

#[test]
fn oversized_content_length_is_rejected_before_parsing() {
    let config = test_config(&["http://relay.example"], &["5"]);
    // The body is not even valid JSON, but the declared length decides first.
    let body: Vec<u8> = b"not an envelope at all".to_vec();
    let err = process(&config, Some(b"10000001"), body).unwrap_err();
    assert!(matches!(
        err,
        TunnelError::Header(HeaderError::ContentIsTooBig)
    ));
    let (status, text) = response_for_rejection(&err);
    assert_eq!(status, 400);
    assert_eq!(text, "Content length too big.");
}

#[test]
fn content_length_at_the_maximum_is_accepted() {
    let config = test_config(&["http://relay.example"], &["5"]);
    let body: Vec<u8> = br#"{"dsn":"http://public@relay.example/5"}"#.to_vec();
    let env = process(&config, Some(b"10000000"), body.clone()).unwrap();
    assert_eq!(env.raw_body, body);
}

#[test]
fn malformed_json_line_is_rejected() {
    let config = test_config(&["http://relay.example"], &["5"]);
    let body = body_of(&[
        r#"{"type":"session"}"#,
        r#"{"dsn": not json"#,
        r#"{"dsn":"http://public@relay.example/5"}"#,
    ]);
    let len = content_length_of(&body);
    let err = process(&config, Some(&len), body).unwrap_err();
    match err {
        TunnelError::Body(BodyError::InvalidHeaderJson(_)) => {}
        other => panic!("unexpected rejection: {:?}", other),
    }
}

#[test]
fn non_string_descriptor_value_is_rejected() {
    let config = test_config(&["http://relay.example"], &["5"]);
    let body: Vec<u8> = br#"{"dsn":5}"#.to_vec();
    let len = content_length_of(&body);
    let err = process(&config, Some(&len), body).unwrap_err();
    assert!(matches!(err, TunnelError::Body(BodyError::InvalidDsnValue)));
    let (status, text) = response_for_rejection(&err);
    assert_eq!(status, 400);
    assert_eq!(text, "Failed to parse dsn value");
}

#[test]
fn malformed_descriptor_uri_is_rejected() {
    let config = test_config(&["http://relay.example"], &["5"]);
    let body: Vec<u8> = br#"{"dsn":"not a descriptor uri"}"#.to_vec();
    let len = content_length_of(&body);
    let err = process(&config, Some(&len), body).unwrap_err();
    assert!(matches!(err, TunnelError::Body(BodyError::MalformedDsn)));
    let (status, text) = response_for_rejection(&err);
    assert_eq!(status, 400);
    assert_eq!(text, "Failed to parse the dsn url");
}

#[test]
fn non_numeric_submission_id_is_rejected_as_malformed() {
    let config = test_config(&["http://relay.example"], &["5"]);
    let body: Vec<u8> = br#"{"dsn":"http://public@relay.example/abc"}"#.to_vec();
    let len = content_length_of(&body);
    let err = process(&config, Some(&len), body).unwrap_err();
    assert!(matches!(err, TunnelError::Body(BodyError::MalformedDsn)));
}

#[test]
fn descriptor_beyond_the_scan_bound_is_not_seen() {
    let config = test_config(&["http://relay.example"], &["5"]);
    let mut text = String::new();
    for _ in 0..50 {
        text.push_str("{\"type\":\"session\"}\n");
    }
    text.push_str(r#"{"dsn":"http://public@relay.example/5"}"#);
    let body = text.into_bytes();
    let len = content_length_of(&body);
    let err = process(&config, Some(&len), body).unwrap_err();
    assert!(matches!(
        err,
        TunnelError::Body(BodyError::MissingDsnKeyInHeader)
    ));
}

#[test]
fn descriptor_on_the_last_scanned_line_is_found() {
    let config = test_config(&["http://relay.example"], &["5"]);
    let mut text = String::new();
    for _ in 0..49 {
        text.push_str("{\"type\":\"session\"}\n");
    }
    text.push_str(r#"{"dsn":"http://public@relay.example/5"}"#);
    let body = text.into_bytes();
    let len = content_length_of(&body);
    let env = process(&config, Some(&len), body.clone()).unwrap();
    assert_eq!(env.raw_body, body);
    assert_eq!(env.dsn.host, "relay.example");
}

#[test]
fn crlf_terminated_lines_are_scanned() {
    let config = test_config(&["http://relay.example"], &["5"]);
    let body = [
        r#"{"type":"session"}"#,
        r#"{"dsn":"http://public@relay.example/5"}"#,
        r#"{"status":"ok"}"#,
        "",
    ]
    .join("\r\n")
    .into_bytes();
    let len = content_length_of(&body);
    let env = process(&config, Some(&len), body.clone()).unwrap();
    assert_eq!(env.raw_body, body);
    assert_eq!(env.dsn.project_id, "5");
}

#[test]
fn explicit_port_is_kept_in_the_upstream_uri() {
    let config = test_config(&["http://relay.example"], &["5"]);
    let body: Vec<u8> = br#"{"dsn":"http://public@relay.example:8080/5"}"#.to_vec();
    let len = content_length_of(&body);
    let env = process(&config, Some(&len), body).unwrap();
    assert_eq!(env.dsn.port, 8080);
    let request = env.forward_request();
    assert_eq!(
        request.uri,
        "http://relay.example:8080/api/5/envelope/?sentry_key=public"
    );
}

#[test]
fn resubmitting_the_same_envelope_forwards_each_time() {
    let config = test_config(&["http://relay.example"], &["5"]);
    let body: Vec<u8> = br#"{"dsn":"http://public@relay.example/5"}"#.to_vec();
    let len = content_length_of(&body);
    let first = process(&config, Some(&len), body.clone()).unwrap();
    let second = process(&config, Some(&len), body.clone()).unwrap();
    let first_request = first.forward_request();
    let second_request = second.forward_request();
    assert_eq!(first_request.uri, second_request.uri);
    assert_eq!(first_request.body, second_request.body);
    assert_eq!(first_request.body, body);
}

#[test]
fn transport_failure_maps_to_a_server_error() {
    let (status, text) =
        response_for_forward(ForwardResult::TransportFailure("timed out".to_string()));
    assert_eq!(status, 500);
    assert_eq!(text, "timed out");
}
