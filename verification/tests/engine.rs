use async_compression::futures::bufread::{GzipDecoder, GzipEncoder};
use origin_proxy::coder::Encoding;
use origin_proxy::engine::{Action, Body, Event, Stage};
use origin_proxy::error::ForwardError;
use origin_proxy::forward::Forward;
use origin_proxy::message::{RequestHead, ResponseHead};
use smol::future::block_on;
use smol::io::AsyncReadExt;

fn engine_table() -> Forward {
    let pairs = vec![
        ("pub.example".to_string(), "https://origin.internal:8443".to_string()),
        ("plain.example".to_string(), "http://plain.internal".to_string()),
        ("odd.example".to_string(), "ftp://files.internal".to_string()),
    ];
    Forward::new(&pairs).unwrap()
}

fn client_request(domain: &str) -> RequestHead {
    RequestHead {
        scheme: "http".to_string(),
        host: Some(domain.to_string()),
        port: Some(80),
        path: "/index.html?q=1".to_string(),
        host_header: Some(domain.to_string()),
    }
}

fn origin_head(status: u16, encoding: Option<&str>, content_type: Option<&str>) -> ResponseHead {
    ResponseHead {
        status,
        location: Some("https://origin.internal:8443/x".to_string()),
        referer: None,
        set_cookie: vec!["id=1; Domain=origin.internal; Path=/; Secure".to_string()],
        content_encoding: encoding.map(|s| s.to_string()),
        content_type: content_type.map(|s| s.to_string()),
    }
}

fn engine_gzip(bytes: &[u8]) -> Vec<u8> {
    let mut out = Vec::new();
    block_on(GzipEncoder::new(bytes).read_to_end(&mut out)).unwrap();
    out
}

fn engine_gunzip(bytes: &[u8]) -> Vec<u8> {
    let mut out = Vec::new();
    block_on(GzipDecoder::new(bytes).read_to_end(&mut out)).unwrap();
    out
}

fn expect_failure(step: (Stage, Action), message: &str) {
    match step {
        (Stage::Done, Action::Fail(e)) => {
            assert_eq!(e.status, 500);
            assert_eq!(e.message, message);
        },
        other => panic!("{:?}", other),
    }
}

#[test]
fn request_without_domain_fails() {
    let forward = engine_table();
    expect_failure(forward.forward(None, client_request("pub.example")), "missing domain");
}

#[test]
fn request_to_an_unmapped_domain_is_a_500_without_any_connection() {
    let forward = engine_table();
    let step = forward.forward(Some("other.example"), client_request("other.example"));
    match &step {
        (Stage::Done, Action::Fail(e)) => {
            assert_eq!(e.status, 500);
            assert_eq!(e.message, "invalid domain, check config file");
        },
        other => panic!("{:?}", other),
    }
    let (stage, _) = step;
    expect_failure(forward.request(stage, Event::Resolved), "unexpected event");
    expect_failure(forward.request(Stage::Done, Event::Connected), "unexpected event");
}

#[test]
fn https_origin_is_resolved_connected_secured_and_asked() {
    let forward = engine_table();
    let (stage, action) = forward.forward(Some("pub.example"), client_request("pub.example"));
    match action {
        Action::Resolve { host, port } => {
            assert_eq!(host, "origin.internal");
            assert_eq!(port, 8443);
        },
        other => panic!("{:?}", other),
    }
    assert!(matches!(stage, Stage::Resolving { route: 0, .. }));
    let (stage, action) = forward.request(stage, Event::Resolved);
    match action {
        Action::Connect { relay, host, port, request } => {
            assert_eq!(relay, None);
            assert_eq!(host, "origin.internal");
            assert_eq!(port, 8443);
            assert_eq!(request.scheme, "https");
            assert_eq!(request.host.as_deref(), Some("origin.internal"));
            assert_eq!(request.port, Some(8443));
            assert_eq!(request.path, "/index.html?q=1");
            assert_eq!(request.host_header.as_deref(), Some("origin.internal"));
        },
        other => panic!("{:?}", other),
    }
    assert!(matches!(stage, Stage::Connecting { route: 0 }));
    let (stage, action) = forward.request(stage, Event::Connected);
    match action {
        Action::Secure { host } => assert_eq!(host, "origin.internal"),
        other => panic!("{:?}", other),
    }
    assert!(matches!(stage, Stage::Securing));
    let (stage, action) = forward.request(stage, Event::Secured);
    assert!(matches!(action, Action::Exchange));
    assert!(matches!(stage, Stage::Exchanging));
}

#[test]
fn http_origin_is_asked_without_a_handshake() {
    let forward = engine_table();
    let (stage, action) = forward.forward(Some("plain.example"), client_request("plain.example"));
    match action {
        Action::Resolve { host, port } => {
            assert_eq!(host, "plain.internal");
            assert_eq!(port, 80);
        },
        other => panic!("{:?}", other),
    }
    let (stage, _) = forward.request(stage, Event::Resolved);
    assert!(matches!(stage, Stage::Connecting { route: 1 }));
    let (stage, action) = forward.request(stage, Event::Connected);
    assert!(matches!(action, Action::Exchange));
    assert!(matches!(stage, Stage::Exchanging));
}

#[test]
fn relay_is_handed_to_the_connection() {
    let forward = engine_table().with_relay(Some("127.0.0.1:1080".to_string()));
    let (stage, _) = forward.forward(Some("plain.example"), client_request("plain.example"));
    let (_, action) = forward.request(stage, Event::Resolved);
    match action {
        Action::Connect { relay, host, port, .. } => {
            assert_eq!(relay.as_deref(), Some("127.0.0.1:1080"));
            assert_eq!(host, "plain.internal");
            assert_eq!(port, 80);
        },
        other => panic!("{:?}", other),
    }
}

#[test]
fn other_scheme_is_refused_once_the_stream_stands() {
    let forward = engine_table();
    let (stage, action) = forward.forward(Some("odd.example"), client_request("odd.example"));
    assert!(matches!(action, Action::Resolve { port: 21, .. }));
    let (stage, action) = forward.request(stage, Event::Resolved);
    assert!(matches!(action, Action::Connect { .. }));
    expect_failure(forward.request(stage, Event::Connected), "unsupported scheme: ftp");
}

#[test]
fn address_that_is_not_found_is_an_invalid_target() {
    let forward = engine_table();
    let (stage, _) = forward.forward(Some("pub.example"), client_request("pub.example"));
    expect_failure(
        forward.request(stage, Event::Failed(ForwardError::AddressResolutionError)),
        "invalid target",
    );
}

#[test]
fn outside_failures_are_told_as_they_are() {
    let forward = engine_table();
    expect_failure(
        forward.request(
            Stage::Connecting { route: 0 },
            Event::Failed(ForwardError::ConnectionError("connection refused".to_string())),
        ),
        "connection refused",
    );
    expect_failure(
        forward.request(
            Stage::Securing,
            Event::Failed(ForwardError::ConnectionError("bad certificate".to_string())),
        ),
        "bad certificate",
    );
    expect_failure(
        forward.request(
            Stage::Exchanging,
            Event::Failed(ForwardError::UpstreamProtocolError("bad status line".to_string())),
        ),
        "bad status line",
    );
    expect_failure(
        forward.request(
            Stage::Connecting { route: 0 },
            Event::Failed(ForwardError::AddressResolutionError),
        ),
        "invalid host",
    );
}

#[test]
fn stage_of_another_table_fails() {
    let forward = engine_table();
    expect_failure(
        forward.connect(7, client_request("pub.example")),
        "invalid domain, check config file",
    );
    expect_failure(forward.secure(3), "invalid domain, check config file");
    expect_failure(
        forward.request(Stage::Connecting { route: 3 }, Event::Connected),
        "invalid domain, check config file",
    );
}

#[test]
fn event_that_the_stage_does_not_wait_for_fails() {
    let forward = engine_table();
    expect_failure(forward.request(Stage::Securing, Event::Connected), "unexpected event");
    expect_failure(forward.request(Stage::Exchanging, Event::Body(vec![1])), "unexpected event");
    expect_failure(
        forward.request(Stage::Connecting { route: 0 }, Event::Secured),
        "unexpected event",
    );
    expect_failure(
        forward.request(Stage::Done, Event::Failed(ForwardError::BodyDecodeError)),
        "unexpected event",
    );
}

#[test]
fn not_modified_goes_out_with_rewritten_head_and_untouched_body() {
    let forward = engine_table();
    let head = origin_head(304, Some("gzip"), Some("text/html"));
    match forward.request(Stage::Exchanging, Event::Response(head)) {
        (Stage::Done, Action::Reply { head, body, warning }) => {
            assert_eq!(head.status, 304);
            assert_eq!(head.location.as_deref(), Some("https://pub.example/x"));
            assert_eq!(head.set_cookie, vec!["id=1; Path=/; Secure"]);
            assert_eq!(head.content_encoding.as_deref(), Some("gzip"));
            assert!(matches!(body, Body::Untouched));
            assert!(warning.is_none());
        },
        other => panic!("{:?}", other),
    }
}

#[test]
fn json_under_gzip_is_rewritten_end_to_end() {
    let forward = engine_table();
    let head = origin_head(200, Some("gzip"), Some("application/json"));
    let (stage, action) = forward.request(Stage::Exchanging, Event::Response(head));
    assert!(matches!(action, Action::Read));
    match &stage {
        Stage::Reading { head } => {
            assert_eq!(head.location.as_deref(), Some("https://pub.example/x"));
            assert_eq!(head.set_cookie, vec!["id=1; Path=/; Secure"]);
        },
        other => panic!("{:?}", other),
    }
    let sent = engine_gzip(b"{\"api\": \"origin.internal:8443\"}");
    match forward.request(stage, Event::Body(sent.clone())) {
        (Stage::Done, Action::Reply { head, body: Body::Replaced(bytes), warning }) => {
            assert_eq!(head.status, 200);
            assert_eq!(head.content_encoding.as_deref(), Some("gzip"));
            assert!(warning.is_none());
            assert_ne!(bytes, sent);
            assert_eq!(engine_gunzip(&bytes), b"{\"api\": \"pub.example\"}");
        },
        other => panic!("{:?}", other),
    }
}

#[test]
fn text_without_encoding_is_rewritten() {
    let forward = engine_table();
    let head = origin_head(200, None, Some("text/html; charset=utf-8"));
    let (stage, action) = forward.request(Stage::Exchanging, Event::Response(head));
    assert!(matches!(action, Action::Read));
    let sent = b"<a href=\"http://plain.internal/\">origin.internal:8443</a>".to_vec();
    match forward.request(stage, Event::Body(sent)) {
        (Stage::Done, Action::Reply { body: Body::Replaced(bytes), warning, .. }) => {
            assert!(warning.is_none());
            assert_eq!(bytes, b"<a href=\"http://plain.example/\">pub.example</a>");
        },
        other => panic!("{:?}", other),
    }
}

#[test]
fn body_that_is_no_text_is_left_as_it_was_read() {
    let forward = engine_table();
    let head = origin_head(200, None, Some("text/html"));
    let (stage, _) = forward.request(Stage::Exchanging, Event::Response(head));
    let sent = vec![b'o', 0xff, 0xfe, b'k'];
    match forward.request(stage, Event::Body(sent.clone())) {
        (Stage::Done, Action::Reply { body: Body::Replaced(bytes), warning, .. }) => {
            assert_eq!(bytes, sent);
            assert!(matches!(warning, Some(ForwardError::BodyDecodeError)));
        },
        other => panic!("{:?}", other),
    }
    let head = origin_head(200, Some("gzip"), Some("text/html"));
    let (stage, _) = forward.request(Stage::Exchanging, Event::Response(head));
    let sent = b"not gzip at all".to_vec();
    match forward.request(stage, Event::Body(sent.clone())) {
        (Stage::Done, Action::Reply { body: Body::Replaced(bytes), warning, .. }) => {
            assert_eq!(bytes, sent);
            assert!(matches!(warning, Some(ForwardError::BodyDecodeError)));
        },
        other => panic!("{:?}", other),
    }
}

#[test]
fn body_that_cannot_be_read_is_untouched() {
    let forward = engine_table();
    let head = origin_head(200, None, Some("text/html"));
    let (stage, _) = forward.request(Stage::Exchanging, Event::Response(head));
    let failure = ForwardError::UpstreamProtocolError("unexpected end".to_string());
    match forward.request(stage, Event::Failed(failure)) {
        (Stage::Done, Action::Reply { head, body: Body::Untouched, warning }) => {
            assert_eq!(head.location.as_deref(), Some("https://pub.example/x"));
            assert!(matches!(warning, Some(ForwardError::BodyDecodeError)));
        },
        other => panic!("{:?}", other),
    }
}

#[test]
fn unhandled_encoding_passes_the_body_on_with_a_warning() {
    let forward = engine_table();
    let head = origin_head(200, Some("zstd"), Some("text/html"));
    match forward.request(Stage::Exchanging, Event::Response(head)) {
        (Stage::Done, Action::Reply { head, body: Body::Untouched, warning }) => {
            assert_eq!(head.location.as_deref(), Some("https://pub.example/x"));
            match warning {
                Some(ForwardError::UnhandledEncoding(name)) => assert_eq!(name, "zstd"),
                other => panic!("{:?}", other),
            }
        },
        other => panic!("{:?}", other),
    }
}

#[test]
fn body_of_another_type_streams_through_its_codec() {
    let forward = engine_table();
    let head = origin_head(200, Some("br"), Some("image/png"));
    match forward.request(Stage::Exchanging, Event::Response(head)) {
        (Stage::Done, Action::Reply { body: Body::Recoded(Encoding::Brotli), warning, .. }) => {
            assert!(warning.is_none())
        },
        other => panic!("{:?}", other),
    }
    let head = origin_head(200, Some("deflate"), None);
    assert!(matches!(
        forward.request(Stage::Exchanging, Event::Response(head)),
        (Stage::Done, Action::Reply { body: Body::Recoded(Encoding::Deflate), warning: None, .. })
    ));
    let head = origin_head(200, None, Some("image/png"));
    assert!(matches!(
        forward.request(Stage::Exchanging, Event::Response(head)),
        (Stage::Done, Action::Reply { body: Body::Untouched, warning: None, .. })
    ));
}
