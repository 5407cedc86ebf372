//! The rendezvous client: what it sends and what it makes of the answers.
use rand::rngs::StdRng;
use rand::SeedableRng;
use worddrop::rendezvous_client::{
    allocation_answer, broker_endpoint, check_ticket, claim_answer, claim_event, derive_topic,
    health_answer, http_endpoint, http_request, mailbox_topic, parse_response, pick_nameplate,
    picked_nameplate, response_outcome, status_answer, AllocateStep, Allocation, BrokerEvent, ClaimStep, ClaimWait,
    HealthStep, PairState, RetainStep, RvClient, RvError, StatusStep, UrlParts,
};

const HTTP: &str = "http://127.0.0.1:8080";
const MQTT: &str = "mqtts://broker.emqx.io:8883";

fn parts(scheme: &str, host: Option<&str>, port: Option<u16>, known: Option<u16>) -> UrlParts {
    UrlParts {
        scheme: scheme.to_string(),
        host: host.map(str::to_string),
        port,
        known_port: known,
    }
}

/// The status and the body of a response with the given status line and body.
fn response(status: &str, body: &str) -> (u16, String) {
    let text = format!(
        "HTTP/1.1 {status}\r\nContent-Type: application/json\r\nContent-Length: {}\r\n\
         Connection: close\r\n\r\n{body}",
        body.len()
    );
    response_outcome(&text.into_bytes()).expect("a response")
}

fn field(body: &str, key: &str) -> Option<serde_json::Value> {
    let value: serde_json::Value = serde_json::from_str(body).ok()?;
    value.get(key).cloned()
}

fn text_field(body: &str, key: &str) -> Option<String> {
    field(body, key)?.as_str().map(str::to_string)
}

fn allocation_in(body: &str) -> Option<Allocation> {
    Some(Allocation {
        nameplate: field(body, "nameplate")?.as_u64()? as u32,
        expires_at: field(body, "expires_at")?.as_u64()?,
    })
}

#[test]
fn allocate_parses_nameplate_and_expiry() {
    let (status, body) =
        response("201 Created", r#"{"nameplate":42,"expires_at":1780000000}"#);
    let parsed = allocation_in(&body);
    let allocation = allocation_answer(status, body, parsed).expect("allocate succeeds");
    assert_eq!(allocation, Allocation { nameplate: 42, expires_at: 1780000000 });
}

#[test]
fn allocate_places_ticket_in_request_body() {
    let request = match RvClient::new(HTTP).allocate("ticket-abc") {
        Ok(AllocateStep::Ask(request)) => request,
        other => panic!("{other:?}"),
    };
    let raw = &request.text;
    assert!(raw.starts_with("POST /v1/pairs HTTP/1.1"), "method + path: {raw}");
    assert!(raw.contains(r#""ticket":"ticket-abc""#), "ticket in body: {raw}");
    assert_eq!(request.endpoint.hostname, "127.0.0.1");
    assert_eq!(request.endpoint.port, 8080);
    assert!(!request.endpoint.use_tls);
}

#[test]
fn claim_parses_ticket() {
    let (status, body) = response("200 OK", r#"{"ticket":"blob-ticket-value"}"#);
    let parsed = text_field(&body, "ticket");
    assert_eq!(claim_answer(status, body, parsed).expect("claim succeeds"), "blob-ticket-value");
}

#[test]
fn claim_second_claim_maps_to_http_404() {
    let (status, body) = response("404 Not Found", r#"{"error":"pair not found"}"#);
    let err = claim_answer(status, body, None).expect_err("claimed pair is 404");
    let message = err.to_string();
    assert!(message.contains("HTTP 404"), "status surfaced: {message}");
    assert!(message.contains("pair not found"), "server body surfaced: {message}");
}

#[test]
fn claim_expired_maps_to_http_410() {
    let (status, body) = response("410 Gone", r#"{"error":"pair has expired"}"#);
    let err = claim_answer(status, body, None).expect_err("expired pair is 410");
    assert!(err.to_string().contains("HTTP 410"));
}

#[test]
fn status_parses_each_state() {
    for (name, state) in [
        ("pending", PairState::Pending),
        ("claimed", PairState::Claimed),
        ("expired", PairState::Expired),
    ] {
        let (status, body) = response("200 OK", &format!("{{\"state\":\"{name}\"}}"));
        let parsed = text_field(&body, "state");
        assert_eq!(status_answer(status, body, parsed), Ok(state));
    }
}

#[test]
fn status_unknown_state_is_parse_error() {
    let (status, body) = response("200 OK", r#"{"state":"limbo"}"#);
    let parsed = text_field(&body, "state");
    let err = status_answer(status, body, parsed).expect_err("unknown state rejected");
    assert!(matches!(err, RvError::Parse { kind: "status state", .. }));
    let err = status_answer(200, "{}".to_string(), None).expect_err("no state");
    assert!(matches!(err, RvError::Parse { kind: "status", .. }));
}

#[test]
fn health_ok_when_server_answers_ok() {
    let (status, body) = response("200 OK", "ok");
    health_answer(status, body).expect("health ok");
    assert!(health_answer(200, " ok\n".to_string()).is_ok());
    assert!(matches!(
        health_answer(503, "ok".to_string()),
        Err(RvError::Http { status: 503, .. })
    ));
    assert!(health_answer(200, "degraded".to_string()).is_err());
}

#[test]
fn malformed_response_is_parse_error() {
    let (status, body) = response("201 Created", "not-json");
    let parsed = allocation_in(&body);
    let err = allocation_answer(status, body, parsed).expect_err("garbage body rejected");
    assert!(matches!(err, RvError::Parse { kind: "allocate", .. }));
    assert!(matches!(
        allocation_answer(500, "x".to_string(), None),
        Err(RvError::Http { status: 500, .. })
    ));
    assert!(matches!(
        claim_answer(200, "x".to_string(), None),
        Err(RvError::Parse { kind: "claim", .. })
    ));
}

#[test]
fn responses_are_taken_apart() {
    assert_eq!(
        parse_response("HTTP/1.1 200 OK\r\nA: b\r\n\r\nx\r\n\r\ny"),
        Ok((200, "x\r\n\r\ny".to_string()))
    );
    assert_eq!(parse_response("HTTP/1.1  404\r\n\r\n"), Ok((404, String::new())));
    for bad in ["", "HTTP/1.1 200 OK\r\n", "no blank line"] {
        assert!(matches!(parse_response(bad), Err(RvError::Parse { .. })), "{bad:?}");
    }
    for bad in ["HTTP/1.1\r\n\r\n", "HTTP/1.1 abc\r\n\r\n", "HTTP/1.1 65536 X\r\n\r\n"] {
        let err = parse_response(bad).unwrap_err();
        assert!(matches!(err, RvError::Parse { kind: "status line", .. }), "{bad:?}: {err:?}");
    }
    let mut bytes = b"HTTP/1.1 200 OK\r\n\r\n".to_vec();
    bytes.push(0xff);
    assert_eq!(response_outcome(&bytes), Ok((200, "\u{fffd}".to_string())));
}

#[test]
fn requests_are_written_in_full() {
    assert_eq!(
        http_request("GET", "/health", "h:1", None).lines().next(),
        Some("GET /health HTTP/1.1")
    );
    let text = http_request("POST", "/v1/pairs", "h:1", Some("é"));
    assert!(text.contains("Host: h:1\r\n"), "{text}");
    assert!(text.contains("Content-Length: 2\r\n"), "the length counts bytes: {text}");
    assert!(text.ends_with("\r\n\r\né"), "{text}");
}

#[test]
fn tickets_are_escaped_in_the_body() {
    let ticket = "a\"b\\c\n\u{1}é";
    match RvClient::new(HTTP).allocate(ticket) {
        Ok(AllocateStep::Ask(request)) => {
            let body = request.text.split("\r\n\r\n").nth(1).expect("body");
            assert_eq!(text_field(body, "ticket").as_deref(), Some(ticket));
        }
        other => panic!("{other:?}"),
    }
}

#[test]
fn http_urls_give_endpoints() {
    let end = http_endpoint("x", Ok(parts("https", Some("rv.example"), None, Some(443))))
        .expect("https");
    assert_eq!((end.hostname.as_str(), end.port, end.use_tls), ("rv.example", 443, true));
    let err = http_endpoint("x", Ok(parts("ftp", Some("h"), None, Some(21)))).unwrap_err();
    assert_eq!(
        err,
        RvError::BadUrl {
            url: "x".to_string(),
            reason: "unsupported scheme \"ftp\" (http or https only)".to_string()
        }
    );
    let err = http_endpoint("x", Ok(parts("http", None, None, Some(80)))).unwrap_err();
    assert!(err.to_string().contains("missing host"));
    let err = http_endpoint("x", Ok(parts("http", Some("h"), None, None))).unwrap_err();
    assert!(err.to_string().contains("missing port"));
    assert!(http_endpoint("x", Err("bad".to_string())).is_err());
}

#[test]
fn broker_urls_give_endpoints() {
    let end = broker_endpoint("x", Ok(parts("mqtts", Some("b"), None, None))).expect("mqtts");
    assert_eq!((end.port, end.use_tls), (8883, true));
    let end = broker_endpoint("x", Ok(parts("mqtt", Some("b"), None, None))).expect("mqtt");
    assert_eq!((end.port, end.use_tls), (1883, false));
    let end = broker_endpoint("x", Ok(parts("mqtt", Some("b"), Some(99), Some(99)))).expect("port");
    assert_eq!(end.port, 99);
    assert!(broker_endpoint("x", Ok(parts("mqtt", None, None, None))).is_err());
    assert!(broker_endpoint("x", Ok(parts("http", Some("b"), None, None))).is_err());
}

#[test]
fn the_scheme_tells_the_way() {
    assert!(matches!(RvClient::new(MQTT).allocate("t"), Ok(AllocateStep::Pick)));
    for (client, words) in [
        (RvClient::new("ftp://x"), "unsupported scheme"),
        (RvClient::new("not a url"), "cannot parse as a URL"),
        (RvClient::with_url("y", Err("broken".to_string())), "broken"),
    ] {
        let err = client.allocate("t").unwrap_err();
        assert!(err.to_string().contains(words), "{err:?}");
        assert!(client.health().is_err());
        assert!(client.status(7).is_err());
        assert!(matches!(client.claim_checked(7, "w"), Some(Err(RvError::BadUrl { .. }))));
    }
}

#[test]
fn over_http_the_words_stay_here() {
    let client = RvClient::new(HTTP);
    let words = "correct-horse-battery";
    match client.claim_checked(7, words) {
        Some(Ok(ClaimStep::Ask(request))) => {
            assert!(request.text.starts_with("POST /v1/pairs/7/claim HTTP/1.1\r\n"));
            assert!(!request.text.contains("correct"));
        }
        other => panic!("{other:?}"),
    }
    assert!(matches!(
        client.publish_checked("t", 7, words),
        Some(Ok(RetainStep::Nothing))
    ));
    assert!(matches!(client.cleanup_checked(7, words), Some(Ok(RetainStep::Nothing))));
    match client.status(7) {
        Ok(StatusStep::Ask(request)) => {
            assert!(request.text.starts_with("GET /v1/pairs/7/status HTTP/1.1\r\n"));
        }
        other => panic!("{other:?}"),
    }
    match client.health() {
        Ok(HealthStep::Ask(request)) => {
            assert!(request.text.starts_with("GET /health HTTP/1.1\r\n"));
        }
        other => panic!("{other:?}"),
    }
}

#[test]
fn a_broker_holds_the_ticket_under_a_topic() {
    let client = RvClient::new(MQTT);
    let words = "correct-horse-battery";
    let topic = mailbox_topic(7, words).expect("hashable");
    match client.publish_checked("ticket", 7, words) {
        Some(Ok(RetainStep::Retain { broker, topic: t, payload })) => {
            assert_eq!(broker.hostname, "broker.emqx.io");
            assert_eq!((broker.port, broker.use_tls), (8883, true));
            assert_eq!(t, topic);
            assert_eq!(payload, "ticket");
        }
        other => panic!("{other:?}"),
    }
    match client.claim_checked(7, words) {
        Some(Ok(ClaimStep::Subscribe { topic: t, .. })) => assert_eq!(t, topic),
        other => panic!("{other:?}"),
    }
    match client.cleanup_checked(7, words) {
        Some(Ok(RetainStep::Retain { topic: t, payload, .. })) => {
            assert_eq!(t, topic);
            assert_eq!(payload, "", "an empty payload clears the mailbox");
        }
        other => panic!("{other:?}"),
    }
    assert!(matches!(
        client.publish_checked(" ", 7, words),
        Some(Err(RvError::InvalidTicket { .. }))
    ));
    assert!(matches!(client.status(7), Ok(StatusStep::Known(PairState::Pending))));
    assert!(matches!(client.health(), Ok(HealthStep::Connect(_))));
}

#[test]
fn topics_hash_the_whole_code() {
    let topic = derive_topic(7, "correct-horse-battery");
    let mut digest = [0u8; 32];
    argon2::Argon2::default()
        .hash_password_into(b"7-correct-horse-battery", b"worddrop-mailbox-v1", &mut digest)
        .expect("hashes");
    let hex: String = digest.iter().map(|byte| format!("{byte:02x}")).collect();
    assert_eq!(topic, format!("worddrop/v1/{hex}"));
    assert_eq!(derive_topic(7, " CORRECT-Horse-battery\n"), topic);
    assert_ne!(derive_topic(8, "correct-horse-battery"), topic);
    assert_ne!(derive_topic(7, "correct-horse-batteri"), topic);
}

#[test]
fn a_picked_nameplate_is_in_range() {
    let mut source = StdRng::seed_from_u64(5);
    for _ in 0..1000 {
        let allocation = pick_nameplate(1_700_000_000, &mut source);
        assert!((1..=9999).contains(&allocation.nameplate));
        assert_eq!(allocation.expires_at, 1_700_000_600);
    }
    assert_eq!(picked_nameplate(0, 0), Allocation { nameplate: 1, expires_at: 600 });
    assert_eq!(picked_nameplate(9998, 5), Allocation { nameplate: 9999, expires_at: 605 });
}

#[test]
fn a_claim_waits_for_its_ticket() {
    assert!(matches!(claim_event(BrokerEvent::Message(Vec::new())), Ok(ClaimWait::Wait)));
    assert!(matches!(claim_event(BrokerEvent::Other), Ok(ClaimWait::Wait)));
    assert!(matches!(
        claim_event(BrokerEvent::Connected { session_present: false }),
        Ok(ClaimWait::Subscribe)
    ));
    assert!(matches!(
        claim_event(BrokerEvent::Connected { session_present: true }),
        Ok(ClaimWait::Wait)
    ));
    match claim_event(BrokerEvent::Message(b"ticket".to_vec())) {
        Ok(ClaimWait::Ticket(ticket)) => assert_eq!(ticket, "ticket"),
        other => panic!("{other:?}"),
    }
    match claim_event(BrokerEvent::Message(vec![b'a', 0xff])) {
        Err(RvError::Parse { kind: "ticket", body }) => assert_eq!(body, "a\u{fffd}"),
        other => panic!("{other:?}"),
    }
    match claim_event(BrokerEvent::Failed("gone".to_string())) {
        Err(RvError::Mqtt { detail }) => assert_eq!(detail, "gone"),
        other => panic!("{other:?}"),
    }
}

#[test]
fn tickets_are_checked_before_they_are_sent() {
    assert!(check_ticket("t").is_ok());
    assert!(matches!(check_ticket(" \t"), Err(RvError::InvalidTicket { .. })));
    assert!(check_ticket(&"x".repeat(4096)).is_ok());
    assert!(matches!(
        check_ticket(&"x".repeat(4097)),
        Err(RvError::InvalidTicket { detail }) if detail == "ticket is too large"
    ));
}

#[test]
fn states_have_names() {
    assert_eq!(PairState::from_str("pending"), Some(PairState::Pending));
    assert_eq!(PairState::from_str("Pending"), None);
}

#[test]
fn client_errors_read_as_sentences() {
    for error in [
        RvError::Io("refused".to_string()),
        RvError::Tls { detail: "refused".to_string() },
        RvError::Mqtt { detail: "refused".to_string() },
        RvError::InvalidTicket { detail: "refused".to_string() },
    ] {
        assert!(error.to_string().contains("refused"), "{error:?}");
    }
    assert!(!RvError::Timeout.to_string().is_empty());
    assert!(RvError::Parse { kind: "claim", body: "x".to_string() }.to_string().contains("claim"));
}
