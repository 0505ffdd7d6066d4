use provider_harness::assoc;
use provider_harness::codec;
use provider_harness::dto::{HttpInV1, HttpOutV1};
use provider_harness::host::TestHostState;
use provider_harness::http_mock::MockController;
use provider_harness::json::Json;
use provider_harness::http_mock::HttpClientError;
use provider_harness::webex::direct::{handle_reply, handle_send, read_post_outcome};
use provider_harness::webex::ingest::{
    build_webex_attachment, handle_webhook_event, read_fetch_outcome,
};
use provider_harness::webex::ops::{
    describe, encode_op, healthcheck, ingest_http, invoke, render_plan, validate_config, Operation,
};
use provider_harness::webex::send::{build_webex_body, read_delivery_outcome, send_payload};
use provider_harness::host::SecretsError;
use provider_harness::webex::{
    format_webex_error, get_secret_string, load_config, parse_config_bytes, read_secret_lookup,
    ProviderConfig,
};

fn host_with_token(token: &[u8]) -> TestHostState {
    TestHostState::with_secrets(
        vec![("WEBEX_BOT_TOKEN".to_string(), token.to_vec())],
        MockController::new(),
    )
}

fn parse(bytes: &[u8]) -> Json {
    Json::parse(bytes).expect("json")
}

fn build_webhook_payload() -> Json {
    parse(
        br#"{"resource":"messages","event":"created",
             "data":{"id":"MSG123","roomId":"ROOM1","personEmail":"sender@example.com"}}"#,
    )
}

fn call_ingest(payload: &Json, host: &mut TestHostState) -> HttpOutV1 {
    let http_in = HttpInV1 {
        method: "POST".to_string(),
        path: "/webhook/webex".to_string(),
        query: None,
        headers: Vec::new(),
        body_b64: codec::base64_encode(&payload.to_bytes()),
    };
    let out_bytes = invoke("ingest_http", &http_in.to_json().to_bytes(), host);
    HttpOutV1::from_json(&parse(&out_bytes)).expect("parse http out")
}

#[test]
fn build_webex_body_includes_markdown_and_attachment() {
    let card = parse(
        br#"{"$schema":"http://adaptivecards.io/schemas/adaptive-card.json",
             "type":"AdaptiveCard","version":"1.3",
             "body":[{"type":"TextBlock","text":"hi"}]}"#,
    );
    let mut body = build_webex_body(Some(&card), None, " ");
    assoc::insert(&mut body, "toPersonEmail".to_string(), Json::string("example@test"));
    assert_eq!(assoc::get(&body, "markdown").and_then(|v| v.as_str()), Some(" "));
    assert_eq!(assoc::get(&body, "toPersonEmail").and_then(|v| v.as_str()), Some("example@test"));
    let attachments =
        assoc::get(&body, "attachments").and_then(|v| v.as_array()).expect("attachments present");
    assert_eq!(
        attachments[0].get("contentType").and_then(|v| v.as_str()).unwrap(),
        "application/vnd.microsoft.card.adaptive"
    );
    assert!(attachments[0].get("content").is_some());
}

#[test]
fn format_webex_error_includes_body_text_when_present() {
    let msg = format_webex_error(400, br#"{"message":"bad request"}"#);
    assert!(msg.contains("webex returned status 400"));
    assert!(msg.contains(r#"{"message":"bad request"}"#));
    let empty = format_webex_error(500, b"");
    assert_eq!(empty, "webex returned status 500");
}

#[test]
fn validate_accepts_defaults() {
    let cfg = br#"{"default_room_id":"room"}"#;
    let resp = validate_config(cfg);
    let json = parse(&resp);
    assert_eq!(json.get("ok").and_then(|v| v.as_bool()), Some(true));
}

#[test]
fn load_config_defaults_to_token_key() {
    let input = parse(b"{}");
    let cfg = load_config(&input).unwrap();
    assert!(cfg.default_room_id.is_none());
}

#[test]
fn parse_config_rejects_unknown() {
    let cfg = br#"{"default_room_id":"k","unexpected":true}"#;
    let err = parse_config_bytes(cfg).unwrap_err();
    assert!(err.contains("unknown field"));
}

#[test]
fn webhook_webex_ingest_fetches_message_body() {
    let mut host = host_with_token(b"token");
    host.queue_response(
        200,
        br#"{"id":"MSG123","markdown":"Hello world","roomId":"ROOM1","personEmail":"sender@example.com"}"#
            .to_vec(),
    );
    let http_out = call_ingest(&build_webhook_payload(), &mut host);
    assert_eq!(http_out.status, 200);
    let envelope = http_out.events.first().expect("event missing");
    assert_eq!(envelope.text.as_deref(), Some("Hello world"));
    assert_eq!(envelope.session_id, "ROOM1");
    assert_eq!(
        assoc::get(&envelope.metadata, "webex.messageId"),
        Some(&"MSG123".to_string())
    );
}

#[test]
fn webhook_webex_ingest_failure_includes_metadata() {
    let mut host = host_with_token(b"token");
    host.queue_response(404, br#"{"message":"not found"}"#.to_vec());
    let http_out = call_ingest(&build_webhook_payload(), &mut host);
    assert_eq!(http_out.status, 502);
    let envelope = http_out.events.first().expect("missing envelope");
    assert_eq!(envelope.text.as_deref(), Some(""));
    let normalized = parse(&codec::base64_decode(&http_out.body_b64).expect("decode body"));
    assert_eq!(normalized.get("ok").and_then(|v| v.as_bool()), Some(false));
    assert!(normalized
        .get("error")
        .and_then(|v| v.as_str())
        .unwrap_or("")
        .contains("webex returned status 404"));
    assert!(assoc::get(&envelope.metadata, "webex.ingestError")
        .map(|value| value.contains("404"))
        .unwrap_or(false));
}

#[test]
fn failed_fetch_still_yields_exactly_one_envelope() {
    let mut host = host_with_token(b"token");
    host.queue_response(404, br#"{"message":"not found"}"#.to_vec());
    let http_out = call_ingest(&build_webhook_payload(), &mut host);
    assert_eq!(http_out.events.len(), 1);
    let envelope = &http_out.events[0];
    assert_eq!(envelope.id, "webex-MSG123");
    assert_eq!(envelope.channel, "webex");
    assert_eq!(envelope.session_id, "ROOM1");
    assert_eq!(envelope.from.as_ref().map(|a| a.id.as_str()), Some("sender@example.com"));
    assert_eq!(
        assoc::get(&envelope.metadata, "webex.ingestError"),
        Some(&r#"webex returned status 404 body={"message":"not found"}"#.to_string())
    );
    assert_eq!(assoc::get(&envelope.metadata, "webex.fetchStatus"), Some(&"502".to_string()));
    assert_eq!(assoc::get(&envelope.metadata, "webex.hasAttachments"), Some(&"false".to_string()));
    let calls = host.history();
    assert_eq!(calls.len(), 1);
    assert_eq!(calls[0].request.method, "GET");
    assert_eq!(calls[0].request.url, "https://webexapis.com/v1/messages/MSG123");
    assert_eq!(
        calls[0].request.headers,
        vec![("Authorization".to_string(), "Bearer token".to_string())]
    );
    assert_eq!(calls[0].status(), Some(404));
}

#[test]
fn ingest_without_token_reports_status_500_and_calls_nothing() {
    let mut host = TestHostState::with_secrets(Vec::new(), MockController::new());
    let outcome = handle_webhook_event(
        &build_webhook_payload(),
        &ProviderConfig { default_room_id: None, default_to_person_email: None, api_base_url: None },
        &mut host,
    );
    assert_eq!(outcome.status, 500);
    assert_eq!(outcome.error, Some("missing secret: WEBEX_BOT_TOKEN".to_string()));
    assert_eq!(outcome.envelope.text, Some(String::new()));
    assert!(host.history().is_empty());
}

#[test]
fn other_events_become_envelopes_of_their_own_text() {
    let mut host = host_with_token(b"token");
    let body = parse(br#"{"resource":"rooms","event":"updated","text":"note","data":{"personId":"PERSON-A"}}"#);
    let cfg = ProviderConfig { default_room_id: None, default_to_person_email: None, api_base_url: None };
    let outcome = handle_webhook_event(&body, &cfg, &mut host);
    assert_eq!(outcome.status, 200);
    assert_eq!(outcome.envelope.text, Some("note".to_string()));
    assert_eq!(outcome.envelope.session_id, "webex");
    assert_eq!(outcome.envelope.id, "webex-ingress-webex");
    assert_eq!(outcome.envelope.from.as_ref().map(|a| a.id.as_str()), Some("PERSON-A"));
    assert!(host.history().is_empty());
}

#[test]
fn fetched_attachments_are_listed_with_their_types() {
    let mut host = host_with_token(b"token");
    host.queue_response(
        200,
        br#"{"result":{"text":"t","attachments":[{"contentType":"image/png","contentUrl":"u1","size":7},{"displayName":"d"}]}}"#
            .to_vec(),
    );
    let http_out = call_ingest(&build_webhook_payload(), &mut host);
    let envelope = &http_out.events[0];
    assert_eq!(envelope.attachments.len(), 2);
    assert_eq!(envelope.attachments[0].url, "u1");
    assert_eq!(envelope.attachments[0].size_bytes, Some(7));
    assert_eq!(envelope.attachments[1].mime_type, "application/octet-stream");
    assert_eq!(envelope.attachments[1].url, "webex:MSG123:attachment:1");
    assert_eq!(envelope.attachments[1].name, Some("d".to_string()));
    assert_eq!(
        assoc::get(&envelope.metadata, "webex.attachmentTypes"),
        Some(&"image/png,application/octet-stream".to_string())
    );
}

#[test]
fn attachment_name_does_not_fall_back_when_name_is_no_text() {
    let a = build_webex_attachment("m", 0, &parse(br#"{"name":5,"displayName":"d","sizeBytes":3}"#));
    assert_eq!(a.name, None);
    assert_eq!(a.size_bytes, Some(3));
}

#[test]
fn ingest_rejects_input_that_cannot_be_read() {
    let mut host = host_with_token(b"token");
    let out = HttpOutV1::from_json(&parse(&ingest_http(b"nonsense", &mut host))).unwrap();
    assert_eq!(out.status, 400);
    assert!(out.events.is_empty());
    let message = String::from_utf8(codec::base64_decode(&out.body_b64).unwrap()).unwrap();
    assert!(message.starts_with("invalid http input: "));
    let bad_body = br#"{"method":"POST","path":"/","body_b64":"%%%"}"#;
    let out = HttpOutV1::from_json(&parse(&ingest_http(bad_body, &mut host))).unwrap();
    assert_eq!(out.status, 400);
    let message = String::from_utf8(codec::base64_decode(&out.body_b64).unwrap()).unwrap();
    assert!(message.starts_with("invalid body encoding: "));
}

fn envelope_json(text: &str, to: &str) -> String {
    format!(
        r#"{{"id":"e1","tenant":{{"env":"manual","tenant":"manual","tenant_id":"manual","attempt":0}},"channel":"c","session_id":"s"{to},"text":"{text}","metadata":{{}}}}"#
    )
}

fn send_payload_input(provider_type: &str, envelope: &str, metadata: &str) -> Vec<u8> {
    format!(
        r#"{{"provider_type":"{provider_type}","payload":{{"content_type":"application/json","body_b64":"{}","metadata":{metadata}}}}}"#,
        codec::base64_encode(envelope.as_bytes())
    )
    .into_bytes()
}

fn send_result(bytes: &[u8]) -> (bool, Option<String>, bool) {
    let j = parse(bytes);
    (
        j.get("ok").and_then(|v| v.as_bool()).unwrap(),
        j.str_at("message"),
        j.get("retryable").and_then(|v| v.as_bool()).unwrap(),
    )
}

#[test]
fn send_payload_posts_to_the_message_endpoint_with_the_token() {
    let mut host = host_with_token(b"abc");
    host.queue_response(200, br#"{"id":"m1"}"#.to_vec());
    let env = envelope_json("  hello ", r#","to":[{"id":"room-1","kind":"room"}]"#);
    let out = send_payload(&send_payload_input("messaging.webex.bot", &env, "{}"), &mut host);
    assert_eq!(send_result(&out), (true, None, false));
    let calls = host.history();
    assert_eq!(calls.len(), 1);
    assert_eq!(calls[0].request.method, "POST");
    assert_eq!(calls[0].request.url, "https://webexapis.com/v1/messages");
    assert_eq!(
        calls[0].request.headers,
        vec![
            ("Content-Type".to_string(), "application/json".to_string()),
            ("Authorization".to_string(), "Bearer abc".to_string()),
        ]
    );
    let body = parse(calls[0].request.body.as_ref().unwrap());
    assert_eq!(body.str_at("text"), Some("hello".to_string()));
    assert_eq!(body.str_at("markdown"), Some("hello".to_string()));
    assert_eq!(body.str_at("roomId"), Some("room-1".to_string()));
}

#[test]
fn send_payload_failures_name_their_cause() {
    let mut host = host_with_token(b"abc");
    let env = envelope_json("hi", r#","to":[{"id":"room-1","kind":"room"}]"#);
    let cases: Vec<(Vec<u8>, &str)> = vec![
        (send_payload_input("other.provider", &env, "{}"), "provider type mismatch"),
        (
            send_payload_input("messaging.webex.bot", &envelope_json("hi", ""), "{}"),
            "destination required (envelope to=[])",
        ),
        (
            send_payload_input(
                "messaging.webex.bot",
                &envelope_json("  ", r#","to":[{"id":"r"}]"#),
                "{}",
            ),
            "text required",
        ),
        (
            send_payload_input(
                "messaging.webex.bot",
                &envelope_json("hi", r#","to":[{"id":"  ","kind":"room"}]"#),
                "{}",
            ),
            "destination id required",
        ),
        (
            send_payload_input(
                "messaging.webex.bot",
                &envelope_json("hi", r#","to":[{"id":"x","kind":"fax"}]"#),
                "{}",
            ),
            "unsupported destination kind: fax",
        ),
        (
            send_payload_input(
                "messaging.webex.bot",
                &envelope_json(
                    "hi",
                    r#","to":[{"id":"x"}],"attachments":[{"mime_type":"a/b","url":"u"}]"#,
                ),
                "{}",
            ),
            "attachments not supported",
        ),
    ];
    for (input, expected) in cases {
        let out = send_payload(&input, &mut host);
        assert_eq!(send_result(&out), (false, Some(expected.to_string()), false));
    }
    assert!(host.history().is_empty());
    let (ok, message, _) = send_result(&send_payload(b"{", &mut host));
    assert!(!ok);
    assert!(message.unwrap().starts_with("invalid send_payload input: "));
}

#[test]
fn send_payload_is_retryable_only_for_server_errors() {
    let env = envelope_json("hi", r#","to":[{"id":"a@b.c"}]"#);
    let input = send_payload_input("messaging.webex.bot", &env, "{}");
    let mut host = host_with_token(b"abc");
    host.queue_response(503, b" down ".to_vec());
    host.queue_response(429, Vec::new());
    assert_eq!(
        send_result(&send_payload(&input, &mut host)),
        (false, Some("webex returned status 503 body=down".to_string()), true)
    );
    assert_eq!(
        send_result(&send_payload(&input, &mut host)),
        (false, Some("webex returned status 429".to_string()), false)
    );
    let body = parse(host.history()[0].request.body.as_ref().unwrap());
    assert_eq!(body.str_at("toPersonEmail"), Some("a@b.c".to_string()));
}

#[test]
fn send_payload_without_token_sends_nothing() {
    let env = envelope_json("hi", r#","to":[{"id":"a@b.c"}]"#);
    let input = send_payload_input("messaging.webex.bot", &env, "{}");
    let mut host = TestHostState::with_secrets(Vec::new(), MockController::new());
    assert_eq!(
        send_result(&send_payload(&input, &mut host)),
        (false, Some("missing secret: WEBEX_BOT_TOKEN".to_string()), false)
    );
    let mut host = host_with_token(&[0xff]);
    assert_eq!(
        send_result(&send_payload(&input, &mut host)),
        (false, Some("secret not valid utf-8".to_string()), false)
    );
    assert!(host.history().is_empty());
}

#[test]
fn send_payload_honours_payload_metadata() {
    let env = envelope_json("hi", "");
    let meta = r#"{"api_base_url":"https://example.test/api","method":"PUT","default_to_person_email":"x@y.z"}"#;
    let input = send_payload_input("messaging.webex.bot", &env, meta);
    let mut host = host_with_token(b"t");
    assert_eq!(send_result(&send_payload(&input, &mut host)), (true, None, false));
    let call = &host.history()[0];
    assert_eq!(call.request.method, "PUT");
    assert_eq!(call.request.url, "https://example.test/api/messages");
    assert_eq!(
        parse(call.request.body.as_ref().unwrap()).str_at("toPersonEmail"),
        Some("x@y.z".to_string())
    );
}

#[test]
fn send_payload_with_card_attaches_it_and_summarises() {
    let env = r#"{"id":"e1","tenant":{"env":"m","tenant":"m"},"channel":"c","session_id":"s","to":[{"id":"R","kind":"room"}],"metadata":{"adaptive_card":"{\"body\":[{\"text\":\" one \"},{\"text\":\"two\"}]}"}}"#;
    let input = send_payload_input("messaging.webex.bot", env, "{}");
    let mut host = host_with_token(b"t");
    assert_eq!(send_result(&send_payload(&input, &mut host)), (true, None, false));
    let body = parse(host.history()[0].request.body.as_ref().unwrap());
    assert_eq!(body.str_at("markdown"), Some("one two".to_string()));
    assert_eq!(body.get("text").is_none(), true);
    assert_eq!(body.get("attachments").and_then(|a| a.as_array()).map(|a| a.len()), Some(1));
}

#[test]
fn direct_send_reports_the_message_id() {
    let mut host = host_with_token(b"tok");
    host.queue_response(200, br#"{"id":"M9"}"#.to_vec());
    let out = parse(&handle_send(br#"{"text":" hi ","to":{"id":"PERSON-A","kind":"person"}}"#, &mut host));
    assert_eq!(out.get("ok").and_then(|v| v.as_bool()), Some(true));
    assert_eq!(out.str_at("status"), Some("sent".to_string()));
    assert_eq!(out.str_at("provider_type"), Some("messaging.webex.bot".to_string()));
    assert_eq!(out.str_at("message_id"), Some("M9".to_string()));
    assert_eq!(out.str_at("provider_message_id"), Some("webex:M9".to_string()));
    let body = parse(host.history()[0].request.body.as_ref().unwrap());
    assert_eq!(body.str_at("text"), Some("hi".to_string()));
    assert_eq!(body.str_at("toPersonId"), Some("PERSON-A".to_string()));
}

#[test]
fn direct_send_uses_configured_defaults() {
    let mut host = host_with_token(b"tok");
    let out = parse(&handle_send(
        br#"{"text":"hi","config":{"default_room_id":"R7","api_base_url":"https://h/v9"}}"#,
        &mut host,
    ));
    assert_eq!(out.str_at("message_id"), Some("webex-message".to_string()));
    let call = &host.history()[0];
    assert_eq!(call.request.url, "https://h/v9/messages");
    assert_eq!(parse(call.request.body.as_ref().unwrap()).str_at("roomId"), Some("R7".to_string()));
}

#[test]
fn direct_send_failures() {
    let mut host = host_with_token(b"tok");
    let error = |input: &[u8], host: &mut TestHostState| parse(&handle_send(input, host)).str_at("error");
    assert_eq!(
        error(br#"{"to":"room"}"#, &mut host),
        Some("invalid envelope: text required: input does not have the expected members".to_string())
    );
    assert_eq!(
        error(br#"{"text":"x"}"#, &mut host),
        Some(
            "invalid envelope: destination required: input does not have the expected members"
                .to_string()
        )
    );
    assert!(error(br#"{"text":"x","config":{"nope":1}}"#, &mut host)
        .unwrap()
        .starts_with("invalid config: unknown field `nope`"));
    assert!(error(b"[", &mut host).unwrap().starts_with("invalid json: "));
    host.queue_response(400, Vec::new());
    assert_eq!(error(br#"{"text":"x","to":"r"}"#, &mut host), Some("webex returned status 400".to_string()));
    let mut bare = TestHostState::with_secrets(Vec::new(), MockController::new());
    assert_eq!(
        error(br#"{"text":"x","to":"r"}"#, &mut bare),
        Some("missing secret: WEBEX_BOT_TOKEN".to_string())
    );
}

#[test]
fn reply_posts_markdown_under_the_parent() {
    let mut host = host_with_token(b"tok");
    host.queue_response(200, br#"{"id":"R1"}"#.to_vec());
    let out = parse(&handle_reply(br#"{"text":"re","thread_id":"T1"}"#, &mut host));
    assert_eq!(out.str_at("status"), Some("replied".to_string()));
    assert_eq!(out.str_at("message_id"), Some("R1".to_string()));
    let body = parse(host.history()[0].request.body.as_ref().unwrap());
    assert_eq!(body.str_at("parentId"), Some("T1".to_string()));
    assert_eq!(body.str_at("markdown"), Some("re".to_string()));
    let error = |input: &[u8], host: &mut TestHostState| parse(&handle_reply(input, host)).str_at("error");
    assert_eq!(error(br#"{"thread_id":"T1"}"#, &mut host), Some("text required".to_string()));
    assert_eq!(
        error(br#"{"text":"x"}"#, &mut host),
        Some("reply_to_id or thread_id required".to_string())
    );
    let mut bare = TestHostState::with_secrets(Vec::new(), MockController::new());
    assert_eq!(
        error(br#"{"text":"x","reply_to_id":"T"}"#, &mut bare),
        Some("missing access token".to_string())
    );
    let mut empty = host_with_token(b"");
    assert_eq!(
        error(br#"{"text":"x","reply_to_id":"T"}"#, &mut empty),
        Some("access token empty".to_string())
    );
}

#[test]
fn render_plan_summarises_the_text() {
    let input = format!(r#"{{"message":{},"metadata":{{"k":1}}}}"#, envelope_json("hello", ""));
    let out = parse(&render_plan(input.as_bytes()));
    assert_eq!(out.get("ok").and_then(|v| v.as_bool()), Some(true));
    let plan_json = out.get("plan").and_then(|p| p.str_at("plan_json")).unwrap();
    let plan = parse(plan_json.as_bytes());
    assert_eq!(plan.str_at("tier"), Some("TierC".to_string()));
    assert_eq!(plan.str_at("summary_text"), Some("hello".to_string()));
    assert_eq!(plan.get("debug").and_then(|d| d.get("k")).and_then(|k| k.as_u64()), Some(1));
    let blank = format!(r#"{{"message":{}}}"#, envelope_json("   ", ""));
    let out = parse(&render_plan(blank.as_bytes()));
    let plan = parse(out.get("plan").and_then(|p| p.str_at("plan_json")).unwrap().as_bytes());
    assert_eq!(plan.str_at("summary_text"), Some("webex message".to_string()));
    let out = parse(&render_plan(br#"{"metadata":{}}"#));
    assert_eq!(out.get("ok").and_then(|v| v.as_bool()), Some(false));
    assert!(out.str_at("error").unwrap().starts_with("invalid render input: "));
}

#[test]
fn encode_wraps_the_envelope_in_base64() {
    let env = envelope_json("hello", r#","to":[{"id":"room-1","kind":"room"}]"#);
    let input = format!(r#"{{"message":{env},"plan":{{"message":{env}}}}}"#);
    let out = parse(&encode_op(input.as_bytes()));
    assert_eq!(out.get("ok").and_then(|v| v.as_bool()), Some(true));
    let payload = out.get("payload").unwrap();
    assert_eq!(payload.str_at("content_type"), Some("application/json".to_string()));
    let body = parse(&codec::base64_decode(&payload.str_at("body_b64").unwrap()).unwrap());
    assert_eq!(body.str_at("text"), Some("hello".to_string()));
    assert_eq!(body.str_at("id"), Some("e1".to_string()));
    let out = parse(&encode_op(b"{}"));
    assert!(out.str_at("error").unwrap().starts_with("invalid encode input: "));
}

#[test]
fn describe_and_healthcheck() {
    let manifest = parse(&describe());
    assert_eq!(manifest.str_at("provider_type"), Some("messaging.webex.bot".to_string()));
    assert_eq!(manifest.get("ops").and_then(|o| o.as_array()).map(|o| o.len()), Some(6));
    assert_eq!(healthcheck(), br#"{"status":"ok"}"#.to_vec());
}

#[test]
fn validate_config_fills_in_the_api_base_and_reports_faults() {
    let ok = parse(&validate_config(br#"{"default_to_person_email":"a@b"}"#));
    let config = ok.get("config").unwrap();
    assert_eq!(config.str_at("api_base_url"), Some("https://webexapis.com/v1".to_string()));
    assert_eq!(config.str_at("default_to_person_email"), Some("a@b".to_string()));
    let bad = parse(&validate_config(br#"{"api_base_url":5}"#));
    assert_eq!(bad.get("ok").and_then(|v| v.as_bool()), Some(false));
    assert_eq!(
        bad.str_at("error"),
        Some("invalid config: invalid type for `api_base_url`, expected a string".to_string())
    );
    let bad = parse(&validate_config(b"[]"));
    assert_eq!(bad.str_at("error"), Some("invalid config: expected an object".to_string()));
}

#[test]
fn unknown_operations_are_answered_not_faulted() {
    let mut host = host_with_token(b"t");
    assert_eq!(Operation::parse("send"), Operation::Send);
    assert_eq!(Operation::parse("launch"), Operation::Unsupported);
    let out = parse(&invoke("launch", b"{}", &mut host));
    assert_eq!(out.get("ok").and_then(|v| v.as_bool()), Some(false));
    assert_eq!(out.str_at("error"), Some("unsupported op: launch".to_string()));
    assert!(host.history().is_empty());
}

#[test]
fn secret_text_needs_valid_utf8() {
    let host = host_with_token(&[0xc3, 0x28]);
    assert_eq!(get_secret_string("WEBEX_BOT_TOKEN", &host), Err("secret not valid utf-8".to_string()));
    assert_eq!(get_secret_string("OTHER", &host), Err("missing secret: OTHER".to_string()));
}

#[test]
fn transport_faults_are_surfaced_to_the_caller_of_the_module() {
    let fault = || HttpClientError { code: "timeout".to_string(), message: "too slow".to_string() };
    assert_eq!(
        read_fetch_outcome("m", Err(fault())).err(),
        Some("transport error: too slow".to_string())
    );
    let result = read_delivery_outcome(Err(fault()));
    assert_eq!(
        (result.ok, result.message, result.retryable),
        (false, Some("transport error: too slow".to_string()), true)
    );
    let report = read_post_outcome(Err(fault()), "sent", "webex-message");
    assert_eq!(report.get("ok").and_then(|v| v.as_bool()), Some(false));
    assert_eq!(report.str_at("error"), Some("transport error: too slow".to_string()));
}

#[test]
fn secret_store_faults_are_named() {
    assert_eq!(
        read_secret_lookup("K", Err(SecretsError::Denied)),
        Err("secret store error: Denied".to_string())
    );
    assert_eq!(read_secret_lookup("K", Ok(None)), Err("missing secret: K".to_string()));
    assert_eq!(read_secret_lookup("K", Ok(Some(b"v".to_vec()))), Ok("v".to_string()));
}
