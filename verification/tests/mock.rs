use provider_harness::host::{default_secret_values, TestHostState};
use provider_harness::http_mock::{CallResult, HttpClientError, HttpRequest, MockController};

fn request(url: &str) -> HttpRequest {
    HttpRequest {
        method: "GET".to_string(),
        url: url.to_string(),
        headers: vec![("Accept".to_string(), "*/*".to_string())],
        body: None,
    }
}

#[test]
fn queued_responses_come_out_first_in_first_out() {
    let mut mock = MockController::new();
    mock.queue_response(201, b"A".to_vec());
    mock.queue_response(404, b"B".to_vec());
    let first = mock.respond(request("https://x/1"));
    let second = mock.respond(request("https://x/2"));
    let third = mock.respond(request("https://x/3"));
    assert_eq!((first.status, first.body), (201, Some(b"A".to_vec())));
    assert_eq!((second.status, second.body), (404, Some(b"B".to_vec())));
    assert_eq!(third.status, 200);
    assert_eq!(third.body, Some(br#"{"status":"ok"}"#.to_vec()));
    assert!(third.headers.is_empty());
}

#[test]
fn every_call_is_recorded_in_order_with_its_response() {
    let mut mock = MockController::new();
    mock.queue_response(500, b"boom".to_vec());
    for i in 0..4 {
        mock.respond(request(&format!("https://x/{i}")));
    }
    let history = mock.history();
    assert_eq!(history.len(), 4);
    assert_eq!(mock.call_count(), 4);
    for (i, call) in history.iter().enumerate() {
        assert_eq!(call.request.url, format!("https://x/{i}"));
        assert_eq!(call.request.method, "GET");
        assert_eq!(call.request.headers, vec![("Accept".to_string(), "*/*".to_string())]);
    }
    assert_eq!(history[0].status(), Some(500));
    assert_eq!(history[0].response().unwrap().body, Some(b"boom".to_vec()));
    assert_eq!(history[1].status(), Some(200));
    assert_eq!(history[3].response().unwrap().body, Some(br#"{"status":"ok"}"#.to_vec()));
}

#[test]
fn history_snapshot_is_not_changed_by_later_calls() {
    let mut mock = MockController::new();
    mock.respond(request("https://x/0"));
    let snapshot = mock.history();
    mock.respond(request("https://x/1"));
    assert_eq!(snapshot.len(), 1);
    assert_eq!(mock.history().len(), 2);
}

#[test]
fn clear_empties_the_queue_and_keeps_the_history() {
    let mut mock = MockController::new();
    mock.queue_response(418, Vec::new());
    mock.respond(request("https://x/0"));
    mock.queue_response(418, Vec::new());
    assert_eq!(mock.queued(), 1);
    mock.clear();
    assert_eq!(mock.queued(), 0);
    assert_eq!(mock.call_count(), 1);
    assert_eq!(mock.respond(request("https://x/1")).status, 200);
}

#[test]
fn host_answers_transport_from_the_queue_and_keeps_the_last_request() {
    let mut host = TestHostState::with_default_secrets();
    host.queue_response(202, b"{}".to_vec());
    let resp = host.send(request("https://x/a")).ok().unwrap();
    assert_eq!(resp.status, 202);
    assert_eq!(host.last_request.as_ref().map(|r| r.url.clone()), Some("https://x/a".to_string()));
    assert_eq!(host.history().len(), 1);
}

#[test]
fn secret_lookup_distinguishes_absent_from_present() {
    let mut host = TestHostState::with_default_secrets();
    assert_eq!(host.get("WEBEX_BOT_TOKEN").ok().unwrap(), Some(b"webex-token".to_vec()));
    assert_eq!(host.get("NOPE").ok().unwrap(), None);
    host.put("NOPE".to_string(), b"v".to_vec());
    assert_eq!(host.get("NOPE").ok().unwrap(), Some(b"v".to_vec()));
    host.put("NOPE".to_string(), b"w".to_vec());
    assert_eq!(host.get("NOPE").ok().unwrap(), Some(b"w".to_vec()));
}

#[test]
fn state_store_is_unavailable() {
    let mut host = TestHostState::with_default_secrets();
    let e = host.read("k", None).unwrap_err();
    assert_eq!(e.code, "unimplemented");
    assert_eq!(e.message, "state store not available in universal tests");
    assert_eq!(host.write("k", vec![1], None).unwrap_err().code, "unimplemented");
    assert_eq!(host.delete("k", None).unwrap_err().code, "unimplemented");
}

#[test]
fn default_secrets_hold_the_nine_tokens() {
    let secrets = default_secret_values();
    assert_eq!(secrets.len(), 9);
    assert_eq!(secrets[0], ("SLACK_BOT_TOKEN".to_string(), b"slack-token".to_vec()));
    assert_eq!(secrets[8], ("EMAIL_PASSWORD".to_string(), b"email-secret".to_vec()));
}

#[test]
fn a_call_that_met_a_fault_is_recorded_with_the_fault() {
    let mut host = TestHostState::with_default_secrets();
    host.queue_response(201, b"kept".to_vec());
    let fault = HttpClientError { code: "timeout".to_string(), message: "too slow".to_string() };
    let err = host.send_failed(request("https://x/slow"), fault).unwrap_err();
    assert_eq!((err.code.as_str(), err.message.as_str()), ("timeout", "too slow"));
    let resp = host.send(request("https://x/next")).ok().unwrap();
    assert_eq!(resp.status, 201);
    let calls = host.history();
    assert_eq!(calls.len(), 2);
    assert_eq!(calls[0].request.url, "https://x/slow");
    assert!(matches!(&calls[0].result, CallResult::Fault(f) if f.code == "timeout"));
    assert_eq!(calls[0].status(), None);
    assert_eq!(calls[1].status(), Some(201));
    assert_eq!(host.last_request.as_ref().map(|r| r.url.as_str()), Some("https://x/next"));
}

#[test]
fn host_holds_every_secret_name_once() {
    let host = TestHostState::with_secrets(
        vec![
            ("A".to_string(), b"1".to_vec()),
            ("B".to_string(), b"2".to_vec()),
            ("A".to_string(), b"3".to_vec()),
        ],
        MockController::new(),
    );
    assert_eq!(host.get("A").ok().unwrap(), Some(b"3".to_vec()));
    assert_eq!(host.get("B").ok().unwrap(), Some(b"2".to_vec()));
}
