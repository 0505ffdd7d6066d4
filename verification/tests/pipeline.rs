use provider_harness::cli::CliError;
use provider_harness::envelope::{ChannelMessageEnvelope, Destination, TenantCtx};
use provider_harness::host::TestHostState;
use provider_harness::http_mock::MockController;
use provider_harness::ingress::HttpInFile;
use provider_harness::json::Json;
use provider_harness::pipeline::{
    step, EncodeOutcome, Fault, PipelineAction, PipelineEvent, PipelineState, Stage,
};
use provider_harness::requirements::Requirements;
use provider_harness::tester::{
    build_message_envelope, handle_ingress, handle_send, run_send_pipeline, WebexProvider,
};
use provider_harness::values::Values;

fn message(text: &str) -> ChannelMessageEnvelope {
    ChannelMessageEnvelope {
        id: "m".to_string(),
        tenant: TenantCtx::new("manual", "manual"),
        channel: "c".to_string(),
        session_id: "s".to_string(),
        from: None,
        to: vec![Destination { id: "room-1".to_string(), kind: Some("room".to_string()) }],
        correlation_id: None,
        text: Some(text.to_string()),
        attachments: Vec::new(),
        metadata: Vec::new(),
    }
}

fn planning() -> PipelineState {
    let (state, action) = step(
        PipelineState::Idle,
        PipelineEvent::Start { message: message("hello"), provider_type: "p".to_string() },
    );
    match action {
        PipelineAction::Invoke { op, input } => {
            assert_eq!(op, "render_plan");
            let j = Json::parse(&input).unwrap();
            assert_eq!(j.get("message").and_then(|m| m.str_at("text")), Some("hello".to_string()));
        }
        other => panic!("unexpected {other:?}"),
    }
    assert!(matches!(state, PipelineState::Planning { .. }));
    state
}

#[test]
fn build_message_envelope_stores_destination() {
    let metadata = Vec::new();
    let dest = Destination { id: "room-123".to_string(), kind: Some("room".to_string()) };
    let envelope =
        build_message_envelope("webex", Some("hi".to_string()), None, metadata, vec![dest.clone()]);
    assert_eq!(envelope.to, vec![dest]);
}

#[test]
fn build_message_envelope_preserves_destination_kind() {
    let metadata = Vec::new();
    let dest = Destination { id: "dm-123".to_string(), kind: Some("user".to_string()) };
    let envelope = build_message_envelope(
        "slack",
        Some("hey".to_string()),
        None,
        metadata,
        vec![dest.clone()],
    );
    assert_eq!(envelope.to.len(), 1);
    let stored = &envelope.to[0];
    assert_eq!(stored.kind, dest.kind);
}

#[test]
fn message_envelope_takes_channel_and_card_from_its_inputs() {
    let metadata = vec![("channel".to_string(), "ops".to_string())];
    let card = Json::parse(br#"{"type":"AdaptiveCard"}"#).unwrap();
    let e = build_message_envelope("webex", None, Some(card), metadata, Vec::new());
    assert_eq!(e.id, "tester-webex-ops");
    assert_eq!((e.channel.as_str(), e.session_id.as_str()), ("ops", "ops"));
    assert_eq!(
        e.metadata,
        vec![
            ("channel".to_string(), "ops".to_string()),
            ("adaptive_card".to_string(), r#"{"type":"AdaptiveCard"}"#.to_string()),
        ]
    );
    let e = build_message_envelope("webex", None, None, Vec::new(), Vec::new());
    assert_eq!(e.id, "tester-webex-webex");
}

#[test]
fn render_failure_ends_the_run_without_encode_or_send() {
    let (state, action) = step(
        planning(),
        PipelineEvent::Answered(br#"{"ok":false,"error":"no template"}"#.to_vec()),
    );
    assert!(matches!(action, PipelineAction::Nothing));
    match &state {
        PipelineState::Failed { stage, fault: Fault::Provider(m) } => {
            assert_eq!(*stage, Stage::RenderPlan);
            assert_eq!(m, "render_plan reported failure: no template");
        }
        other => panic!("unexpected {other:?}"),
    }
    let (state, action) = step(
        state,
        PipelineEvent::Encoded(EncodeOutcome { ok: true, payload: None, error: None }),
    );
    assert!(matches!(action, PipelineAction::Nothing));
    let (state, action) = step(state, PipelineEvent::Answered(br#"{"ok":true}"#.to_vec()));
    assert!(matches!(action, PipelineAction::Nothing));
    assert!(matches!(state, PipelineState::Failed { stage: Stage::RenderPlan, .. }));
}

#[test]
fn planning_answers_that_are_unusable_fail_at_planning() {
    for (bytes, expected) in [
        (&br#"{"plan":{"plan_json":"{}"}}"#[..], "render_plan reported failure: unknown"),
        (&br#"{"ok":true}"#[..], "render_plan missing plan_json"),
        (&br#"{"ok":true,"plan":{"plan_json":5}}"#[..], "render_plan missing plan_json"),
    ] {
        let (state, action) = step(planning(), PipelineEvent::Answered(bytes.to_vec()));
        assert!(matches!(action, PipelineAction::Nothing));
        match state {
            PipelineState::Failed { stage: Stage::RenderPlan, fault: Fault::Provider(m) } => {
                assert_eq!(m, expected)
            }
            other => panic!("unexpected {other:?}"),
        }
    }
    let (state, _) = step(
        planning(),
        PipelineEvent::InvokeFailed(Fault::Network("timeout: slow".to_string())),
    );
    assert!(matches!(
        state,
        PipelineState::Failed { stage: Stage::RenderPlan, fault: Fault::Network(_) }
    ));
}

#[test]
fn encode_failure_carries_the_error_verbatim() {
    let (state, action) = step(
        planning(),
        PipelineEvent::Answered(br#"{"ok":true,"plan":{"plan_json":"{\"tier\":\"TierC\"}"}}"#.to_vec()),
    );
    match action {
        PipelineAction::Encode { plan_json, provider_type, .. } => {
            assert_eq!(plan_json, r#"{"tier":"TierC"}"#);
            assert_eq!(provider_type, "p");
        }
        other => panic!("unexpected {other:?}"),
    }
    let (state, action) = step(
        state,
        PipelineEvent::Encoded(EncodeOutcome {
            ok: false,
            payload: None,
            error: Some("tier not supported".to_string()),
        }),
    );
    assert!(matches!(action, PipelineAction::Nothing));
    match state {
        PipelineState::Failed { stage: Stage::Encode, fault: Fault::Provider(m) } => {
            assert_eq!(m, "encode_from_render_plan failed: tier not supported")
        }
        other => panic!("unexpected {other:?}"),
    }
}

#[test]
fn an_event_out_of_turn_fails_the_run() {
    let (state, action) = step(PipelineState::Idle, PipelineEvent::Answered(Vec::new()));
    assert!(matches!(action, PipelineAction::Nothing));
    assert!(matches!(state, PipelineState::Failed { stage: Stage::RenderPlan, .. }));
}

fn webex_values() -> Values {
    Values::parse(
        br#"{"secrets":{"TOKEN":"abc","WEBEX_BOT_TOKEN":"abc"},"to":{"id":"room-1","kind":"room"}}"#,
    )
    .unwrap()
}

fn token_requirements() -> Requirements {
    Requirements::from_json(
        &Json::parse(
            br#"{"provider":"webex","secrets":{"required":[{"key":"TOKEN"}]},"to":{"shape":{"id":""}}}"#,
        )
        .unwrap(),
    )
    .unwrap()
}

#[test]
fn end_to_end_send_records_one_authorised_call() {
    let values = webex_values();
    let requirements = token_requirements();
    assert!(requirements.validate(&values).is_empty());
    let mut transport = MockController::new();
    transport.queue_response(200, br#"{"id":"m1"}"#.to_vec());
    let run = handle_send(
        "webex",
        &WebexProvider,
        &requirements,
        &values,
        Some("hello".to_string()),
        None,
        Some("room-1".to_string()),
        Some("room".to_string()),
        transport,
    );
    let report = run.outcome.expect("send went through");
    let plan_json = report.plan.get("plan").and_then(|p| p.str_at("plan_json")).unwrap();
    assert_eq!(Json::parse(plan_json.as_bytes()).unwrap().str_at("summary_text"), Some("hello".to_string()));
    assert_eq!(report.payload.content_type, "application/json");
    assert!(!report.payload.body_b64.is_empty());
    assert!(report.result.ok);
    assert_eq!(report.result.message, None);
    assert_eq!(run.http_calls.len(), 1);
    let call = &run.http_calls[0];
    assert_eq!(call.request.url, "https://webexapis.com/v1/messages");
    assert!(call
        .request
        .headers
        .contains(&("Authorization".to_string(), "Bearer abc".to_string())));
    assert_eq!(call.status(), Some(200));
    assert_eq!(call.response().unwrap().body, Some(br#"{"id":"m1"}"#.to_vec()));
}

#[test]
fn missing_values_block_the_run_before_any_call() {
    let values = Values::parse(br#"{"to":{"id":"room-1"}}"#).unwrap();
    let run = handle_send(
        "webex",
        &WebexProvider,
        &token_requirements(),
        &values,
        Some("hello".to_string()),
        None,
        None,
        None,
        MockController::new(),
    );
    match run.outcome {
        Err(CliError::Validation { report }) => {
            assert_eq!(report.missing_secrets, vec!["TOKEN".to_string()]);
            assert!(report.missing_to.is_empty());
        }
        other => panic!("unexpected {:?}", other.err()),
    }
    assert!(run.http_calls.is_empty());
}

#[test]
fn failed_send_still_hands_back_the_calls() {
    let mut transport = MockController::new();
    transport.queue_response(500, b"oops".to_vec());
    let run = handle_send(
        "webex",
        &WebexProvider,
        &token_requirements(),
        &webex_values(),
        Some("hello".to_string()),
        None,
        Some("room-1".to_string()),
        Some("room".to_string()),
        transport,
    );
    match run.outcome {
        Err(CliError::ProviderOp(m)) => {
            assert_eq!(m, "send_payload failed: webex returned status 500 body=oops")
        }
        other => panic!("unexpected {:?}", other.err()),
    }
    assert_eq!(run.http_calls.len(), 1);
    assert_eq!(run.http_calls[0].status(), Some(500));
}

#[test]
fn send_needs_text_or_card_and_a_destination_that_is_not_blank() {
    let run = |text: Option<&str>, to: Option<&str>| {
        handle_send(
            "webex",
            &WebexProvider,
            &token_requirements(),
            &webex_values(),
            text.map(|t| t.to_string()),
            None,
            to.map(|t| t.to_string()),
            None,
            MockController::new(),
        )
    };
    match run(None, Some("r")).outcome {
        Err(e) => {
            assert_eq!(e.message(), "provider operation failed: send requires --text or --card");
            assert_eq!(e.exit_code(), 4);
        }
        Ok(_) => panic!("sent without text"),
    }
    match run(Some("t"), Some("  ")).outcome {
        Err(e) => assert_eq!(e.message(), "provider operation failed: --to cannot be empty"),
        Ok(_) => panic!("sent to blank"),
    }
}

#[test]
fn pipeline_runs_through_the_module_in_order() {
    let mut host = TestHostState::with_secrets(
        vec![("WEBEX_BOT_TOKEN".to_string(), b"abc".to_vec())],
        MockController::new(),
    );
    let end = run_send_pipeline(&WebexProvider, message("hello"), &mut host);
    match end {
        PipelineState::Done { result, .. } => assert!(result.ok),
        other => panic!("unexpected {other:?}"),
    }
    assert_eq!(host.history().len(), 1);
    let mut blank = TestHostState::with_secrets(Vec::new(), MockController::new());
    let end = run_send_pipeline(&WebexProvider, message("hello"), &mut blank);
    match end {
        PipelineState::Failed { stage: Stage::SendPayload, fault: Fault::Provider(m) } => {
            assert_eq!(m, "send_payload failed: missing secret: WEBEX_BOT_TOKEN")
        }
        other => panic!("unexpected {other:?}"),
    }
    assert!(blank.history().is_empty());
}

#[test]
fn ingress_with_failing_upstream_yields_one_envelope_and_status_502() {
    let mut transport = MockController::new();
    transport.queue_response(404, br#"{"message":"not found"}"#.to_vec());
    let http_in = HttpInFile {
        method: "POST".to_string(),
        path: "/webhook/webex".to_string(),
        headers: Vec::new(),
        body: Some(
            r#"{"resource":"messages","event":"created","data":{"id":"MSG123","roomId":"ROOM1"}}"#
                .to_string(),
        ),
        query: None,
    };
    let requirements = Requirements::from_json(
        &Json::parse(br#"{"provider":"webex","config":{"required":[{"key":"public_base_url"}]}}"#)
            .unwrap(),
    )
    .unwrap();
    let run = handle_ingress(
        &WebexProvider,
        &requirements,
        webex_values(),
        http_in,
        "https://example.test",
        transport,
    );
    let out = run.outcome.expect("ingest answered");
    assert_eq!(out.status, 502);
    assert_eq!(out.events.len(), 1);
    assert_eq!(out.events[0].text, Some(String::new()));
    assert!(out.events[0]
        .metadata
        .iter()
        .any(|(k, v)| k == "webex.ingestError" && v.contains("404")));
    assert_eq!(run.http_calls.len(), 1);
}

#[test]
fn failed_encode_invocation_fails_the_run_at_encoding() {
    let (state, _) = step(
        planning(),
        PipelineEvent::Answered(br#"{"ok":true,"plan":{"plan_json":"{}"}}"#.to_vec()),
    );
    assert!(matches!(state, PipelineState::Encoding { .. }));
    let (state, action) = step(
        state,
        PipelineEvent::InvokeFailed(Fault::Network("unavailable: no route".to_string())),
    );
    assert!(matches!(action, PipelineAction::Nothing));
    match state {
        PipelineState::Failed { stage, fault: Fault::Network(m) } => {
            assert_eq!(stage, Stage::Encode);
            assert_eq!(stage.operation(), "encode");
            assert_eq!(m, "unavailable: no route");
        }
        other => panic!("unexpected {other:?}"),
    }
    assert_eq!(Stage::RenderPlan.operation(), "render_plan");
    assert_eq!(Stage::SendPayload.operation(), "send_payload");
}
