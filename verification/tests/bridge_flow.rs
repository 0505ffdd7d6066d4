use provider_harness::bridge::{
    alias_error_from_host, alias_request_options_to_host, alias_tenant_ctx_to_host, client_send,
    context_to_host, options_to_host, ClientImpersonation, ClientRequest, ClientRequestOptions,
    ClientTenantCtx,
};
use provider_harness::cli::print_missing;
use provider_harness::flow_gen::{
    add_step_args, flow_failure_message, flow_file_name, new_flow_args, StepRouting, StepSpec,
};
use provider_harness::host::{component_candidates, TestHostState};
use provider_harness::http_mock::{
    CallResult, HttpCall, HttpClientError, HttpRequest, HttpResponse,
};
use provider_harness::ingress::HttpInFile;
use provider_harness::json::Json;
use provider_harness::requirements::{Requirements, ValidationReport};
use provider_harness::tester::{
    ingest_http_request, log_http_history, network_fault, requirements_output, WebexProvider,
};
use provider_harness::pipeline::Fault;

fn client_ctx() -> ClientTenantCtx {
    ClientTenantCtx {
        env: "dev".into(),
        tenant: "t".into(),
        tenant_id: "t".into(),
        team: Some("team".into()),
        team_id: None,
        user: None,
        user_id: Some("u".into()),
        i18n_id: None,
        trace_id: Some("trace".into()),
        correlation_id: Some("corr".into()),
        attributes: vec![("k".into(), "v".into())],
        session_id: None,
        flow_id: Some("f".into()),
        node_id: None,
        provider_id: None,
        deadline_ms: Some(-7),
        attempt: 3,
        idempotency_key: Some("idem".into()),
        impersonation: Some(ClientImpersonation { actor_id: "a".into(), reason: None }),
    }
}

#[test]
fn other_revision_is_translated_field_for_field() {
    let ctx = alias_tenant_ctx_to_host(client_ctx());
    assert_eq!(ctx.env, "dev");
    assert_eq!(ctx.team, Some("team".to_string()));
    assert_eq!(ctx.user_id, Some("u".to_string()));
    assert_eq!(ctx.trace_id, Some("trace".to_string()));
    assert_eq!(ctx.correlation_id, Some("corr".to_string()));
    assert_eq!(ctx.attributes, vec![("k".to_string(), "v".to_string())]);
    assert_eq!(ctx.deadline_ms, Some(-7));
    assert_eq!(ctx.attempt, 3);
    assert_eq!(ctx.idempotency_key, Some("idem".to_string()));
    assert_eq!(ctx.impersonation.map(|i| i.actor_id), Some("a".to_string()));
    let opts = alias_request_options_to_host(ClientRequestOptions {
        timeout_ms: Some(250),
        allow_insecure: None,
        follow_redirects: Some(false),
    });
    assert_eq!((opts.timeout_ms, opts.allow_insecure, opts.follow_redirects), (Some(250), None, Some(false)));
    let err = alias_error_from_host(HttpClientError { code: "c".into(), message: "m".into() });
    assert_eq!((err.code.as_str(), err.message.as_str()), ("c", "m"));
}

#[test]
fn absent_context_stays_absent() {
    assert_eq!(options_to_host(None), None);
    assert_eq!(context_to_host(None), None);
    assert!(context_to_host(Some(client_ctx())).is_some());
}

#[test]
fn call_in_the_other_revision_is_answered_and_recorded_once() {
    let mut host = TestHostState::with_default_secrets();
    host.queue_response(207, b"multi".to_vec());
    let req = ClientRequest {
        method: "PATCH".into(),
        url: "https://x/y".into(),
        headers: vec![("h".into(), "v".into())],
        body: Some(vec![1, 2, 3]),
    };
    let resp = client_send(&mut host, req, None, Some(client_ctx())).unwrap();
    assert_eq!((resp.status, resp.body), (207, Some(b"multi".to_vec())));
    let calls = host.history();
    assert_eq!(calls.len(), 1);
    assert_eq!(calls[0].request.method, "PATCH");
    assert_eq!(calls[0].request.body, Some(vec![1, 2, 3]));
    assert_eq!(calls[0].status(), Some(207));
}

#[test]
fn flow_commands_are_built_in_order() {
    assert_eq!(flow_file_name("demo"), "demo.ygtc");
    assert_eq!(
        new_flow_args("flows/demo.ygtc", "demo"),
        vec!["new", "--force", "--flow", "flows/demo.ygtc", "--id", "demo", "--type", "job"]
    );
    let mut step = StepSpec {
        node_id: "n1".into(),
        operation: "send".into(),
        payload: Json::parse(br#"{"text":"hi"}"#).unwrap(),
        manifest_path: "m.json".into(),
        local_wasm: "c.wasm".into(),
        routing: Some(StepRouting::Next("n2".into())),
        after: Some("n0".into()),
    };
    assert_eq!(
        add_step_args("f.ygtc", &step).unwrap(),
        vec![
            "add-step", "--flow", "f.ygtc", "--node-id", "n1", "--operation", "send", "--payload",
            r#"{"text":"hi"}"#, "--manifest", "m.json", "--local-wasm", "c.wasm", "--after", "n0",
            "--routing-next", "n2",
        ]
    );
    step.routing = Some(StepRouting::Out);
    step.after = None;
    let args = add_step_args("f.ygtc", &step).unwrap();
    assert_eq!(args.len(), 14);
    assert_eq!(args[13], "--routing-out");
    step.routing = None;
    assert_eq!(add_step_args("f.ygtc", &step).unwrap().len(), 13);
}

#[test]
fn flow_failure_is_reported_with_its_output() {
    assert_eq!(
        flow_failure_message("greentic-flow new", Some(-2), "out", "err"),
        "greentic-flow new failed (exit=Some(-2))\nstdout:\nout\nstderr:\nerr"
    );
    assert_eq!(
        flow_failure_message("x", None, "", ""),
        "x failed (exit=None)\nstdout:\n\nstderr:\n"
    );
}

#[test]
fn component_is_looked_for_in_seven_places() {
    let places = component_candidates("messaging-provider-webex");
    assert_eq!(places.len(), 7);
    assert_eq!(places[0], "target/components/messaging-provider-webex.wasm");
    assert_eq!(places[2], "target/wasm32-wasip2/debug/messaging-provider-webex.wasm");
    assert_eq!(
        places[6],
        "components/messaging-provider-webex/target/wasm32-wasip2/debug/messaging-provider-webex.wasm"
    );
}

#[test]
fn missing_values_are_printed_by_category() {
    let report = ValidationReport {
        missing_config: vec!["a".into()],
        missing_secrets: Vec::new(),
        missing_to: vec!["id".into(), "kind".into()],
    };
    assert_eq!(
        print_missing(&report).to_text().unwrap(),
        r#"{"error":"missing required values","missing":{"config":["a"],"secrets":[],"to":["id","kind"]}}"#
    );
}

#[test]
fn requirements_show_sample_values_or_themselves() {
    let raw = Json::parse(br#"{"provider":"p","values":{"http":"real","to":{"id":"x"}}}"#).unwrap();
    let req = Requirements::from_json(&raw).unwrap();
    assert_eq!(
        requirements_output(&req, raw).to_text().unwrap(),
        r#"{"config":{},"http":"real","secrets":{},"state":{},"to":{"id":"x"}}"#
    );
    let raw = Json::parse(br#"{"provider":"p"}"#).unwrap();
    let req = Requirements::from_json(&raw).unwrap();
    assert_eq!(requirements_output(&req, raw).to_text().unwrap(), r#"{"provider":"p"}"#);
}

#[test]
fn history_is_logged_call_by_call() {
    assert_eq!(log_http_history("send_payload", &Vec::new()), vec!["http history [send_payload]: <empty>"]);
    let request = |body: Option<Vec<u8>>| HttpRequest {
        method: "POST".into(),
        url: "https://x".into(),
        headers: Vec::new(),
        body,
    };
    let call = |body: Option<Vec<u8>>, status: u16| HttpCall {
        request: request(body),
        result: CallResult::Response(HttpResponse { status, headers: Vec::new(), body: None }),
    };
    let failed = HttpCall {
        request: request(None),
        result: CallResult::Fault(HttpClientError { code: "dns".into(), message: "no host".into() }),
    };
    assert_eq!(
        log_http_history("op", &vec![call(Some(b"hi".to_vec()), 200), call(None, 404), failed]),
        vec![
            "http history [op] call #0 POST https://x status=200 body=aGk=",
            "http history [op] call #1 POST https://x status=404 body=<no body>",
            "http history [op] call #2 POST https://x fault=dns body=<no body>",
        ]
    );
}

#[test]
fn transport_errors_become_network_faults() {
    match network_fault("timeout", "too slow") {
        Fault::Network(m) => assert_eq!(m, "timeout: too slow"),
        other => panic!("unexpected {other:?}"),
    }
}

#[test]
fn listener_request_reaches_the_module() {
    let http_in = HttpInFile {
        method: "POST".into(),
        path: "/".into(),
        headers: Vec::new(),
        body: Some(r#"{"resource":"rooms","event":"created","markdown":"**hi**"}"#.into()),
        query: None,
    };
    let events = ingest_http_request(&WebexProvider, &Vec::new(), http_in).unwrap();
    assert_eq!(events.len(), 1);
    assert_eq!(events[0].text, Some("**hi**".to_string()));
    let file = HttpInFile::from_json(
        &Json::parse(br#"{"method":"GET","path":"/p","headers":{"a":"b"},"body":null}"#).unwrap(),
    )
    .unwrap();
    assert_eq!(file.headers, vec![("a".to_string(), "b".to_string())]);
    assert_eq!(file.to_json().to_text().unwrap(), r#"{"body":null,"headers":{"a":"b"},"method":"GET","path":"/p","query":null}"#);
    assert!(HttpInFile::from_json(&Json::parse(br#"{"method":"GET"}"#).unwrap()).is_none());
}
