use provider_harness::dto::{
    HttpInV1, HttpOutV1, ProviderPayloadV1, SendPayloadInV1, SendPayloadResultV1,
};
use provider_harness::envelope::{
    Actor, Attachment, ChannelMessageEnvelope, Destination, TenantCtx,
};
use provider_harness::json::Json;
use provider_harness::values::Values;

fn full_envelope() -> ChannelMessageEnvelope {
    ChannelMessageEnvelope {
        id: "e-1".to_string(),
        tenant: TenantCtx::new("dev", "acme"),
        channel: "webex".to_string(),
        session_id: "room".to_string(),
        from: Some(Actor { id: "a@b.c".to_string(), kind: Some("person".to_string()) }),
        to: vec![
            Destination { id: "r1".to_string(), kind: Some("room".to_string()) },
            Destination { id: "r2".to_string(), kind: None },
        ],
        correlation_id: Some("corr".to_string()),
        text: Some("hello \"world\"".to_string()),
        attachments: vec![Attachment {
            mime_type: "image/png".to_string(),
            url: "https://x/y.png".to_string(),
            name: None,
            size_bytes: Some(u64::MAX),
        }],
        metadata: vec![("a".to_string(), "1".to_string()), ("b".to_string(), "2".to_string())],
    }
}

fn through_bytes(j: &Json) -> Json {
    Json::parse(&j.to_bytes()).unwrap()
}

#[test]
fn envelope_reads_back_from_its_json_form() {
    let e = full_envelope();
    assert_eq!(ChannelMessageEnvelope::from_json(&e.to_json()), Some(e.clone()));
    assert_eq!(ChannelMessageEnvelope::from_json(&through_bytes(&e.to_json())), Some(e));
}

#[test]
fn envelope_leaves_out_members_that_hold_nothing() {
    let e = ChannelMessageEnvelope {
        id: "e".to_string(),
        tenant: TenantCtx::new("manual", "manual"),
        channel: "c".to_string(),
        session_id: "s".to_string(),
        from: None,
        to: Vec::new(),
        correlation_id: None,
        text: None,
        attachments: Vec::new(),
        metadata: Vec::new(),
    };
    assert_eq!(
        e.to_json().to_text().unwrap(),
        r#"{"channel":"c","id":"e","metadata":{},"session_id":"s","tenant":{"attempt":0,"env":"manual","tenant":"manual","tenant_id":"manual"}}"#
    );
    assert_eq!(ChannelMessageEnvelope::from_json(&through_bytes(&e.to_json())), Some(e));
}

#[test]
fn envelope_members_must_be_of_their_kind() {
    let parse = |s: &str| ChannelMessageEnvelope::from_json(&Json::parse(s.as_bytes()).unwrap());
    let base = r#""id":"e","tenant":{"env":"m","tenant":"m"},"channel":"c","session_id":"s""#;
    assert!(parse(&format!("{{{base}}}")).is_some());
    assert!(parse(&format!(r#"{{{base},"text":null,"from":null}}"#)).is_some());
    assert!(parse(r#"{"id":"e","channel":"c","session_id":"s"}"#).is_none());
    assert!(parse(&format!(r#"{{{base},"text":5}}"#)).is_none());
    assert!(parse(&format!(r#"{{{base},"to":{{}}}}"#)).is_none());
    assert!(parse(&format!(r#"{{{base},"to":[{{"kind":"room"}}]}}"#)).is_none());
    assert!(parse(&format!(r#"{{{base},"metadata":{{"k":1}}}}"#)).is_none());
    assert!(parse(&format!(r#"{{{base},"attachments":[{{"mime_type":"a","url":"u","size_bytes":-1}}]}}"#)).is_none());
}

#[test]
fn operation_values_read_back_from_their_json_forms() {
    let result = SendPayloadResultV1 { ok: false, message: Some("m".to_string()), retryable: true };
    assert_eq!(SendPayloadResultV1::from_json(&through_bytes(&result.to_json())), Some(result));
    let ok = SendPayloadResultV1::from_json(&Json::parse(br#"{"ok":true}"#).unwrap()).unwrap();
    assert_eq!((ok.ok, ok.message, ok.retryable), (true, None, false));
    assert!(SendPayloadResultV1::from_json(&Json::parse(br#"{"message":"x"}"#).unwrap()).is_none());

    let send_in = SendPayloadInV1 {
        provider_type: "p".to_string(),
        tenant_id: Some("t".to_string()),
        payload: ProviderPayloadV1 {
            content_type: "application/json".to_string(),
            body_b64: "e30=".to_string(),
            metadata: vec![("method".to_string(), Json::string("PUT"))],
        },
    };
    let back = SendPayloadInV1::from_json(&through_bytes(&send_in.to_json())).unwrap();
    assert_eq!(back.provider_type, "p");
    assert_eq!(back.tenant_id, Some("t".to_string()));
    assert_eq!(back.payload.body_b64, "e30=");
    assert_eq!(back.payload.metadata[0].1.as_str(), Some("PUT"));

    let http_in = HttpInV1 {
        method: "POST".to_string(),
        path: "/p".to_string(),
        query: Some("a=b".to_string()),
        headers: vec![("h".to_string(), "v".to_string()), ("h".to_string(), "w".to_string())],
        body_b64: String::new(),
    };
    let back = HttpInV1::from_json(&through_bytes(&http_in.to_json())).unwrap();
    assert_eq!(back.headers, http_in.headers);
    assert_eq!((back.method, back.path, back.query), (http_in.method, http_in.path, http_in.query));

    let out = HttpOutV1 {
        status: 502,
        headers: Vec::new(),
        body_b64: "Zg==".to_string(),
        events: vec![full_envelope()],
    };
    let back = HttpOutV1::from_json(&through_bytes(&out.to_json())).unwrap();
    assert_eq!(back.status, 502);
    assert_eq!(back.events, out.events);
    assert!(HttpOutV1::from_json(&Json::parse(br#"{"status":70000}"#).unwrap()).is_none());
}

#[test]
fn values_read_back_from_their_json_form() {
    let values = Values::parse(
        br#"{"config":{"a":[1,2]},"secrets":{"S":"x"},"to":{"id":"r"},"http":"real","state":{"k":null}}"#,
    )
    .unwrap();
    let back = Values::from_json(&through_bytes(&values.to_json())).unwrap();
    assert_eq!(back.to_json().to_text(), values.to_json().to_text());
    assert_eq!(back.http, Some("real".to_string()));
    assert_eq!(back.secret_bytes(), vec![("S".to_string(), b"x".to_vec())]);
}
