use provider_harness::cli::{build_webhook_input, webhook_component_for, CliError};
use provider_harness::codec;
use provider_harness::ingress::{
    authorize_request, build_http_in_payload, decode_hex, find_header_value, http_in_file_to_v1,
    listener_reply, load_webhook_signature_secret, normalize_request, parse_header, resolve_body,
    verify_webex_signature, BodyChoice, IngestEnd,
};
use provider_harness::values::Values;

fn hex(bytes: &[u8]) -> String {
    bytes.iter().map(|b| format!("{:02x}", b)).collect()
}

fn headers(name: &str, value: &str) -> Vec<(String, String)> {
    vec![("content-type".to_string(), "application/json".to_string()), (name.to_string(), value.to_string())]
}

#[test]
fn signature_of_the_body_verifies() {
    let secret = b"shared-secret";
    let body = r#"{"id":"evt-1"}"#;
    let digest = hex(&codec::hmac_sha256(secret, body.as_bytes()));
    let value = format!("SHA-256={digest}");
    assert!(verify_webex_signature(secret, &headers("X-Webex-Signature", &value), body));
    assert!(verify_webex_signature(secret, &headers("x-spark-signature", &value), body));
    let listed = format!("SHA-1=abcdef, SHA-256=\"{}\" , extra=1", digest.to_uppercase());
    assert!(verify_webex_signature(secret, &headers("x-webex-signature", &listed), body));
}

#[test]
fn changed_body_or_digest_does_not_verify() {
    let secret = b"shared-secret";
    let body = r#"{"id":"evt-1"}"#;
    let digest = hex(&codec::hmac_sha256(secret, body.as_bytes()));
    let value = format!("SHA-256={digest}");
    let h = headers("x-webex-signature", &value);
    assert!(!verify_webex_signature(secret, &h, r#"{"id":"evt-2"}"#));
    assert!(!verify_webex_signature(b"other-secret", &h, body));
    let mut flipped = digest.clone().into_bytes();
    flipped[0] = if flipped[0] == b'0' { b'1' } else { b'0' };
    let wrong = format!("SHA-256={}", String::from_utf8(flipped).unwrap());
    assert!(!verify_webex_signature(secret, &headers("x-webex-signature", &wrong), body));
    let short = format!("SHA-256={}", &digest[..62]);
    assert!(!verify_webex_signature(secret, &headers("x-webex-signature", &short), body));
}

#[test]
fn absent_or_malformed_signature_header_does_not_verify() {
    let secret = b"shared-secret";
    assert!(!verify_webex_signature(secret, &Vec::new(), "body"));
    assert!(!verify_webex_signature(secret, &headers("x-other", "SHA-256=00"), "body"));
    assert!(!verify_webex_signature(secret, &headers("x-webex-signature", ""), "body"));
    assert!(!verify_webex_signature(secret, &headers("x-webex-signature", "SHA-1=00"), "body"));
    assert!(!verify_webex_signature(secret, &headers("x-webex-signature", "SHA-256=zz"), "body"));
    assert!(!verify_webex_signature(secret, &headers("x-webex-signature", "SHA-256=abc"), "body"));
    assert!(!verify_webex_signature(secret, &headers("x-webex-signature", "sha-256=00"), "body"));
}

#[test]
fn decode_hex_reads_pairs_of_digits() {
    assert_eq!(decode_hex("00ff1A"), Some(vec![0x00, 0xff, 0x1a]));
    assert_eq!(decode_hex("DEADbeef"), Some(vec![0xde, 0xad, 0xbe, 0xef]));
    assert_eq!(decode_hex(""), Some(Vec::new()));
    assert_eq!(decode_hex("abc"), None);
    assert_eq!(decode_hex("zz"), None);
    assert_eq!(decode_hex("0g"), None);
}

#[test]
fn decode_hex_takes_nothing_but_digits() {
    assert_eq!(decode_hex("+f"), None);
    assert_eq!(decode_hex("-f"), None);
    assert_eq!(decode_hex(" a"), None);
    assert_eq!(decode_hex("a "), None);
    assert_eq!(decode_hex(" ab "), None);
    assert_eq!(decode_hex("a"), None);
    assert_eq!(decode_hex("\u{e9}"), None);
    assert_eq!(decode_hex("ab\u{a0}"), None);
    assert_eq!(decode_hex("ab\u{a0}\u{a0}"), None);
    assert_eq!(decode_hex("0x"), None);
}

#[test]
fn digest_with_a_sign_or_a_gap_does_not_verify() {
    let secret = b"shared-secret";
    let body = "payload";
    let digest = hex(&codec::hmac_sha256(secret, body.as_bytes()));
    let first = u8::from_str_radix(&digest[..2], 16).unwrap();
    let signed = format!("SHA-256=+{:x}{}", first & 0x0f, &digest[2..]);
    assert!(!verify_webex_signature(secret, &headers("x-webex-signature", &signed), body));
    let gapped = format!("SHA-256=\" {digest} \"");
    assert!(!verify_webex_signature(secret, &headers("x-webex-signature", &gapped), body));
    let quoted = format!("SHA-256=\"{digest}\"");
    assert!(verify_webex_signature(secret, &headers("x-webex-signature", &quoted), body));
}

#[test]
fn header_lookup_ignores_case_and_takes_the_first() {
    let h = vec![
        ("X-A".to_string(), "1".to_string()),
        ("x-a".to_string(), "2".to_string()),
    ];
    assert_eq!(find_header_value(&h, "x-a"), Some("1".to_string()));
    assert_eq!(find_header_value(&h, "X-B"), None);
}

#[test]
fn parse_header_splits_at_the_first_separator() {
    assert_eq!(parse_header("X-Custom: 42 ").ok(), Some(("x-custom".to_string(), "42".to_string())));
    assert_eq!(parse_header("a=b:c").ok(), Some(("a=b".to_string(), "c".to_string())));
    assert_eq!(parse_header("Name=v").ok(), Some(("name".to_string(), "v".to_string())));
    match parse_header("novalue:") {
        Err(CliError::Listen(m)) => {
            assert_eq!(m, "invalid header 'novalue:', expected 'name:value'")
        }
        other => panic!("unexpected {other:?}"),
    }
    assert!(parse_header("plain").is_err());
}

#[test]
fn http_in_payload_is_built_from_flags() {
    let f = build_http_in_payload(
        "post".to_string(),
        "/webhook".to_string(),
        None,
        Some("{\"hello\":\"world\"}".to_string()),
        vec!["x-custom:42".to_string(), "X-Custom: 43".to_string(), "b=c".to_string()],
    )
    .unwrap();
    assert_eq!(f.method, "POST");
    assert_eq!(f.path, "/webhook");
    assert_eq!(
        f.headers,
        vec![("x-custom".to_string(), "43".to_string()), ("b".to_string(), "c".to_string())]
    );
    assert_eq!(f.body, Some("{\"hello\":\"world\"}".to_string()));
    let v1 = http_in_file_to_v1(f);
    assert_eq!(v1.body_b64, codec::base64_encode(b"{\"hello\":\"world\"}"));
    assert_eq!(v1.method, "POST");
    let bad = build_http_in_payload(
        "get".to_string(),
        "/".to_string(),
        None,
        None,
        vec!["ok:1".to_string(), "broken".to_string(), "worse".to_string()],
    );
    match bad {
        Err(CliError::Listen(m)) => assert_eq!(m, "invalid header 'broken', expected 'name:value'"),
        other => panic!("unexpected {other:?}"),
    }
}

#[test]
fn body_comes_from_one_source_only() {
    assert!(matches!(resolve_body(Some("b".to_string()), false), Ok(BodyChoice::Inline(b)) if b == "b"));
    assert!(matches!(resolve_body(None, true), Ok(BodyChoice::FromFile)));
    assert!(matches!(resolve_body(None, false), Ok(BodyChoice::Absent)));
    match resolve_body(Some("b".to_string()), true) {
        Err(e) => {
            assert_eq!(e.exit_code(), 7);
            assert_eq!(
                e.message(),
                "listen helper failure: --body and --body-file cannot be provided together"
            );
        }
        Ok(_) => panic!("both sources accepted"),
    }
}

#[test]
fn signature_secret_is_read_from_either_key() {
    let values =
        Values::parse(br#"{"config":{"webex_webhook_signature_secret":"s2","webex_signature_secret":7}}"#)
            .unwrap();
    assert_eq!(load_webhook_signature_secret(&values, "webex"), Some(b"s2".to_vec()));
    assert_eq!(load_webhook_signature_secret(&values, "telegram"), None);
}

#[test]
fn listener_turns_away_only_unsigned_webex_requests() {
    let secret = Some(b"k".to_vec());
    let none: Vec<(String, String)> = Vec::new();
    let reply = authorize_request("webex", &secret, &none, "body").unwrap();
    assert_eq!((reply.status, reply.body.as_str()), (401, "invalid webex webhook signature"));
    assert!(authorize_request("telegram", &secret, &none, "body").is_none());
    assert!(authorize_request("webex", &None, &none, "body").is_none());
    let digest = hex(&codec::hmac_sha256(b"k", b"body"));
    let signed = headers("x-webex-signature", &format!("SHA-256={digest}"));
    assert!(authorize_request("webex", &secret, &signed, "body").is_none());
}

#[test]
fn listener_replies_by_how_the_dispatch_ended() {
    let r = listener_reply(IngestEnd::Delivered);
    assert_eq!((r.status, r.body.as_str()), (200, "ok"));
    let r = listener_reply(IngestEnd::Failed("no module".to_string()));
    assert_eq!((r.status, r.body.as_str()), (500, "no module"));
    let r = listener_reply(IngestEnd::Panicked("boom".to_string()));
    assert_eq!((r.status, r.body.as_str()), (500, "ingest runtime panic: boom"));
}

#[test]
fn listener_request_is_normalised() {
    let h = vec![
        ("a".to_string(), "1".to_string()),
        ("b".to_string(), "2".to_string()),
        ("a".to_string(), "3".to_string()),
    ];
    let f = normalize_request("post", "/p", Some("q=1".to_string()), &h, "text");
    assert_eq!(f.method, "POST");
    assert_eq!(f.headers, vec![("a".to_string(), "3".to_string()), ("b".to_string(), "2".to_string())]);
    assert_eq!(f.body, Some("text".to_string()));
    assert_eq!(f.query, Some("q=1".to_string()));
}

#[test]
fn exit_codes_by_failure_class() {
    let s = || "x".to_string();
    assert_eq!(CliError::RequirementsMissing(s()).exit_code(), 2);
    assert_eq!(CliError::RequirementsParse(s(), s()).exit_code(), 2);
    assert_eq!(CliError::ValuesLoad(s(), s()).exit_code(), 1);
    assert_eq!(CliError::HttpInput(s(), s()).exit_code(), 1);
    assert_eq!(CliError::HttpOutput(s(), s()).exit_code(), 6);
    assert_eq!(CliError::CardFile(s(), s()).exit_code(), 1);
    assert_eq!(CliError::CardParse(s(), s()).exit_code(), 1);
    assert_eq!(CliError::WasmLoad(s()).exit_code(), 3);
    assert_eq!(CliError::ProviderOp(s()).exit_code(), 4);
    assert_eq!(CliError::Network(s()).exit_code(), 5);
    assert_eq!(CliError::Listen(s()).exit_code(), 7);
    assert_eq!(CliError::Webhook(s()).exit_code(), 8);
    assert_eq!(CliError::WebhookUnsupported(s()).exit_code(), 9);
    assert_eq!(CliError::ValuesLoad("v.json".to_string(), "gone".to_string()).message(), "values load failed (v.json): gone");
    assert_eq!(CliError::Network("timeout: slow".to_string()).message(), "network error: timeout: slow");
}

#[test]
fn webhook_components_and_input() {
    assert_eq!(webhook_component_for("telegram"), Some("telegram-webhook"));
    assert_eq!(webhook_component_for("webex"), Some("webex-webhook"));
    assert_eq!(webhook_component_for("slack"), None);
    let input = build_webhook_input(" https://example.test ".to_string(), None, true).unwrap();
    assert_eq!(input.public_base_url, "https://example.test");
    assert_eq!(input.dry_run, Some(true));
    let input = build_webhook_input("u".to_string(), Some("t".to_string()), false).unwrap();
    assert_eq!((input.secret_token, input.dry_run), (Some("t".to_string()), None));
    match build_webhook_input("  ".to_string(), None, false) {
        Err(e) => {
            assert_eq!(e.exit_code(), 8);
            assert_eq!(e.message(), "webhook reconciliation failed: public_base_url is required");
        }
        Ok(_) => panic!("blank url accepted"),
    }
}
