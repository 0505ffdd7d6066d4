use provider_harness::codec;
use provider_harness::directline::DirectLineContext;
use provider_harness::json::Json;
use provider_harness::jwt::{
    decode_segment, issue_token, issue_token_at, verify_token, verify_token_at, JwtError,
    TTL_SECONDS,
};

fn ctx(team: Option<&str>) -> DirectLineContext {
    DirectLineContext {
        env: "default".into(),
        tenant: "default".into(),
        team: team.map(|t| t.to_string()),
    }
}

#[test]
fn token_round_trip() {
    let secret = b"super-secure-key";
    let ctx = DirectLineContext {
        env: "default".into(),
        tenant: "default".into(),
        team: Some("team-a".into()),
    };
    let (token, exp) = issue_token(secret, ctx.clone(), "user-123", None).unwrap();
    assert!(token.split('.').count() == 3);
    assert!(exp > chrono::Utc::now().timestamp());
    let claims = verify_token(secret, &token).unwrap();
    assert_eq!(claims.sub, "user-123");
    assert_eq!(claims.ctx, ctx);
    assert!(claims.conv.is_none());
}

#[test]
fn token_with_conv_claim() {
    let secret = b"_another-secret-key_";
    let ctx = DirectLineContext { env: "prod".into(), tenant: "tenant-a".into(), team: None };
    let (token, _) =
        issue_token(secret, ctx.clone(), "user-x", Some("conv-99".into())).unwrap();
    let claims = verify_token(secret, &token).unwrap();
    assert_eq!(claims.conv.as_deref(), Some("conv-99"));
    assert_eq!(claims.ctx, ctx);
}

#[test]
fn issued_token_expires_one_time_to_live_after_issue() {
    let (token, exp) = issue_token(b"k", ctx(None), "u", None).unwrap();
    let claims = verify_token(b"k", &token).unwrap();
    assert_eq!(exp, claims.iat + TTL_SECONDS);
    assert_eq!(claims.nbf, claims.iat);
    assert_eq!(claims.exp, exp);
}

#[test]
fn token_issued_at_a_given_time_has_known_segments() {
    let (token, exp) = issue_token_at(b"k", ctx(None), "u", None, 1_000).unwrap();
    assert_eq!(exp, 2_800);
    let parts: Vec<&str> = token.split('.').collect();
    assert_eq!(parts[0], "eyJhbGciOiJIUzI1NiIsInR5cCI6IkpXVCJ9");
    let payload = Json::parse(&codec::base64url_decode(parts[1]).unwrap()).unwrap();
    assert_eq!(payload.str_at("iss"), Some("greentic.webchat".to_string()));
    assert_eq!(payload.str_at("aud"), Some("directline".to_string()));
    assert_eq!(payload.get("iat").and_then(|v| v.as_i64()), Some(1_000));
    assert_eq!(payload.get("nbf").and_then(|v| v.as_i64()), Some(1_000));
    assert_eq!(payload.get("exp").and_then(|v| v.as_i64()), Some(2_800));
    assert!(payload.get("conv").is_none());
    let signed = format!("{}.{}", parts[0], parts[1]);
    assert_eq!(parts[2], codec::base64url_encode(&codec::hmac_sha256(b"k", signed.as_bytes())));
}

#[test]
fn token_is_valid_from_issue_until_expiry() {
    let (token, exp) = issue_token_at(b"k", ctx(Some("t")), "u", None, 1_000).unwrap();
    assert!(verify_token_at(b"k", &token, 1_000).is_ok());
    assert!(verify_token_at(b"k", &token, exp - 1).is_ok());
    assert_eq!(verify_token_at(b"k", &token, exp).err(), Some(JwtError::Expired));
    assert_eq!(verify_token_at(b"k", &token, 999).err(), Some(JwtError::NotYetValid));
}

#[test]
fn tampered_tokens_are_refused() {
    let (token, _) = issue_token_at(b"k", ctx(None), "u", None, -5).unwrap();
    assert_eq!(verify_token_at(b"other", &token, 0).err(), Some(JwtError::InvalidSignature));
    assert_eq!(verify_token_at(b"k", "a.b", 0).err(), Some(JwtError::InvalidFormat));
    assert_eq!(verify_token_at(b"k", "a.b.c.d", 0).err(), Some(JwtError::InvalidFormat));
    let parts: Vec<&str> = token.split('.').collect();
    let bad_sig = format!("{}.{}.***", parts[0], parts[1]);
    assert!(matches!(verify_token_at(b"k", &bad_sig, 0), Err(JwtError::Base64(_))));
    let other_payload = codec::base64url_encode(b"{}");
    let swapped = format!("{}.{}.{}", parts[0], other_payload, parts[2]);
    assert_eq!(verify_token_at(b"k", &swapped, 0).err(), Some(JwtError::InvalidSignature));
}

#[test]
fn segments_must_hold_claims() {
    assert!(matches!(decode_segment("***"), Err(JwtError::Base64(_))));
    assert!(matches!(decode_segment(&codec::base64url_encode(b"not json")), Err(JwtError::Json(_))));
    match decode_segment(&codec::base64url_encode(br#"{"iss":"x"}"#)) {
        Err(JwtError::Json(m)) => assert_eq!(m, "claims do not have the expected members"),
        other => panic!("unexpected {:?}", other.err()),
    }
}
