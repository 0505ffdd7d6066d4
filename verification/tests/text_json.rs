use provider_harness::codec;
use provider_harness::json::Json;
use provider_harness::text;

#[test]
fn trim_removes_unicode_space() {
    assert_eq!(text::trim(" \u{2003}team\t\n"), "team");
    assert_eq!(text::trim("   "), "");
    assert_eq!(text::trim("a b"), "a b");
}

#[test]
fn trim_matches_strips_both_ends_only() {
    assert_eq!(text::trim_matches("\"\"ab\"cd\"", '"'), "ab\"cd");
    assert_eq!(text::trim_end_matches("https://x/v1///", '/'), "https://x/v1");
}

#[test]
fn case_folding_touches_ascii_letters_only() {
    assert_eq!(text::to_ascii_lowercase("X-Custom-\u{c9}"), "x-custom-\u{c9}");
    assert_eq!(text::to_ascii_uppercase("post\u{e9}"), "POST\u{e9}");
    assert!(text::eq_ignore_ascii_case("X-Webex-Signature", "x-webex-signature"));
    assert!(!text::eq_ignore_ascii_case("x-webex", "x-spark"));
}

#[test]
fn decimal_text_of_numbers() {
    assert_eq!(text::u64_to_string(0), "0");
    assert_eq!(text::u64_to_string(502), "502");
    assert_eq!(text::u64_to_string(u64::MAX), "18446744073709551615");
}

#[test]
fn parse_u64_accepts_canonical_decimals_only() {
    let digits = |s: &str| text::parse_u64(&s.chars().collect::<Vec<char>>());
    assert_eq!(digits("0"), Some(0));
    assert_eq!(digits("18446744073709551615"), Some(u64::MAX));
    assert_eq!(digits("18446744073709551616"), None);
    assert_eq!(digits("007"), None);
    assert_eq!(digits("-1"), None);
    assert_eq!(digits("1.0"), None);
    assert_eq!(digits(""), None);
}

#[test]
fn join_puts_the_separator_between_parts() {
    let parts = vec!["a".to_string(), "b".to_string(), "c".to_string()];
    assert_eq!(text::join(&parts, ","), "a,b,c");
    assert_eq!(text::join(&Vec::new(), ","), "");
    assert_eq!(text::join(&vec!["solo".to_string()], ","), "solo");
}

#[test]
fn utf8_conversions() {
    assert_eq!(text::from_utf8(vec![0x68, 0x69]), Some("hi".to_string()));
    assert_eq!(text::from_utf8(vec![0xff, 0xfe]), None);
    assert_eq!(text::from_utf8_lossy(&[0x68, 0xff, 0x69]), "h\u{fffd}i");
    assert_eq!(text::bytes_of("h\u{e9}"), vec![0x68, 0xc3, 0xa9]);
}

#[test]
fn parse_reads_object_members() {
    let j = Json::parse(br#"{"b": [1, "x"], "a": {"k": true}}"#).unwrap();
    assert_eq!(j.get("a").and_then(|a| a.get("k")).and_then(|k| k.as_bool()), Some(true));
    let items = j.get("b").and_then(|b| b.as_array()).unwrap();
    assert_eq!(items[0].as_u64(), Some(1));
    assert_eq!(items[1].as_str(), Some("x"));
    assert_eq!(j.to_bytes(), br#"{"a":{"k":true},"b":[1,"x"]}"#.to_vec());
}

#[test]
fn parse_reports_the_parser_error() {
    let err = Json::parse(b"{not json").unwrap_err();
    assert!(err.contains("line 1"));
}

#[test]
fn numbers_keep_their_text() {
    let j = Json::parse(b"[1.5, -3, 12]").unwrap();
    let items = j.as_array().unwrap();
    assert_eq!(items[0].as_u64(), None);
    assert_eq!(items[1].as_u64(), None);
    assert_eq!(items[2].as_u64(), Some(12));
    assert_eq!(j.to_text(), Some("[1.5,-3,12]".to_string()));
    assert_eq!(Json::from_u64(200).to_text(), Some("200".to_string()));
}

#[test]
fn later_member_of_a_key_is_the_one_read() {
    let j = Json::Object(vec![
        ("k".to_string(), Json::string("first")),
        ("k".to_string(), Json::string("second")),
    ]);
    assert_eq!(j.str_at("k"), Some("second".to_string()));
    assert_eq!(j.to_text(), Some(r#"{"k":"second"}"#.to_string()));
}

#[test]
fn base64_round_trip() {
    let text = codec::base64_encode(b"hello world");
    assert_eq!(text, "aGVsbG8gd29ybGQ=");
    assert_eq!(codec::base64_decode(&text), Ok(b"hello world".to_vec()));
    assert!(codec::base64_decode("***").is_err());
    assert_eq!(codec::base64url_encode(&[0xfb, 0xff]), "-_8");
    assert_eq!(codec::base64url_decode("-_8"), Ok(vec![0xfb, 0xff]));
}

#[test]
fn hmac_tag_of_known_vector() {
    let tag = codec::hmac_sha256(b"key", b"The quick brown fox jumps over the lazy dog");
    let hex: String = tag.iter().map(|b| format!("{:02x}", b)).collect();
    assert_eq!(hex, "f7bc83f430538424b13298e6aa6fb143ef4d59a14946175997479dbc2d1a3cd8");
    assert!(codec::hmac_sha256_verify(
        b"key",
        b"The quick brown fox jumps over the lazy dog",
        &tag
    ));
    assert!(!codec::hmac_sha256_verify(b"key", b"another message", &tag));
    assert!(!codec::hmac_sha256_verify(b"key", b"another message", &tag[..16]));
}
