use provider_harness::json::Json;
use provider_harness::requirements::{
    FieldRequirement, RequirementGroup, Requirements, ToRequirement, ValidationReport,
};
use provider_harness::values::{HttpMode, Values};

fn field(key: &str) -> FieldRequirement {
    FieldRequirement { key: key.to_string(), type_: None, example: None }
}

#[test]
fn validation_reports_missing_values() {
    let mut values = Values {
        config: Vec::new(),
        secrets: Vec::new(),
        to: Vec::new(),
        http: None,
        state: Vec::new(),
    };
    values.config.push(("api_base".to_string(), Json::string("https://api")));
    let req = Requirements {
        provider: "test".to_string(),
        config: RequirementGroup { required: vec![field("api_base")] },
        secrets: RequirementGroup { required: vec![field("SOME_SECRET")] },
        to: ToRequirement { shape: vec![("chat_id".to_string(), Json::string("1"))] },
        values: None,
    };
    let report = req.validate(&values);
    assert!(report.missing_secrets.contains(&"SOME_SECRET".to_string()));
    assert!(report.missing_to.contains(&"chat_id".to_string()));
    assert!(report.missing_config.is_empty());
}

#[test]
fn defaults_to_mock_http() {
    let values = Values {
        config: Vec::new(),
        secrets: Vec::new(),
        to: Vec::new(),
        http: None,
        state: Vec::new(),
    };
    assert!(matches!(values.http_mode(), HttpMode::Mock));
}

#[test]
fn secret_bytes_handles_non_strings() {
    let secrets = vec![
        ("TEXT".to_string(), Json::string("text")),
        ("MAP".to_string(), Json::Object(Vec::new())),
    ];
    let values = Values {
        config: Vec::new(),
        secrets,
        to: Vec::new(),
        http: None,
        state: Vec::new(),
    };
    let bytes = values.secret_bytes();
    let get = |k: &str| bytes.iter().find(|(key, _)| key == k).map(|(_, v)| v.as_slice());
    assert_eq!(get("TEXT"), Some(b"text" as &[u8]));
    assert!(get("MAP").is_some());
    assert_eq!(get("MAP"), Some(b"{}" as &[u8]));
}

#[test]
fn http_mode_is_real_only_when_asked_for() {
    let mut values = Values::empty();
    values.http = Some("REAL".to_string());
    assert_eq!(values.http_mode(), HttpMode::Real);
    values.http = Some("mock".to_string());
    assert_eq!(values.http_mode(), HttpMode::Mock);
    values.http = Some("something".to_string());
    assert_eq!(values.http_mode(), HttpMode::Mock);
}

#[test]
fn report_lists_exactly_the_required_keys_that_are_absent() {
    let values = Values::parse(
        br#"{"config":{"a":1,"c":null},"secrets":{"S":"x"},"to":{"id":"room-1"}}"#,
    )
    .unwrap();
    let req = Requirements::from_json(
        &Json::parse(
            br#"{"provider":"p",
                 "config":{"required":[{"key":"a"},{"key":"b"},{"key":"c"},{"key":"d","type":"string"}]},
                 "secrets":{"required":[{"key":"S"},{"key":"T"}]},
                 "to":{"shape":{"id":"","kind":""}}}"#,
        )
        .unwrap(),
    )
    .unwrap();
    let report = req.validate(&values);
    assert_eq!(
        report,
        ValidationReport {
            missing_config: vec!["b".to_string(), "d".to_string()],
            missing_secrets: vec!["T".to_string()],
            missing_to: vec!["kind".to_string()],
        }
    );
    assert!(!report.is_empty());
}

#[test]
fn report_is_empty_when_every_required_key_is_present() {
    let values = Values::parse(br#"{"secrets":{"TOKEN":"abc"},"to":{"id":"room-1","kind":"room"}}"#)
        .unwrap();
    let req = Requirements::from_json(
        &Json::parse(
            br#"{"provider":"p","secrets":{"required":[{"key":"TOKEN"}]},"to":{"shape":{"id":""}}}"#,
        )
        .unwrap(),
    )
    .unwrap();
    let report = req.validate(&values);
    assert!(report.is_empty());
    assert_eq!(report.missing_config, Vec::<String>::new());
}

#[test]
fn values_members_may_be_left_out_but_must_be_of_their_kind() {
    let values = Values::parse(b"{}").unwrap();
    assert!(values.config.is_empty() && values.secrets.is_empty() && values.to.is_empty());
    assert_eq!(values.http, None);
    assert!(Values::parse(br#"{"config":[]}"#).is_err());
    assert!(Values::parse(br#"{"http":5}"#).is_err());
    assert!(Values::parse(b"[]").is_err());
    assert!(Values::parse(b"{").is_err());
}

#[test]
fn destination_values_become_text_metadata() {
    let values = Values::parse(br#"{"to":{"id":"room-1","n":5,"o":{"a":[]}}}"#).unwrap();
    let metadata = values.to_metadata();
    assert_eq!(
        metadata,
        vec![
            ("id".to_string(), "room-1".to_string()),
            ("n".to_string(), "5".to_string()),
            ("o".to_string(), r#"{"a":[]}"#.to_string()),
        ]
    );
}

#[test]
fn requirements_file_name_is_built_from_the_provider() {
    assert_eq!(Requirements::file_name("telegram"), "telegram.requirements.json");
}

#[test]
fn requirements_need_a_provider_and_well_formed_groups() {
    let parse = |s: &str| Requirements::from_json(&Json::parse(s.as_bytes()).unwrap());
    assert!(parse(r#"{"config":{}}"#).is_none());
    assert!(parse(r#"{"provider":"p","config":{"required":[{"nokey":1}]}}"#).is_none());
    assert!(parse(r#"{"provider":"p","to":{"shape":[]}}"#).is_none());
    let ok = parse(r#"{"provider":"p","values":{"http":"real"}}"#).unwrap();
    assert_eq!(ok.provider, "p");
    assert_eq!(ok.values.unwrap().http, Some("real".to_string()));
}

#[test]
fn maps_hold_every_key_once() {
    let twice = |a: &str, b: &str| {
        Json::Object(vec![
            ("k".to_string(), Json::string(a)),
            ("other".to_string(), Json::string("o")),
            ("k".to_string(), Json::string(b)),
        ])
    };
    let values = Values::from_json(&Json::Object(vec![
        ("config".to_string(), twice("1", "2")),
        ("secrets".to_string(), twice("s1", "s2")),
    ]))
    .unwrap();
    let config: Vec<(&str, Option<&str>)> =
        values.config.iter().map(|(k, v)| (k.as_str(), v.as_str())).collect();
    assert_eq!(config, vec![("k", Some("2")), ("other", Some("o"))]);
    assert_eq!(
        values.secret_bytes(),
        vec![("k".to_string(), b"s2".to_vec()), ("other".to_string(), b"o".to_vec())]
    );
}

#[test]
fn a_key_of_the_shape_is_reported_once() {
    let shape = Json::Object(vec![
        ("id".to_string(), Json::string("")),
        ("kind".to_string(), Json::string("")),
        ("id".to_string(), Json::string("again")),
    ]);
    let req = Requirements::from_json(&Json::Object(vec![
        ("provider".to_string(), Json::string("p")),
        ("to".to_string(), Json::Object(vec![("shape".to_string(), shape)])),
    ]))
    .unwrap();
    assert_eq!(req.to.shape.len(), 2);
    let report = req.validate(&Values::empty());
    assert_eq!(report.missing_to, vec!["id".to_string(), "kind".to_string()]);
}
