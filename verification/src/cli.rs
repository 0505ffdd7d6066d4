//! The failures that a run of the tool can end in, each with the exit code
//! of its class, and the small decisions of the command line.

use vstd::prelude::*;
use crate::json;
use crate::json::{Json, JsonV};
use crate::requirements::{ReportV, ValidationReport};
use crate::text;

verus! {

/// How a run failed.
#[derive(Debug)]
pub enum CliError {
    RequirementsMissing(String),
    RequirementsParse(String, String),
    ValuesLoad(String, String),
    HttpInput(String, String),
    HttpOutput(String, String),
    CardFile(String, String),
    CardParse(String, String),
    Validation { report: ValidationReport },
    WasmLoad(String),
    ProviderOp(String),
    Webhook(String),
    WebhookUnsupported(String),
    Network(String),
    Listen(String),
}

/// The exit code of each class of failure.
pub open spec fn exit_code_of(e: CliError) -> i32 {
    match e {
        CliError::RequirementsMissing(_) => 2,
        CliError::RequirementsParse(_, _) => 2,
        CliError::Validation { .. } => 2,
        CliError::ValuesLoad(_, _) => 1,
        CliError::HttpInput(_, _) => 1,
        CliError::HttpOutput(_, _) => 6,
        CliError::CardFile(_, _) => 1,
        CliError::CardParse(_, _) => 1,
        CliError::WasmLoad(_) => 3,
        CliError::ProviderOp(_) => 4,
        CliError::Webhook(_) => 8,
        CliError::WebhookUnsupported(_) => 9,
        CliError::Network(_) => 5,
        CliError::Listen(_) => 7,
    }
}

/// The text that describes a failure.
pub open spec fn message_of(e: CliError) -> Seq<char> {
    match e {
        CliError::RequirementsMissing(p) => "requirements missing for provider "@ + p@,
        CliError::RequirementsParse(p, m) => "failed to parse requirements for "@ + p@ + ": "@ + m@,
        CliError::ValuesLoad(p, m) => "values load failed ("@ + p@ + "): "@ + m@,
        CliError::HttpInput(p, m) => "http input load failed ("@ + p@ + "): "@ + m@,
        CliError::HttpOutput(p, m) => "failed to write http-in file ("@ + p@ + "): "@ + m@,
        CliError::CardFile(p, m) => "card file failed ("@ + p@ + "): "@ + m@,
        CliError::CardParse(p, m) => "card parse failed ("@ + p@ + "): "@ + m@,
        CliError::Validation { .. } => "validation failed"@,
        CliError::WasmLoad(m) => "wasm load failure: "@ + m@,
        CliError::ProviderOp(m) => "provider operation failed: "@ + m@,
        CliError::Webhook(m) => "webhook reconciliation failed: "@ + m@,
        CliError::WebhookUnsupported(p) => "webhook component not available for provider "@ + p@,
        CliError::Network(m) => "network error: "@ + m@,
        CliError::Listen(m) => "listen helper failure: "@ + m@,
    }
}

/// The webhook component that reconciles the webhook of `provider`, where there is one.
pub open spec fn webhook_component(provider: Seq<char>) -> Option<Seq<char>> {
    if provider == "telegram"@ {
        Some("telegram-webhook"@)
    } else if provider == "webex"@ {
        Some("webex-webhook"@)
    } else {
        None
    }
}

/// The input of webhook reconciliation.
#[derive(Debug)]
pub struct WebhookInput {
    pub public_base_url: String,
    pub secret_token: Option<String>,
    pub dry_run: Option<bool>,
}

fn with_path(prefix: &str, path: &String, detail: &String) -> (r: String)
    ensures
        r@ == prefix@ + path@ + "): "@ + detail@,
{
    let mut r = prefix.to_owned();
    r.append(path.as_str());
    r.append("): ");
    r.append(detail.as_str());
    r
}

impl CliError {
    /// The exit code of this failure.
    pub fn exit_code(&self) -> (r: i32)
        ensures
            r == exit_code_of(*self),
    {
        match self {
            CliError::RequirementsMissing(_) => 2,
            CliError::RequirementsParse(_, _) => 2,
            CliError::Validation { .. } => 2,
            CliError::ValuesLoad(_, _) => 1,
            CliError::HttpInput(_, _) => 1,
            CliError::HttpOutput(_, _) => 6,
            CliError::CardFile(_, _) => 1,
            CliError::CardParse(_, _) => 1,
            CliError::WasmLoad(_) => 3,
            CliError::ProviderOp(_) => 4,
            CliError::Webhook(_) => 8,
            CliError::WebhookUnsupported(_) => 9,
            CliError::Network(_) => 5,
            CliError::Listen(_) => 7,
        }
    }

    /// The text that describes this failure.
    pub fn message(&self) -> (r: String)
        ensures
            r@ == message_of(*self),
    {
        match self {
            CliError::RequirementsMissing(p) => text::concat(
                "requirements missing for provider ",
                p.as_str(),
            ),
            CliError::RequirementsParse(p, m) => {
                let mut r = "failed to parse requirements for ".to_owned();
                r.append(p.as_str());
                r.append(": ");
                r.append(m.as_str());
                r
            },
            CliError::ValuesLoad(p, m) => with_path("values load failed (", p, m),
            CliError::HttpInput(p, m) => with_path("http input load failed (", p, m),
            CliError::HttpOutput(p, m) => with_path("failed to write http-in file (", p, m),
            CliError::CardFile(p, m) => with_path("card file failed (", p, m),
            CliError::CardParse(p, m) => with_path("card parse failed (", p, m),
            CliError::Validation { .. } => "validation failed".to_owned(),
            CliError::WasmLoad(m) => text::concat("wasm load failure: ", m.as_str()),
            CliError::ProviderOp(m) => text::concat("provider operation failed: ", m.as_str()),
            CliError::Webhook(m) => text::concat("webhook reconciliation failed: ", m.as_str()),
            CliError::WebhookUnsupported(p) => text::concat(
                "webhook component not available for provider ",
                p.as_str(),
            ),
            CliError::Network(m) => text::concat("network error: ", m.as_str()),
            CliError::Listen(m) => text::concat("listen helper failure: ", m.as_str()),
        }
    }
}

/// The webhook component that reconciles the webhook of `provider`, where there is one.
pub fn webhook_component_for(provider: &str) -> (r: Option<&'static str>)
    ensures
        crate::directline::opt_text(r) == webhook_component(provider@),
{
    if text::str_eq(provider, "telegram") {
        Some("telegram-webhook")
    } else if text::str_eq(provider, "webex") {
        Some("webex-webhook")
    } else {
        None
    }
}

/// The input of webhook reconciliation for the public base `public_base_url`,
/// which must not be blank.
pub fn build_webhook_input(public_base_url: String, secret_token: Option<String>, dry_run: bool) -> (r:
    Result<WebhookInput, CliError>)
    ensures
        match r {
            Err(e) => {
                &&& text::trimmed(public_base_url@).len() == 0
                &&& e matches CliError::Webhook(m)
                &&& m@ == "public_base_url is required"@
            },
            Ok(w) => text::trimmed(public_base_url@).len() > 0 && w.public_base_url@
                == text::trimmed(public_base_url@) && w.secret_token == secret_token && w.dry_run
                == (if dry_run {
                Some(true)
            } else {
                None::<bool>
            }),
        },
{
    let trimmed = text::trim(public_base_url.as_str());
    if trimmed.as_str().unicode_len() == 0 {
        return Err(CliError::Webhook("public_base_url is required".to_owned()));
    }
    Ok(
        WebhookInput {
            public_base_url: trimmed,
            secret_token,
            dry_run: if dry_run {
                Some(true)
            } else {
                None
            },
        },
    )
}

/// The JSON form of the input of webhook reconciliation: members that are not set are left out.
pub open spec fn webhook_input_json(
    public_base_url: Seq<char>,
    secret_token: Option<Seq<char>>,
    dry_run: Option<bool>,
) -> JsonV {
    let o0 = Seq::empty().push(("public_base_url"@, JsonV::Str(public_base_url)));
    let o1 = match secret_token {
        Some(t) => o0.push(("secret_token"@, JsonV::Str(t))),
        None => o0,
    };
    JsonV::Object(
        match dry_run {
            Some(b) => o1.push(("dry_run"@, JsonV::Bool(b))),
            None => o1,
        },
    )
}

/// The array of the strings `s`.
pub open spec fn strings_json(s: Seq<Seq<char>>) -> JsonV {
    JsonV::Array(Seq::new(s.len(), |i: int| JsonV::Str(s[i])))
}

/// What is printed of values that lack required keys.
pub open spec fn missing_values_json(r: ReportV) -> JsonV {
    JsonV::Object(
        Seq::empty().push(("error"@, JsonV::Str("missing required values"@))).push(
            (
                "missing"@,
                JsonV::Object(
                    Seq::empty().push(("config"@, strings_json(r.missing_config))).push(
                        ("secrets"@, strings_json(r.missing_secrets)),
                    ).push(("to"@, strings_json(r.missing_to))),
                ),
            ),
        ),
    )
}

impl WebhookInput {
    /// The JSON form of this input.
    pub fn to_json(&self) -> (r: Json)
        ensures
            r@ == webhook_input_json(
                self.public_base_url@,
                json::opt_view(self.secret_token),
                self.dry_run,
            ),
    {
        let mut o = json::no_members();
        json::push_member(&mut o, "public_base_url", Json::Str(self.public_base_url.clone()));
        match &self.secret_token {
            Some(t) => {
                json::push_member(&mut o, "secret_token", Json::Str(t.clone()));
            },
            None => {},
        }
        match self.dry_run {
            Some(b) => {
                json::push_member(&mut o, "dry_run", Json::Bool(b));
            },
            None => {},
        }
        json::object(o)
    }
}

fn strings_to_json(v: &Vec<String>) -> (r: Json)
    ensures
        r@ == strings_json(text::strings_view(v@)),
{
    let mut items: Vec<Json> = Vec::new();
    let mut i: usize = 0;
    while i < v.len()
        invariant
            i <= v.len(),
            items@.len() == i,
            forall|k: int| 0 <= k < i ==> items@[k]@ == JsonV::Str(v@[k]@),
        decreases v.len() - i,
    {
        items.push(Json::Str(v[i].clone()));
        i += 1;
    }
    let ghost want = strings_json(text::strings_view(v@));
    assert(json::items_view(items@) =~= want->Array_0);
    json::array(items)
}

/// What is printed of values that lack required keys.
pub fn print_missing(report: &ValidationReport) -> (r: Json)
    ensures
        r@ == missing_values_json(report@),
{
    let mut missing = json::no_members();
    json::push_member(&mut missing, "config", strings_to_json(&report.missing_config));
    json::push_member(&mut missing, "secrets", strings_to_json(&report.missing_secrets));
    json::push_member(&mut missing, "to", strings_to_json(&report.missing_to));
    let mut o = json::no_members();
    json::push_member(&mut o, "error", Json::string("missing required values"));
    json::push_member(&mut o, "missing", json::object(missing));
    json::object(o)
}

} // verus!
