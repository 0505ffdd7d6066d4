//! The operation surface of the provider: it describes itself, checks a
//! configuration, and runs one named operation on bytes. An unknown name is
//! answered with a failure report, never with a fault.

use vstd::prelude::*;
use crate::codec;
use crate::dto::{
    decode_encode_in, decode_http_in, decode_render_plan_in, http_out_json, payload_json,
    EncodeInV1, HttpInV1, HttpOutV, HttpOutV1, PayloadV, ProviderPayloadV1, RenderPlanInV1,
};
use crate::envelope::{envelope_json, ChannelMessageEnvelope};
use crate::host::{HostV, TestHostState};
use crate::json;
use crate::json::{Json, JsonV};
use crate::text;
use crate::webex::direct::{
    fail_json, failure, handle_reply, handle_send, host_after_reply_op, host_after_send_op,
    reply_report, send_report,
};
use crate::webex::ingest::{
    handle_webhook_event, host_after_webhook, unless_blank, webhook_outcome,
};
use crate::webex::send::{
    host_after_send_payload, or_default, send_payload, send_payload_result, shape_fault,
};
use crate::webex::{
    config_of_parsed, default_api_base, empty_config, json_result, parse_config_parsed,
    provider_type, ProviderConfig,
};

verus! {

/// The operations that a provider module can be asked for.
#[derive(Debug, Clone, Copy, PartialEq, Eq)]
pub enum Operation {
    Send,
    Reply,
    IngestHttp,
    RenderPlan,
    Encode,
    SendPayload,
    Unsupported,
}

/// The operation that `name` names; every other name is unsupported.
pub open spec fn operation_of(name: Seq<char>) -> Operation {
    if name == "send"@ {
        Operation::Send
    } else if name == "reply"@ {
        Operation::Reply
    } else if name == "ingest_http"@ {
        Operation::IngestHttp
    } else if name == "render_plan"@ {
        Operation::RenderPlan
    } else if name == "encode"@ {
        Operation::Encode
    } else if name == "send_payload"@ {
        Operation::SendPayload
    } else {
        Operation::Unsupported
    }
}

/// The value that a body of bytes holds: its JSON, or null where it is none.
pub open spec fn event_body(bytes: Seq<u8>) -> JsonV {
    match json::parsed(bytes) {
        Ok(j) => j,
        Err(_) => JsonV::Null,
    }
}

/// The answer to an inbound request that could not be read.
pub open spec fn http_out_fault(status: u16, message: Seq<char>) -> HttpOutV {
    HttpOutV {
        status,
        headers: Seq::empty(),
        body_b64: codec::base64_text(vstd::utf8::encode_utf8(message)),
        events: Seq::empty(),
    }
}

/// The body of the answer to an event: whether it went well, the event, and the fault if any.
pub open spec fn normalized_json(body: JsonV, error: Option<Seq<char>>) -> JsonV {
    let o = Seq::empty().push(("ok"@, JsonV::Bool(error is None))).push(("event"@, body));
    JsonV::Object(
        match error {
            Some(e) => o.push(("error"@, JsonV::Str(e))),
            None => o,
        },
    )
}

/// The answer to the parsed inbound request, on the host `h`: one envelope
/// for every request that can be read, whatever became of the fetch.
pub open spec fn ingest_answer(parsed: Result<JsonV, Seq<char>>, h: HostV) -> HttpOutV {
    match parsed {
        Err(e) => http_out_fault(400, "invalid http input: "@ + e),
        Ok(j) => match decode_http_in(j) {
            None => http_out_fault(400, "invalid http input: "@ + shape_fault()),
            Some(req) => match codec::base64_bytes(req.body_b64) {
                Err(e) => http_out_fault(400, "invalid body encoding: "@ + e),
                Ok(bytes) => {
                    let o = webhook_outcome(event_body(bytes), empty_config(), h);
                    HttpOutV {
                        status: o.status,
                        headers: Seq::empty(),
                        body_b64: codec::base64_text(
                            json::encoding(normalized_json(event_body(bytes), o.error)),
                        ),
                        events: seq![o.envelope],
                    }
                },
            },
        },
    }
}

/// The host after the parsed inbound request was handled.
pub open spec fn host_after_ingest(parsed: Result<JsonV, Seq<char>>, h: HostV) -> HostV {
    match parsed {
        Err(e) => h,
        Ok(j) => match decode_http_in(j) {
            None => h,
            Some(req) => match codec::base64_bytes(req.body_b64) {
                Err(e) => h,
                Ok(bytes) => host_after_webhook(event_body(bytes), empty_config(), h),
            },
        },
    }
}

/// The plan that the provider renders: the lowest tier, with the text as summary.
pub open spec fn plan_object(summary: Seq<char>, debug: Seq<(Seq<char>, JsonV)>) -> JsonV {
    JsonV::Object(
        Seq::empty().push(("tier"@, JsonV::Str("TierC"@))).push(
            ("summary_text"@, JsonV::Str(summary)),
        ).push(("actions"@, JsonV::Array(Seq::empty()))).push(
            ("attachments"@, JsonV::Array(Seq::empty())),
        ).push(("warnings"@, JsonV::Array(Seq::empty()))).push(("debug"@, JsonV::Object(debug))),
    )
}

/// The text of a plan; a plan of the tier alone where it cannot be printed.
pub open spec fn plan_text(plan: JsonV) -> Seq<char> {
    match json::printed_text(plan) {
        Some(t) => t,
        None => "{\"tier\":\"TierC\"}"@,
    }
}

/// The report of `render_plan` on the parsed input.
pub open spec fn render_report(parsed: Result<JsonV, Seq<char>>) -> JsonV {
    match parsed {
        Err(e) => fail_json("invalid render input: "@ + e),
        Ok(j) => match decode_render_plan_in(j) {
            None => fail_json("invalid render input: "@ + shape_fault()),
            Some(input) => JsonV::Object(
                Seq::empty().push(("ok"@, JsonV::Bool(true))).push(
                    (
                        "plan"@,
                        JsonV::Object(
                            Seq::empty().push(
                                (
                                    "plan_json"@,
                                    JsonV::Str(
                                        plan_text(
                                            plan_object(
                                                or_default(
                                                    unless_blank(input.message.text),
                                                    "webex message"@,
                                                ),
                                                input.metadata,
                                            ),
                                        ),
                                    ),
                                ),
                            ),
                        ),
                    ),
                ),
            ),
        },
    }
}

/// The payload that the provider encodes a message into: its JSON form, in base64.
pub open spec fn encoded_payload(message: crate::envelope::EnvelopeV) -> PayloadV {
    PayloadV {
        content_type: "application/json"@,
        body_b64: codec::base64_text(json::encoding(envelope_json(message))),
        metadata: Seq::empty(),
    }
}

/// The report of `encode` on the parsed input.
pub open spec fn encode_report(parsed: Result<JsonV, Seq<char>>) -> JsonV {
    match parsed {
        Err(e) => fail_json("invalid encode input: "@ + e),
        Ok(j) => match decode_encode_in(j) {
            None => fail_json("invalid encode input: "@ + shape_fault()),
            Some(input) => JsonV::Object(
                Seq::empty().push(("ok"@, JsonV::Bool(true))).push(
                    ("payload"@, payload_json(encoded_payload(input.message))),
                ),
            ),
        },
    }
}

/// The names of the operations that the provider declares.
pub open spec fn declared_ops() -> Seq<JsonV> {
    seq![
        JsonV::Str("send"@),
        JsonV::Str("reply"@),
        JsonV::Str("ingest_http"@),
        JsonV::Str("render_plan"@),
        JsonV::Str("encode"@),
        JsonV::Str("send_payload"@),
    ]
}

/// What the provider says of itself.
pub open spec fn manifest_json() -> JsonV {
    JsonV::Object(
        Seq::empty().push(("provider_type"@, JsonV::Str(provider_type()))).push(
            ("capabilities"@, JsonV::Array(Seq::empty())),
        ).push(("ops"@, JsonV::Array(declared_ops()))).push(
            (
                "config_schema_ref"@,
                JsonV::Str("schemas/messaging/webex/public.config.schema.json"@),
            ),
        ).push(("state_schema_ref"@, JsonV::Null)),
    )
}

/// The report on a configuration: the configuration with the API base filled in, or the fault.
pub open spec fn validation_report(parsed: Result<JsonV, Seq<char>>) -> JsonV {
    match config_of_parsed(parsed) {
        Ok(cfg) => JsonV::Object(
            Seq::empty().push(("ok"@, JsonV::Bool(true))).push(
                (
                    "config"@,
                    JsonV::Object(
                        Seq::empty().push(
                            ("default_room_id"@, json::str_or_null(cfg.default_room_id)),
                        ).push(
                            (
                                "default_to_person_email"@,
                                json::str_or_null(cfg.default_to_person_email),
                            ),
                        ).push(
                            (
                                "api_base_url"@,
                                JsonV::Str(or_default(cfg.api_base_url, default_api_base())),
                            ),
                        ),
                    ),
                ),
            ),
        ),
        Err(err) => fail_json(err),
    }
}

/// The report that all is well.
pub open spec fn health_json() -> JsonV {
    JsonV::Object(Seq::empty().push(("status"@, JsonV::Str("ok"@))))
}

/// The bytes that the operation `op` answers to `input` on the host `h`.
pub open spec fn invoke_output(op: Seq<char>, input: Seq<u8>, h: HostV) -> Seq<u8> {
    json::encoding(
        match operation_of(op) {
            Operation::Send => send_report(json::parsed(input), h),
            Operation::Reply => reply_report(json::parsed(input), h),
            Operation::IngestHttp => http_out_json(ingest_answer(json::parsed(input), h)),
            Operation::RenderPlan => render_report(json::parsed(input)),
            Operation::Encode => encode_report(json::parsed(input)),
            Operation::SendPayload => crate::dto::send_result_json(
                send_payload_result(json::parsed(input), h),
            ),
            Operation::Unsupported => fail_json("unsupported op: "@ + op),
        },
    )
}

/// The host after the operation `op` ran on `input`. Planning and encoding call nothing.
pub open spec fn host_after_invoke(op: Seq<char>, input: Seq<u8>, h: HostV) -> HostV {
    match operation_of(op) {
        Operation::Send => host_after_send_op(json::parsed(input), h),
        Operation::Reply => host_after_reply_op(json::parsed(input), h),
        Operation::IngestHttp => host_after_ingest(json::parsed(input), h),
        Operation::SendPayload => host_after_send_payload(json::parsed(input), h),
        _ => h,
    }
}

impl Operation {
    /// The operation that `name` names.
    pub fn parse(name: &str) -> (r: Operation)
        ensures
            r == operation_of(name@),
    {
        if text::str_eq(name, "send") {
            Operation::Send
        } else if text::str_eq(name, "reply") {
            Operation::Reply
        } else if text::str_eq(name, "ingest_http") {
            Operation::IngestHttp
        } else if text::str_eq(name, "render_plan") {
            Operation::RenderPlan
        } else if text::str_eq(name, "encode") {
            Operation::Encode
        } else if text::str_eq(name, "send_payload") {
            Operation::SendPayload
        } else {
            Operation::Unsupported
        }
    }
}

/// The answer to an inbound request that could not be read.
pub fn http_out_error(status: u16, message: &str) -> (r: HttpOutV1)
    ensures
        r@ == http_out_fault(status, message@),
{
    let headers: Vec<(String, String)> = Vec::new();
    let events: Vec<ChannelMessageEnvelope> = Vec::new();
    let r = HttpOutV1 {
        status,
        headers,
        body_b64: codec::base64_encode(text::bytes_of(message).as_slice()),
        events,
    };
    assert(r@.headers =~= Seq::empty());
    assert(r@.events =~= Seq::empty());
    r
}

fn normalized(body: Json, error: &Option<String>) -> (r: Json)
    ensures
        r@ == normalized_json(body@, json::opt_view(*error)),
{
    let mut o = json::no_members();
    json::push_member(&mut o, "ok", Json::Bool(error.is_none()));
    json::push_member(&mut o, "event", body);
    match error {
        Some(e) => {
            json::push_member(&mut o, "error", Json::Str(e.clone()));
        },
        None => {},
    }
    json::object(o)
}

/// The message in place of an input that parses but is not of the expected form.
fn shape_message(prefix: &str) -> (r: String)
    ensures
        r@ == prefix@ + shape_fault(),
{
    text::concat(prefix, "input does not have the expected members")
}

/// Handles the parsed inbound request: reads the event out of its body and
/// makes the envelope of it.
pub fn ingest_http_parsed(parsed: &Result<Json, String>, host: &mut TestHostState) -> (r: HttpOutV1)
    ensures
        r@ == ingest_answer(json_result(*parsed), old(host)@),
        final(host)@ == host_after_ingest(json_result(*parsed), old(host)@),
{
    let j = match parsed {
        Ok(j) => j,
        Err(e) => {
            return http_out_error(400, text::concat("invalid http input: ", e.as_str()).as_str());
        },
    };
    let request = match HttpInV1::from_json(j) {
        Some(r) => r,
        None => {
            return http_out_error(400, shape_message("invalid http input: ").as_str());
        },
    };
    let bytes = match codec::base64_decode(request.body_b64.as_str()) {
        Ok(b) => b,
        Err(e) => {
            return http_out_error(
                400,
                text::concat("invalid body encoding: ", e.as_str()).as_str(),
            );
        },
    };
    let body = match Json::parse(bytes.as_slice()) {
        Ok(v) => v,
        Err(_) => Json::Null,
    };
    let cfg = ProviderConfig {
        default_room_id: None,
        default_to_person_email: None,
        api_base_url: None,
    };
    let outcome = handle_webhook_event(&body, &cfg, host);
    let normalized_bytes = normalized(body, &outcome.error).to_bytes();
    let headers: Vec<(String, String)> = Vec::new();
    let mut events: Vec<ChannelMessageEnvelope> = Vec::new();
    let status = outcome.status;
    let ghost envelope = outcome.envelope@;
    events.push(outcome.envelope);
    let r = HttpOutV1 {
        status,
        headers,
        body_b64: codec::base64_encode(normalized_bytes.as_slice()),
        events,
    };
    assert(r@.headers =~= Seq::empty());
    assert(r@.events =~= seq![envelope]);
    r
}

/// The operation `ingest_http`.
pub fn ingest_http(input_json: &[u8], host: &mut TestHostState) -> (r: Vec<u8>)
    ensures
        r@ == json::encoding(http_out_json(ingest_answer(json::parsed(input_json@), old(host)@))),
        final(host)@ == host_after_ingest(json::parsed(input_json@), old(host)@),
{
    let parsed = Json::parse(input_json);
    ingest_http_parsed(&parsed, host).to_json().to_bytes()
}

fn empty_array() -> (r: Json)
    ensures
        r@ == JsonV::Array(Seq::empty()),
{
    let items: Vec<Json> = Vec::new();
    assert(json::items_view(items@) =~= Seq::empty());
    json::array(items)
}

/// The operation `render_plan` on a parsed input.
pub fn render_plan_parsed(parsed: &Result<Json, String>) -> (r: Json)
    ensures
        r@ == render_report(json_result(*parsed)),
{
    let j = match parsed {
        Ok(j) => j,
        Err(e) => {
            return failure(text::concat("invalid render input: ", e.as_str()).as_str());
        },
    };
    let plan_in = match RenderPlanInV1::from_json(j) {
        Some(p) => p,
        None => {
            return failure(shape_message("invalid render input: ").as_str());
        },
    };
    let summary = match &plan_in.message.text {
        Some(t) => if text::trim(t.as_str()).as_str().unicode_len() == 0 {
            "webex message".to_owned()
        } else {
            t.clone()
        },
        None => "webex message".to_owned(),
    };
    let mut plan = json::no_members();
    json::push_member(&mut plan, "tier", Json::string("TierC"));
    json::push_member(&mut plan, "summary_text", Json::Str(summary));
    json::push_member(&mut plan, "actions", empty_array());
    json::push_member(&mut plan, "attachments", empty_array());
    json::push_member(&mut plan, "warnings", empty_array());
    json::push_member(&mut plan, "debug", json::object(plan_in.metadata));
    let plan_json = match json::object(plan).to_text() {
        Some(t) => t,
        None => "{\"tier\":\"TierC\"}".to_owned(),
    };
    let mut out = json::no_members();
    json::push_member(&mut out, "plan_json", Json::Str(plan_json));
    let mut report = json::no_members();
    json::push_member(&mut report, "ok", Json::Bool(true));
    json::push_member(&mut report, "plan", json::object(out));
    json::object(report)
}

/// The operation `render_plan`.
pub fn render_plan(input_json: &[u8]) -> (r: Vec<u8>)
    ensures
        r@ == json::encoding(render_report(json::parsed(input_json@))),
{
    let parsed = Json::parse(input_json);
    render_plan_parsed(&parsed).to_bytes()
}

/// The payload that a message is encoded into.
pub fn encode_message(message: &ChannelMessageEnvelope) -> (r: ProviderPayloadV1)
    ensures
        r@ == encoded_payload(message@),
{
    let body = message.to_json().to_bytes();
    ProviderPayloadV1 {
        content_type: "application/json".to_owned(),
        body_b64: codec::base64_encode(body.as_slice()),
        metadata: json::no_members(),
    }
}

/// The operation `encode` on a parsed input.
pub fn encode_parsed(parsed: &Result<Json, String>) -> (r: Json)
    ensures
        r@ == encode_report(json_result(*parsed)),
{
    let j = match parsed {
        Ok(j) => j,
        Err(e) => {
            return failure(text::concat("invalid encode input: ", e.as_str()).as_str());
        },
    };
    let encode_in = match EncodeInV1::from_json(j) {
        Some(p) => p,
        None => {
            return failure(shape_message("invalid encode input: ").as_str());
        },
    };
    let payload = encode_message(&encode_in.message);
    let mut report = json::no_members();
    json::push_member(&mut report, "ok", Json::Bool(true));
    json::push_member(&mut report, "payload", payload.to_json());
    json::object(report)
}

/// The operation `encode`.
pub fn encode_op(input_json: &[u8]) -> (r: Vec<u8>)
    ensures
        r@ == json::encoding(encode_report(json::parsed(input_json@))),
{
    let parsed = Json::parse(input_json);
    encode_parsed(&parsed).to_bytes()
}

/// What the provider says of itself.
pub fn describe() -> (r: Vec<u8>)
    ensures
        r@ == json::encoding(manifest_json()),
{
    let mut ops: Vec<Json> = Vec::new();
    ops.push(Json::string("send"));
    ops.push(Json::string("reply"));
    ops.push(Json::string("ingest_http"));
    ops.push(Json::string("render_plan"));
    ops.push(Json::string("encode"));
    ops.push(Json::string("send_payload"));
    assert(json::items_view(ops@) =~= declared_ops());
    let mut o = json::no_members();
    json::push_member(&mut o, "provider_type", Json::string("messaging.webex.bot"));
    json::push_member(&mut o, "capabilities", empty_array());
    json::push_member(&mut o, "ops", json::array(ops));
    json::push_member(
        &mut o,
        "config_schema_ref",
        Json::string("schemas/messaging/webex/public.config.schema.json"),
    );
    json::push_member(&mut o, "state_schema_ref", Json::Null);
    json::object(o).to_bytes()
}

/// The report on a parsed configuration.
pub fn validate_config_parsed(parsed: Result<Json, String>) -> (r: Json)
    ensures
        r@ == validation_report(json_result(parsed)),
{
    match parse_config_parsed(parsed) {
        Ok(cfg) => {
            let api_base = match &cfg.api_base_url {
                Some(u) => u.clone(),
                None => "https://webexapis.com/v1".to_owned(),
            };
            let mut c = json::no_members();
            json::push_member(&mut c, "default_room_id", json::opt_str_json(&cfg.default_room_id));
            json::push_member(
                &mut c,
                "default_to_person_email",
                json::opt_str_json(&cfg.default_to_person_email),
            );
            json::push_member(&mut c, "api_base_url", Json::Str(api_base));
            let mut o = json::no_members();
            json::push_member(&mut o, "ok", Json::Bool(true));
            json::push_member(&mut o, "config", json::object(c));
            json::object(o)
        },
        Err(err) => failure(err.as_str()),
    }
}

/// Checks the configuration that `config_json` holds and reports on it.
pub fn validate_config(config_json: &[u8]) -> (r: Vec<u8>)
    ensures
        r@ == json::encoding(validation_report(json::parsed(config_json@))),
{
    validate_config_parsed(Json::parse(config_json)).to_bytes()
}

/// Reports that all is well.
pub fn healthcheck() -> (r: Vec<u8>)
    ensures
        r@ == json::encoding(health_json()),
{
    let mut o = json::no_members();
    json::push_member(&mut o, "status", Json::string("ok"));
    json::object(o).to_bytes()
}

/// Runs the operation `op` on `input_json`. An unknown operation is answered
/// with a failure report.
pub fn invoke(op: &str, input_json: &[u8], host: &mut TestHostState) -> (r: Vec<u8>)
    ensures
        r@ == invoke_output(op@, input_json@, old(host)@),
        final(host)@ == host_after_invoke(op@, input_json@, old(host)@),
{
    match Operation::parse(op) {
        Operation::Send => handle_send(input_json, host),
        Operation::Reply => handle_reply(input_json, host),
        Operation::IngestHttp => ingest_http(input_json, host),
        Operation::RenderPlan => render_plan(input_json),
        Operation::Encode => encode_op(input_json),
        Operation::SendPayload => send_payload(input_json, host),
        Operation::Unsupported => failure(text::concat("unsupported op: ", op).as_str()).to_bytes(),
    }
}

} // verus!
