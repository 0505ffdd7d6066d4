//! Outbound: a message envelope becomes one call to the Webex message
//! endpoint. What is sent is decided first, from the input alone; the token
//! is read and the call made only when there is something to send.

use vstd::prelude::*;
use crate::assoc;
use crate::card::{card_text, extract_card_text, trim_nonblank, trimmed_text};
use crate::codec;
use crate::dto::{decode_send_in, PayloadV, SendPayloadInV1, SendPayloadResultV1, SendResultV};
use crate::envelope::{decode_envelope, ChannelMessageEnvelope, Destination, EnvelopeV, PartyV};
use crate::host::{after_send, HostV, TestHostState};
use crate::http_mock::{next_response, HttpRequest, HttpRequestV, HttpResponse, HttpResponseV};
use crate::json;
use crate::json::{Json, JsonV};
use crate::text;
use crate::webex::ingest::{body_bytes, body_or_empty, is_success, or_text};
use crate::webex::{
    default_api_base, format_webex_error, get_secret_string, json_result, provider_type,
    secret_text, token_key, webex_error_text,
};

verus! {

/// What is to be sent to the message endpoint, before the token is known.
#[derive(Debug)]
pub struct Delivery {
    pub method: String,
    pub url: String,
    pub content_type: String,
    pub body: Json,
}

pub ghost struct DeliveryV {
    pub method: Seq<char>,
    pub url: Seq<char>,
    pub content_type: Seq<char>,
    pub body: JsonV,
}

impl View for Delivery {
    type V = DeliveryV;

    open spec fn view(&self) -> DeliveryV {
        DeliveryV {
            method: self.method@,
            url: self.url@,
            content_type: self.content_type@,
            body: self.body@,
        }
    }
}

/// The view of a delivery or the message in its place.
pub open spec fn delivery_view(r: Result<Delivery, String>) -> Result<DeliveryV, Seq<char>> {
    match r {
        Ok(d) => Ok(d@),
        Err(e) => Err(e@),
    }
}

/// What is said of an input that parses but is not of the expected form.
pub open spec fn shape_fault() -> Seq<char> {
    "input does not have the expected members"@
}

/// The member of the request body that names a destination of `kind`.
pub open spec fn destination_key(kind: Seq<char>) -> Option<Seq<char>> {
    if kind == "room"@ {
        Some("roomId"@)
    } else if kind == "person"@ || kind == "user"@ {
        Some("toPersonId"@)
    } else if kind == "email"@ || kind == Seq::<char>::empty() {
        Some("toPersonEmail"@)
    } else {
        None
    }
}

/// The kind of a destination; e-mail where it names none.
pub open spec fn kind_of(p: PartyV) -> Seq<char> {
    match p.kind {
        Some(k) => k,
        None => "email"@,
    }
}

/// The request body for a card, or else a text, with its markdown.
pub open spec fn webex_body(card: Option<JsonV>, text_value: Option<Seq<char>>, markdown: Seq<char>) -> Seq<
    (Seq<char>, JsonV),
> {
    let start = match card {
        Some(c) => Seq::empty().push(
            (
                "attachments"@,
                JsonV::Array(
                    seq![
                        JsonV::Object(
                            Seq::empty().push(
                                (
                                    "contentType"@,
                                    JsonV::Str("application/vnd.microsoft.card.adaptive"@),
                                ),
                            ).push(("content"@, c)),
                        ),
                    ],
                ),
            ),
        ),
        None => match text_value {
            Some(t) => Seq::empty().push(("text"@, JsonV::Str(t))),
            None => Seq::empty(),
        },
    };
    start.push(("markdown"@, JsonV::Str(markdown)))
}

/// The card that the metadata of a message carries, where it parses.
pub open spec fn card_of(metadata: Seq<(Seq<char>, Seq<char>)>) -> Option<JsonV> {
    match assoc::lookup(metadata, "adaptive_card"@) {
        Some(v) => match json::parsed(vstd::utf8::encode_utf8(v)) {
            Ok(c) => Some(c),
            Err(_) => None,
        },
        None => None,
    }
}

/// The text under `key` of payload metadata.
pub open spec fn meta_str(metadata: Seq<(Seq<char>, JsonV)>, key: Seq<char>) -> Option<Seq<char>> {
    match assoc::lookup(metadata, key) {
        Some(v) => v.as_str(),
        None => None,
    }
}

/// The text, or `fallback` where there is none.
pub open spec fn or_default(t: Option<Seq<char>>, fallback: Seq<char>) -> Seq<char> {
    match t {
        Some(v) => v,
        None => fallback,
    }
}

/// The first destination of a message, else the e-mail address `fallback`.
pub open spec fn first_destination(to: Seq<PartyV>, fallback: Option<Seq<char>>) -> Option<PartyV> {
    if to.len() > 0 {
        Some(to[0])
    } else {
        match fallback {
            Some(e) => Some(PartyV { id: e, kind: Some("email"@) }),
            None => None,
        }
    }
}

/// What the payload of the envelope `env` sends, or why it sends nothing:
/// attachments are refused; a text or a card is needed; the destination is the
/// first of the envelope, else the default e-mail of the payload metadata,
/// and must have an id and a known kind.
pub open spec fn envelope_delivery(
    env: EnvelopeV,
    content_type: Seq<char>,
    metadata: Seq<(Seq<char>, JsonV)>,
) -> Result<DeliveryV, Seq<char>> {
    let text = trimmed_text(env.text);
    let card = card_of(env.metadata);
    let dest = first_destination(env.to, meta_str(metadata, "default_to_person_email"@));
    if env.attachments.len() > 0 {
        Err("attachments not supported"@)
    } else if card is None && text is None {
        Err("text required"@)
    } else if dest is None {
        Err("destination required (envelope to=[])"@)
    } else if text::trimmed(dest->0.id).len() == 0 {
        Err("destination id required"@)
    } else {
        let summary = or_text(
            text,
            match card {
                Some(c) => card_text(c),
                None => None,
            },
        );
        match destination_key(kind_of(dest->0)) {
            None => Err("unsupported destination kind: "@ + kind_of(dest->0)),
            Some(key) => Ok(
                DeliveryV {
                    method: or_default(meta_str(metadata, "method"@), "POST"@),
                    url: or_default(meta_str(metadata, "api_base_url"@), default_api_base())
                        + "/messages"@,
                    content_type,
                    body: JsonV::Object(
                        webex_body(card, text, or_default(summary, seq![' '])).push(
                            (key, JsonV::Str(text::trimmed(dest->0.id))),
                        ),
                    ),
                },
            ),
        }
    }
}

/// What the payload `p` sends: its body is base64 of the JSON form of an envelope.
pub open spec fn payload_delivery(p: PayloadV) -> Result<DeliveryV, Seq<char>> {
    match codec::base64_bytes(p.body_b64) {
        Err(e) => Err("payload decode failed: "@ + e),
        Ok(bytes) => match json::parsed(bytes) {
            Err(e) => Err("invalid envelope: "@ + e),
            Ok(j) => match decode_envelope(j) {
                None => Err("invalid envelope: "@ + shape_fault()),
                Some(env) => envelope_delivery(env, p.content_type, p.metadata),
            },
        },
    }
}

/// What the parsed input of a submission sends.
pub open spec fn planned_delivery(parsed: Result<JsonV, Seq<char>>) -> Result<DeliveryV, Seq<char>> {
    match parsed {
        Err(e) => Err("invalid send_payload input: "@ + e),
        Ok(j) => match decode_send_in(j) {
            None => Err("invalid send_payload input: "@ + shape_fault()),
            Some(s) => if s.provider_type != provider_type() {
                Err("provider type mismatch"@)
            } else {
                payload_delivery(s.payload)
            },
        },
    }
}

/// The call that carries a delivery, authorised by `token`.
pub open spec fn delivery_request(d: DeliveryV, token: Seq<char>) -> HttpRequestV {
    HttpRequestV {
        method: d.method,
        url: d.url,
        headers: Seq::empty().push(("Content-Type"@, d.content_type)).push(
            ("Authorization"@, "Bearer "@ + token),
        ),
        body: Some(json::encoding(d.body)),
    }
}

/// A submission that failed.
pub open spec fn send_failure(message: Seq<char>, retryable: bool) -> SendResultV {
    SendResultV { ok: false, message: Some(message), retryable }
}

/// A submission that succeeded.
pub open spec fn send_success() -> SendResultV {
    SendResultV { ok: true, message: None, retryable: false }
}

/// How a submission ends on the response `resp`: a success for a status of
/// success; else a failure that names the status, to be tried again where the
/// status is 500 or more.
pub open spec fn delivery_result(resp: HttpResponseV) -> SendResultV {
    if is_success(resp.status) {
        send_success()
    } else {
        send_failure(webex_error_text(resp.status, body_or_empty(resp.body)), resp.status >= 500)
    }
}

/// How a submission ends on the outcome of its call: as its response says,
/// or as a failure to be tried again where the transport gave no response.
pub open spec fn delivery_outcome(
    outcome: Result<HttpResponseV, crate::http_mock::HttpFaultV>,
) -> SendResultV {
    match outcome {
        Ok(resp) => delivery_result(resp),
        Err(f) => send_failure("transport error: "@ + f.message, true),
    }
}

/// How the submission of the parsed input ends on the host `h`.
pub open spec fn send_payload_result(parsed: Result<JsonV, Seq<char>>, h: HostV) -> SendResultV {
    match planned_delivery(parsed) {
        Err(m) => send_failure(m, false),
        Ok(d) => match secret_text(h, token_key()) {
            Err(m) => send_failure(m, false),
            Ok(token) => delivery_result(next_response(h.transport.queue)),
        },
    }
}

/// The host after the submission: one call was made where there was
/// something to send and a token to send it with; else nothing changed.
pub open spec fn host_after_send_payload(parsed: Result<JsonV, Seq<char>>, h: HostV) -> HostV {
    match (planned_delivery(parsed), secret_text(h, token_key())) {
        (Ok(d), Ok(token)) => after_send(h, delivery_request(d, token)),
        _ => h,
    }
}

fn meta_str_of(metadata: &Vec<(String, Json)>, key: &str) -> (r: Option<String>)
    ensures
        json::opt_view(r) == meta_str(assoc::entries_view(metadata@), key@),
{
    match assoc::get(metadata, key) {
        Some(v) => match v.as_str() {
            Some(t) => Some(t.to_owned()),
            None => None,
        },
        None => None,
    }
}

fn key_for_kind(kind: &str) -> (r: Option<String>)
    ensures
        json::opt_view(r) == destination_key(kind@),
{
    if text::str_eq(kind, "room") {
        Some("roomId".to_owned())
    } else if text::str_eq(kind, "person") || text::str_eq(kind, "user") {
        Some("toPersonId".to_owned())
    } else if text::str_eq(kind, "email") || kind.unicode_len() == 0 {
        assert(kind@.len() == 0 ==> kind@ =~= Seq::<char>::empty());
        Some("toPersonEmail".to_owned())
    } else {
        None
    }
}

/// The view of an optional value.
pub open spec fn opt_json(j: Option<Json>) -> Option<JsonV> {
    match j {
        Some(v) => Some(v@),
        None => None,
    }
}

/// The request body for a card, or else a text, with its markdown.
pub fn build_webex_body(card_payload: Option<&Json>, text_value: Option<&String>, markdown: &str) -> (r:
    Vec<(String, Json)>)
    ensures
        assoc::entries_view(r@) == webex_body(
            crate::envelope::json_opt(card_payload),
            match text_value {
                Some(t) => Some(t@),
                None => None,
            },
            markdown@,
        ),
{
    let mut map = json::no_members();
    match card_payload {
        Some(card) => {
            let mut attachment = json::no_members();
            json::push_member(
                &mut attachment,
                "contentType",
                Json::string("application/vnd.microsoft.card.adaptive"),
            );
            json::push_member(&mut attachment, "content", card.deep_clone());
            let mut items: Vec<Json> = Vec::new();
            let item = json::object(attachment);
            items.push(item);
            assert(json::items_view(items@) =~= seq![item@]);
            json::push_member(&mut map, "attachments", json::array(items));
        },
        None => match text_value {
            Some(t) => {
                json::push_member(&mut map, "text", Json::Str(t.clone()));
            },
            None => {},
        },
    }
    json::push_member(&mut map, "markdown", Json::string(markdown));
    map
}

fn read_card(metadata: &Vec<(String, String)>) -> (r: Option<Json>)
    ensures
        opt_json(r) == card_of(assoc::entries_view(metadata@)),
{
    match assoc::get(metadata, "adaptive_card") {
        Some(v) => match Json::parse(text::bytes_of(v.as_str()).as_slice()) {
            Ok(c) => Some(c),
            Err(_) => None,
        },
        None => None,
    }
}

fn destination_or(to: &Vec<Destination>, fallback: Option<String>) -> (r: Option<Destination>)
    ensures
        match r {
            Some(d) => first_destination(
                crate::envelope::destinations_view(to@),
                json::opt_view(fallback),
            ) == Some(d@),
            None => first_destination(
                crate::envelope::destinations_view(to@),
                json::opt_view(fallback),
            ) is None,
        },
{
    if to.len() > 0 {
        Some(to[0].duplicate())
    } else {
        match fallback {
            Some(e) => Some(Destination { id: e, kind: Some("email".to_owned()) }),
            None => None,
        }
    }
}

fn kind_text(d: &Destination) -> (r: String)
    ensures
        r@ == kind_of(d@),
{
    match &d.kind {
        Some(k) => k.clone(),
        None => "email".to_owned(),
    }
}

/// What the payload of the envelope `env` sends, or why it sends nothing.
pub fn plan_envelope_delivery(
    env: &ChannelMessageEnvelope,
    content_type: &str,
    metadata: &Vec<(String, Json)>,
) -> (r: Result<Delivery, String>)
    ensures
        delivery_view(r) == envelope_delivery(env@, content_type@, assoc::entries_view(metadata@)),
{
    if env.attachments.len() > 0 {
        return Err("attachments not supported".to_owned());
    }
    let text = match &env.text {
        Some(t) => trim_nonblank(Some(t.as_str())),
        None => trim_nonblank(None),
    };
    let card = read_card(&env.metadata);
    if card.is_none() && text.is_none() {
        return Err("text required".to_owned());
    }
    let dest = match destination_or(&env.to, meta_str_of(metadata, "default_to_person_email")) {
        Some(d) => d,
        None => {
            return Err("destination required (envelope to=[])".to_owned());
        },
    };
    let dest_id = text::trim(dest.id.as_str());
    if dest_id.as_str().unicode_len() == 0 {
        return Err("destination id required".to_owned());
    }
    let card_summary = match &card {
        Some(c) => summarize_card_text(c),
        None => None,
    };
    let summary = match &text {
        Some(t) => Some(t.clone()),
        None => card_summary,
    };
    let markdown = match summary {
        Some(s) => s,
        None => {
            let sp = " ";
            proof {
                reveal_strlit(" ");
                assert(sp@ =~= seq![' ']);
            }
            sp.to_owned()
        },
    };
    let mut body = build_webex_body(card.as_ref(), text.as_ref(), markdown.as_str());
    let kind = kind_text(&dest);
    let key = match key_for_kind(kind.as_str()) {
        Some(k) => k,
        None => {
            return Err(text::concat("unsupported destination kind: ", kind.as_str()));
        },
    };
    json::push_member(&mut body, key.as_str(), Json::Str(dest_id));
    let api_base = match meta_str_of(metadata, "api_base_url") {
        Some(u) => u,
        None => "https://webexapis.com/v1".to_owned(),
    };
    let method = match meta_str_of(metadata, "method") {
        Some(m) => m,
        None => "POST".to_owned(),
    };
    Ok(
        Delivery {
            method,
            url: text::concat(api_base.as_str(), "/messages"),
            content_type: content_type.to_owned(),
            body: json::object(body),
        },
    )
}

/// The message in place of an input that parses but is not of the expected form.
fn shape_message(prefix: &str) -> (r: String)
    ensures
        r@ == prefix@ + shape_fault(),
{
    text::concat(prefix, "input does not have the expected members")
}

/// What the payload `payload` sends, or why it sends nothing.
pub fn plan_payload_delivery(payload: &crate::dto::ProviderPayloadV1) -> (r: Result<Delivery, String>)
    ensures
        delivery_view(r) == payload_delivery(payload@),
{
    let bytes = match codec::base64_decode(payload.body_b64.as_str()) {
        Ok(b) => b,
        Err(e) => {
            return Err(text::concat("payload decode failed: ", e.as_str()));
        },
    };
    let parsed = match Json::parse(bytes.as_slice()) {
        Ok(j) => j,
        Err(e) => {
            return Err(text::concat("invalid envelope: ", e.as_str()));
        },
    };
    match ChannelMessageEnvelope::from_json(&parsed) {
        Some(env) => plan_envelope_delivery(
            &env,
            payload.content_type.as_str(),
            &payload.metadata,
        ),
        None => Err(shape_message("invalid envelope: ")),
    }
}

/// What the parsed input of a submission sends, or why it sends nothing.
pub fn plan_delivery(parsed: &Result<Json, String>) -> (r: Result<Delivery, String>)
    ensures
        delivery_view(r) == planned_delivery(json_result(*parsed)),
{
    let j = match parsed {
        Ok(j) => j,
        Err(e) => {
            return Err(text::concat("invalid send_payload input: ", e.as_str()));
        },
    };
    let send_in = match SendPayloadInV1::from_json(j) {
        Some(s) => s,
        None => {
            return Err(shape_message("invalid send_payload input: "));
        },
    };
    if !text::str_eq(send_in.provider_type.as_str(), "messaging.webex.bot") {
        return Err("provider type mismatch".to_owned());
    }
    plan_payload_delivery(&send_in.payload)
}

/// A submission that failed with `message`.
pub fn send_payload_error(message: &str, retryable: bool) -> (r: SendPayloadResultV1)
    ensures
        r@ == send_failure(message@, retryable),
{
    SendPayloadResultV1 { ok: false, message: Some(message.to_owned()), retryable }
}

/// A submission that succeeded.
pub fn send_payload_success() -> (r: SendPayloadResultV1)
    ensures
        r@ == send_success(),
{
    SendPayloadResultV1 { ok: true, message: None, retryable: false }
}

/// How a submission ends on the response `resp`.
pub fn read_delivery_response(resp: &HttpResponse) -> (r: SendPayloadResultV1)
    ensures
        r@ == delivery_result(resp@),
{
    if resp.status < 200 || resp.status >= 300 {
        let body = body_bytes(resp);
        let detail = format_webex_error(resp.status, body.as_slice());
        return send_payload_error(detail.as_str(), resp.status >= 500);
    }
    send_payload_success()
}

/// How a submission ends on the outcome of its call, whether the transport answered or not.
pub fn read_delivery_outcome(outcome: Result<HttpResponse, crate::http_mock::HttpClientError>) -> (r:
    SendPayloadResultV1)
    ensures
        r@ == delivery_outcome(crate::webex::ingest::outcome_view(outcome)),
{
    match outcome {
        Ok(resp) => read_delivery_response(&resp),
        Err(err) => send_payload_error(
            text::concat("transport error: ", err.message.as_str()).as_str(),
            true,
        ),
    }
}

fn request_for(d: Delivery, token: &str) -> (r: HttpRequest)
    ensures
        r@ == delivery_request(d@, token@),
{
    let mut headers: Vec<(String, String)> = Vec::new();
    headers.push(("Content-Type".to_owned(), d.content_type));
    headers.push(("Authorization".to_owned(), text::concat("Bearer ", token)));
    let body = d.body.to_bytes();
    let r = HttpRequest { method: d.method, url: d.url, headers, body: Some(body) };
    assert(r@.headers =~= delivery_request(d@, token@).headers);
    r
}

/// Submits the payload that the parsed input describes: decides what to
/// send, reads the token, makes the call and reads the response.
pub fn send_payload_parsed(parsed: &Result<Json, String>, host: &mut TestHostState) -> (r:
    SendPayloadResultV1)
    ensures
        r@ == send_payload_result(json_result(*parsed), old(host)@),
        final(host)@ == host_after_send_payload(json_result(*parsed), old(host)@),
{
    let delivery = match plan_delivery(parsed) {
        Ok(d) => d,
        Err(m) => {
            return send_payload_error(m.as_str(), false);
        },
    };
    let token = match get_secret_string("WEBEX_BOT_TOKEN", host) {
        Ok(t) => t,
        Err(m) => {
            return send_payload_error(m.as_str(), false);
        },
    };
    let request = request_for(delivery, token.as_str());
    read_delivery_outcome(host.send(request))
}

/// The operation `send_payload`: the bytes of the result of submitting the
/// payload that `input_json` describes.
pub fn send_payload(input_json: &[u8], host: &mut TestHostState) -> (r: Vec<u8>)
    ensures
        r@ == json::encoding(
            crate::dto::send_result_json(
                send_payload_result(json::parsed(input_json@), old(host)@),
            ),
        ),
        final(host)@ == host_after_send_payload(json::parsed(input_json@), old(host)@),
{
    let parsed = Json::parse(input_json);
    let result = send_payload_parsed(&parsed, host);
    result.to_json().to_bytes()
}

/// The text that stands for a card in the markdown of a message.
pub fn summarize_card_text(card: &Json) -> (r: Option<String>)
    ensures
        json::opt_view(r) == card_text(card@),
{
    extract_card_text(card)
}

} // verus!
