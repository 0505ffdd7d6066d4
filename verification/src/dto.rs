//! The values that the host and a provider module exchange with each
//! operation, and their JSON forms.

use vstd::prelude::*;
use crate::assoc;
use crate::envelope::{decode_envelope, envelope_json, ChannelMessageEnvelope, EnvelopeV};
use crate::json;
use crate::json::{Json, JsonV};
use crate::text;

verus! {

/// An inbound HTTP request, as it is handed to a module.
#[derive(Debug)]
pub struct HttpInV1 {
    pub method: String,
    pub path: String,
    pub query: Option<String>,
    pub headers: Vec<(String, String)>,
    pub body_b64: String,
}

/// What a module answers to an inbound request: the HTTP answer and the
/// envelopes it made of the request.
#[derive(Debug)]
pub struct HttpOutV1 {
    pub status: u16,
    pub headers: Vec<(String, String)>,
    pub body_b64: String,
    pub events: Vec<ChannelMessageEnvelope>,
}

/// The input of render planning.
#[derive(Debug)]
pub struct RenderPlanInV1 {
    pub message: ChannelMessageEnvelope,
    pub metadata: Vec<(String, Json)>,
}

/// The input of encoding.
#[derive(Debug)]
pub struct EncodeInV1 {
    pub message: ChannelMessageEnvelope,
    pub plan: RenderPlanInV1,
}

/// A payload that is ready for one provider.
#[derive(Debug)]
pub struct ProviderPayloadV1 {
    pub content_type: String,
    pub body_b64: String,
    pub metadata: Vec<(String, Json)>,
}

/// The input of payload submission.
#[derive(Debug)]
pub struct SendPayloadInV1 {
    pub provider_type: String,
    pub tenant_id: Option<String>,
    pub payload: ProviderPayloadV1,
}

/// How a payload submission ended.
#[derive(Debug, Clone, PartialEq, Eq)]
pub struct SendPayloadResultV1 {
    pub ok: bool,
    pub message: Option<String>,
    pub retryable: bool,
}

pub ghost struct HttpInV {
    pub method: Seq<char>,
    pub path: Seq<char>,
    pub query: Option<Seq<char>>,
    pub headers: Seq<(Seq<char>, Seq<char>)>,
    pub body_b64: Seq<char>,
}

pub ghost struct HttpOutV {
    pub status: u16,
    pub headers: Seq<(Seq<char>, Seq<char>)>,
    pub body_b64: Seq<char>,
    pub events: Seq<EnvelopeV>,
}

pub ghost struct RenderPlanInV {
    pub message: EnvelopeV,
    pub metadata: Seq<(Seq<char>, JsonV)>,
}

pub ghost struct EncodeInV {
    pub message: EnvelopeV,
    pub plan: RenderPlanInV,
}

pub ghost struct PayloadV {
    pub content_type: Seq<char>,
    pub body_b64: Seq<char>,
    pub metadata: Seq<(Seq<char>, JsonV)>,
}

pub ghost struct SendInV {
    pub provider_type: Seq<char>,
    pub tenant_id: Option<Seq<char>>,
    pub payload: PayloadV,
}

pub ghost struct SendResultV {
    pub ok: bool,
    pub message: Option<Seq<char>>,
    pub retryable: bool,
}

/// The views of a list of envelopes.
pub open spec fn envelopes_view(s: Seq<ChannelMessageEnvelope>) -> Seq<EnvelopeV> {
    Seq::new(s.len(), |i: int| s[i]@)
}

impl View for HttpInV1 {
    type V = HttpInV;

    open spec fn view(&self) -> HttpInV {
        HttpInV {
            method: self.method@,
            path: self.path@,
            query: json::opt_view(self.query),
            headers: assoc::entries_view(self.headers@),
            body_b64: self.body_b64@,
        }
    }
}

impl View for HttpOutV1 {
    type V = HttpOutV;

    open spec fn view(&self) -> HttpOutV {
        HttpOutV {
            status: self.status,
            headers: assoc::entries_view(self.headers@),
            body_b64: self.body_b64@,
            events: envelopes_view(self.events@),
        }
    }
}

impl View for RenderPlanInV1 {
    type V = RenderPlanInV;

    open spec fn view(&self) -> RenderPlanInV {
        RenderPlanInV { message: self.message@, metadata: assoc::entries_view(self.metadata@) }
    }
}

impl View for EncodeInV1 {
    type V = EncodeInV;

    open spec fn view(&self) -> EncodeInV {
        EncodeInV { message: self.message@, plan: self.plan@ }
    }
}

impl View for ProviderPayloadV1 {
    type V = PayloadV;

    open spec fn view(&self) -> PayloadV {
        PayloadV {
            content_type: self.content_type@,
            body_b64: self.body_b64@,
            metadata: assoc::entries_view(self.metadata@),
        }
    }
}

impl View for SendPayloadInV1 {
    type V = SendInV;

    open spec fn view(&self) -> SendInV {
        SendInV {
            provider_type: self.provider_type@,
            tenant_id: json::opt_view(self.tenant_id),
            payload: self.payload@,
        }
    }
}

impl View for SendPayloadResultV1 {
    type V = SendResultV;

    open spec fn view(&self) -> SendResultV {
        SendResultV { ok: self.ok, message: json::opt_view(self.message), retryable: self.retryable }
    }
}

/// The JSON form of one header.
pub open spec fn header_json(h: (Seq<char>, Seq<char>)) -> JsonV {
    JsonV::Object(
        Seq::empty().push(("name"@, JsonV::Str(h.0))).push(("value"@, JsonV::Str(h.1))),
    )
}

/// The JSON form of a list of headers.
pub open spec fn headers_json(h: Seq<(Seq<char>, Seq<char>)>) -> JsonV {
    JsonV::Array(Seq::new(h.len(), |i: int| header_json(h[i])))
}

/// The header that `j` describes: an object with the strings `name` and `value`.
pub open spec fn decode_header(j: JsonV) -> Option<(Seq<char>, Seq<char>)> {
    match (j.str_at("name"@), j.str_at("value"@)) {
        (Some(n), Some(v)) => Some((n, v)),
        _ => None,
    }
}

/// The headers that the member `j` lists: none where it is missing.
pub open spec fn decode_headers(j: Option<JsonV>) -> Option<Seq<(Seq<char>, Seq<char>)>> {
    match j {
        None => Some(Seq::empty()),
        Some(JsonV::Array(items)) => if forall|i: int|
            0 <= i < items.len() ==> decode_header(#[trigger] items[i]) is Some {
            Some(Seq::new(items.len(), |i: int| decode_header(items[i])->0))
        } else {
            None
        },
        Some(_) => None,
    }
}

/// The envelopes that the member `j` lists: none where it is missing.
pub open spec fn decode_envelopes(j: Option<JsonV>) -> Option<Seq<EnvelopeV>> {
    match j {
        None => Some(Seq::empty()),
        Some(JsonV::Array(items)) => if forall|i: int|
            0 <= i < items.len() ==> decode_envelope(#[trigger] items[i]) is Some {
            Some(Seq::new(items.len(), |i: int| decode_envelope(items[i])->0))
        } else {
            None
        },
        Some(_) => None,
    }
}

/// The JSON form of an inbound request. Route hint, binding and
/// configuration are not set by this host and stand as null.
pub open spec fn http_in_json(h: HttpInV) -> JsonV {
    JsonV::Object(
        Seq::empty().push(("method"@, JsonV::Str(h.method))).push(("path"@, JsonV::Str(h.path))).push(
            ("query"@, json::str_or_null(h.query)),
        ).push(("headers"@, headers_json(h.headers))).push(
            ("body_b64"@, JsonV::Str(h.body_b64)),
        ).push(("route_hint"@, JsonV::Null)).push(("binding_id"@, JsonV::Null)).push(
            ("config"@, JsonV::Null),
        ),
    )
}

/// The inbound request that `j` describes.
pub open spec fn decode_http_in(j: JsonV) -> Option<HttpInV> {
    match (
        j.str_at("method"@),
        j.str_at("path"@),
        json::opt_str_at(j, "query"@),
        decode_headers(j.get("headers"@)),
        json::str_or_empty_at(j, "body_b64"@),
    ) {
        (Some(method), Some(path), Some(query), Some(headers), Some(body_b64)) => Some(
            HttpInV { method, path, query, headers, body_b64 },
        ),
        _ => None,
    }
}

/// The JSON form of the answer to an inbound request.
pub open spec fn http_out_json(o: HttpOutV) -> JsonV {
    JsonV::Object(
        Seq::empty().push(("status"@, JsonV::Number(text::decimal(o.status as nat)))).push(
            ("headers"@, headers_json(o.headers)),
        ).push(("body_b64"@, JsonV::Str(o.body_b64))).push(
            ("events"@, JsonV::Array(Seq::new(o.events.len(), |i: int| envelope_json(o.events[i])))),
        ),
    )
}

/// The status that the member `j` holds: a whole number that fits in 16 bits.
pub open spec fn decode_status(j: Option<JsonV>) -> Option<u16> {
    match j {
        Some(v) => match v.as_u64() {
            Some(n) => if n <= u16::MAX {
                Some(n as u16)
            } else {
                None
            },
            None => None,
        },
        None => None,
    }
}

/// The answer that `j` describes.
pub open spec fn decode_http_out(j: JsonV) -> Option<HttpOutV> {
    match (
        decode_status(j.get("status"@)),
        decode_headers(j.get("headers"@)),
        json::str_or_empty_at(j, "body_b64"@),
        decode_envelopes(j.get("events"@)),
    ) {
        (Some(status), Some(headers), Some(body_b64), Some(events)) => Some(
            HttpOutV { status, headers, body_b64, events },
        ),
        _ => None,
    }
}

/// The JSON form of a payload.
pub open spec fn payload_json(p: PayloadV) -> JsonV {
    JsonV::Object(
        Seq::empty().push(("content_type"@, JsonV::Str(p.content_type))).push(
            ("body_b64"@, JsonV::Str(p.body_b64)),
        ).push(("metadata"@, JsonV::Object(p.metadata))),
    )
}

/// The payload that `j` describes.
pub open spec fn decode_payload(j: JsonV) -> Option<PayloadV> {
    match (
        j.str_at("content_type"@),
        json::str_or_empty_at(j, "body_b64"@),
        json::entries_or_none_at(j, "metadata"@),
    ) {
        (Some(content_type), Some(body_b64), Some(metadata)) => Some(
            PayloadV { content_type, body_b64, metadata },
        ),
        _ => None,
    }
}

/// The JSON form of a submission. No user is named by this host.
pub open spec fn send_in_json(s: SendInV) -> JsonV {
    JsonV::Object(
        Seq::empty().push(("provider_type"@, JsonV::Str(s.provider_type))).push(
            ("tenant_id"@, json::str_or_null(s.tenant_id)),
        ).push(("auth_user"@, JsonV::Null)).push(("payload"@, payload_json(s.payload))),
    )
}

/// The submission that `j` describes.
pub open spec fn decode_send_in(j: JsonV) -> Option<SendInV> {
    match (j.str_at("provider_type"@), json::opt_str_at(j, "tenant_id"@), j.get("payload"@)) {
        (Some(provider_type), Some(tenant_id), Some(p)) => match decode_payload(p) {
            Some(payload) => Some(SendInV { provider_type, tenant_id, payload }),
            None => None,
        },
        _ => None,
    }
}

/// The JSON form of the end of a submission.
pub open spec fn send_result_json(r: SendResultV) -> JsonV {
    JsonV::Object(
        Seq::empty().push(("ok"@, JsonV::Bool(r.ok))).push(
            ("message"@, json::str_or_null(r.message)),
        ).push(("retryable"@, JsonV::Bool(r.retryable))),
    )
}

/// The truth value under `key`.
pub open spec fn bool_at(j: JsonV, key: Seq<char>) -> Option<bool> {
    match j.get(key) {
        Some(v) => v.as_bool(),
        None => None,
    }
}

/// The end of a submission that `j` describes.
pub open spec fn decode_send_result(j: JsonV) -> Option<SendResultV> {
    match (bool_at(j, "ok"@), json::opt_str_at(j, "message"@), json::bool_or_false_at(j, "retryable"@)) {
        (Some(ok), Some(message), Some(retryable)) => Some(SendResultV { ok, message, retryable }),
        _ => None,
    }
}

/// The JSON form of a render planning input.
pub open spec fn render_plan_in_json(r: RenderPlanInV) -> JsonV {
    JsonV::Object(
        Seq::empty().push(("message"@, envelope_json(r.message))).push(
            ("metadata"@, JsonV::Object(r.metadata)),
        ),
    )
}

/// The render planning input that `j` describes.
pub open spec fn decode_render_plan_in(j: JsonV) -> Option<RenderPlanInV> {
    match (j.get("message"@), json::entries_or_none_at(j, "metadata"@)) {
        (Some(m), Some(metadata)) => match decode_envelope(m) {
            Some(message) => Some(RenderPlanInV { message, metadata }),
            None => None,
        },
        _ => None,
    }
}

/// The JSON form of an encoding input.
pub open spec fn encode_in_json(e: EncodeInV) -> JsonV {
    JsonV::Object(
        Seq::empty().push(("message"@, envelope_json(e.message))).push(
            ("plan"@, render_plan_in_json(e.plan)),
        ),
    )
}

/// The encoding input that `j` describes.
pub open spec fn decode_encode_in(j: JsonV) -> Option<EncodeInV> {
    match (j.get("message"@), j.get("plan"@)) {
        (Some(m), Some(p)) => match (decode_envelope(m), decode_render_plan_in(p)) {
            (Some(message), Some(plan)) => Some(EncodeInV { message, plan }),
            _ => None,
        },
        _ => None,
    }
}

fn headers_to_json(h: &Vec<(String, String)>) -> (r: Json)
    ensures
        r@ == headers_json(assoc::entries_view(h@)),
{
    let mut items: Vec<Json> = Vec::new();
    let mut i: usize = 0;
    while i < h.len()
        invariant
            i <= h.len(),
            items@.len() == i,
            forall|k: int| 0 <= k < i ==> items@[k]@ == header_json(assoc::entries_view(h@)[k]),
        decreases h.len() - i,
    {
        let mut o = json::no_members();
        json::push_member(&mut o, "name", Json::Str(h[i].0.clone()));
        json::push_member(&mut o, "value", Json::Str(h[i].1.clone()));
        items.push(json::object(o));
        i += 1;
    }
    let ghost want = headers_json(assoc::entries_view(h@));
    assert(json::items_view(items@) =~= want->Array_0);
    json::array(items)
}

fn headers_from_json(j: Option<&Json>) -> (r: Option<Vec<(String, String)>>)
    ensures
        match r {
            Some(v) => decode_headers(crate::envelope::json_opt(j)) == Some(
                assoc::entries_view(v@),
            ),
            None => decode_headers(crate::envelope::json_opt(j)) is None,
        },
{
    let value = match j {
        None => {
            let v: Vec<(String, String)> = Vec::new();
            assert(assoc::entries_view(v@) =~= Seq::empty());
            return Some(v);
        },
        Some(value) => value,
    };
    match value.as_array() {
        None => None,
        Some(items) => {
            let mut out: Vec<(String, String)> = Vec::new();
            let mut i: usize = 0;
            while i < items.len()
                invariant
                    i <= items.len(),
                    out@.len() == i,
                    value@ == JsonV::Array(json::items_view(items@)),
                    crate::envelope::json_opt(j) == Some(value@),
                    forall|k: int|
                        0 <= k < i ==> decode_header(#[trigger] json::items_view(items@)[k])
                            == Some((out@[k].0@, out@[k].1@)),
                decreases items.len() - i,
            {
                match (items[i].str_at("name"), items[i].str_at("value")) {
                    (Some(n), Some(v)) => {
                        out.push((n, v));
                    },
                    _ => {
                        assert(decode_header(json::items_view(items@)[i as int]) is None);
                        return None;
                    },
                }
                i += 1;
            }
            assert(decode_headers(Some(value@)) is Some);
            assert(assoc::entries_view(out@) =~= decode_headers(Some(value@))->0);
            Some(out)
        },
    }
}

fn envelopes_to_json(v: &Vec<ChannelMessageEnvelope>) -> (r: Json)
    ensures
        r@ == JsonV::Array(
            Seq::new(v@.len(), |i: int| envelope_json(envelopes_view(v@)[i])),
        ),
{
    let mut items: Vec<Json> = Vec::new();
    let mut i: usize = 0;
    while i < v.len()
        invariant
            i <= v.len(),
            items@.len() == i,
            forall|k: int| 0 <= k < i ==> items@[k]@ == envelope_json(v@[k]@),
        decreases v.len() - i,
    {
        items.push(v[i].to_json());
        i += 1;
    }
    assert(json::items_view(items@) =~= Seq::new(
        v@.len(),
        |i: int| envelope_json(envelopes_view(v@)[i]),
    ));
    json::array(items)
}

fn envelopes_from_json(j: Option<&Json>) -> (r: Option<Vec<ChannelMessageEnvelope>>)
    ensures
        match r {
            Some(v) => decode_envelopes(crate::envelope::json_opt(j)) == Some(envelopes_view(v@)),
            None => decode_envelopes(crate::envelope::json_opt(j)) is None,
        },
{
    let value = match j {
        None => {
            let v: Vec<ChannelMessageEnvelope> = Vec::new();
            assert(envelopes_view(v@) =~= Seq::empty());
            return Some(v);
        },
        Some(value) => value,
    };
    match value.as_array() {
        None => None,
        Some(items) => {
            let mut out: Vec<ChannelMessageEnvelope> = Vec::new();
            let mut i: usize = 0;
            while i < items.len()
                invariant
                    i <= items.len(),
                    out@.len() == i,
                    value@ == JsonV::Array(json::items_view(items@)),
                    crate::envelope::json_opt(j) == Some(value@),
                    forall|k: int|
                        0 <= k < i ==> decode_envelope(#[trigger] json::items_view(items@)[k])
                            == Some(out@[k]@),
                decreases items.len() - i,
            {
                match ChannelMessageEnvelope::from_json(&items[i]) {
                    Some(e) => {
                        out.push(e);
                    },
                    None => {
                        assert(decode_envelope(json::items_view(items@)[i as int]) is None);
                        return None;
                    },
                }
                i += 1;
            }
            assert(decode_envelopes(Some(value@)) is Some);
            assert(envelopes_view(out@) =~= decode_envelopes(Some(value@))->0);
            Some(out)
        },
    }
}

impl HttpInV1 {
    /// The JSON form of this request.
    pub fn to_json(&self) -> (r: Json)
        ensures
            r@ == http_in_json(self@),
    {
        let mut o = json::no_members();
        json::push_member(&mut o, "method", Json::Str(self.method.clone()));
        json::push_member(&mut o, "path", Json::Str(self.path.clone()));
        json::push_member(&mut o, "query", json::opt_str_json(&self.query));
        json::push_member(&mut o, "headers", headers_to_json(&self.headers));
        json::push_member(&mut o, "body_b64", Json::Str(self.body_b64.clone()));
        json::push_member(&mut o, "route_hint", Json::Null);
        json::push_member(&mut o, "binding_id", Json::Null);
        json::push_member(&mut o, "config", Json::Null);
        json::object(o)
    }

    /// The request that `j` describes, where it describes one.
    pub fn from_json(j: &Json) -> (r: Option<HttpInV1>)
        ensures
            match r {
                Some(h) => decode_http_in(j@) == Some(h@),
                None => decode_http_in(j@) is None,
            },
    {
        let method = match j.str_at("method") {
            Some(t) => t,
            None => {
                return None;
            },
        };
        let path = match j.str_at("path") {
            Some(t) => t,
            None => {
                return None;
            },
        };
        let query = match json::read_opt_str(j, "query") {
            Some(t) => t,
            None => {
                return None;
            },
        };
        let headers = match headers_from_json(j.get("headers")) {
            Some(t) => t,
            None => {
                return None;
            },
        };
        let body_b64 = match json::read_str_or_empty(j, "body_b64") {
            Some(t) => t,
            None => {
                return None;
            },
        };
        Some(HttpInV1 { method, path, query, headers, body_b64 })
    }
}

impl HttpOutV1 {
    /// The JSON form of this answer.
    pub fn to_json(&self) -> (r: Json)
        ensures
            r@ == http_out_json(self@),
    {
        let mut o = json::no_members();
        json::push_member(&mut o, "status", Json::from_u64(self.status as u64));
        json::push_member(&mut o, "headers", headers_to_json(&self.headers));
        json::push_member(&mut o, "body_b64", Json::Str(self.body_b64.clone()));
        json::push_member(&mut o, "events", envelopes_to_json(&self.events));
        json::object(o)
    }

    /// The answer that `j` describes, where it describes one.
    pub fn from_json(j: &Json) -> (r: Option<HttpOutV1>)
        ensures
            match r {
                Some(h) => decode_http_out(j@) == Some(h@),
                None => decode_http_out(j@) is None,
            },
    {
        let status: u16 = match j.get("status") {
            Some(v) => match v.as_u64() {
                Some(n) => if n <= 0xffff {
                    n as u16
                } else {
                    return None;
                },
                None => {
                    return None;
                },
            },
            None => {
                return None;
            },
        };
        let headers = match headers_from_json(j.get("headers")) {
            Some(t) => t,
            None => {
                return None;
            },
        };
        let body_b64 = match json::read_str_or_empty(j, "body_b64") {
            Some(t) => t,
            None => {
                return None;
            },
        };
        let events = match envelopes_from_json(j.get("events")) {
            Some(t) => t,
            None => {
                return None;
            },
        };
        Some(HttpOutV1 { status, headers, body_b64, events })
    }
}

impl ProviderPayloadV1 {
    /// The JSON form of this payload.
    pub fn to_json(&self) -> (r: Json)
        ensures
            r@ == payload_json(self@),
    {
        let mut o = json::no_members();
        json::push_member(&mut o, "content_type", Json::Str(self.content_type.clone()));
        json::push_member(&mut o, "body_b64", Json::Str(self.body_b64.clone()));
        json::push_member(&mut o, "metadata", json::object(json::clone_entries(&self.metadata)));
        json::object(o)
    }

    /// The payload that `j` describes, where it describes one.
    pub fn from_json(j: &Json) -> (r: Option<ProviderPayloadV1>)
        ensures
            match r {
                Some(p) => decode_payload(j@) == Some(p@),
                None => decode_payload(j@) is None,
            },
    {
        let content_type = match j.str_at("content_type") {
            Some(t) => t,
            None => {
                return None;
            },
        };
        let body_b64 = match json::read_str_or_empty(j, "body_b64") {
            Some(t) => t,
            None => {
                return None;
            },
        };
        let metadata = match json::read_entries_or_none(j, "metadata") {
            Some(t) => t,
            None => {
                return None;
            },
        };
        Some(ProviderPayloadV1 { content_type, body_b64, metadata })
    }
}

impl SendPayloadInV1 {
    /// The JSON form of this submission.
    pub fn to_json(&self) -> (r: Json)
        ensures
            r@ == send_in_json(self@),
    {
        let mut o = json::no_members();
        json::push_member(&mut o, "provider_type", Json::Str(self.provider_type.clone()));
        json::push_member(&mut o, "tenant_id", json::opt_str_json(&self.tenant_id));
        json::push_member(&mut o, "auth_user", Json::Null);
        json::push_member(&mut o, "payload", self.payload.to_json());
        json::object(o)
    }

    /// The submission that `j` describes, where it describes one.
    pub fn from_json(j: &Json) -> (r: Option<SendPayloadInV1>)
        ensures
            match r {
                Some(p) => decode_send_in(j@) == Some(p@),
                None => decode_send_in(j@) is None,
            },
    {
        let provider_type = match j.str_at("provider_type") {
            Some(t) => t,
            None => {
                return None;
            },
        };
        let tenant_id = match json::read_opt_str(j, "tenant_id") {
            Some(t) => t,
            None => {
                return None;
            },
        };
        let payload = match j.get("payload") {
            Some(p) => match ProviderPayloadV1::from_json(p) {
                Some(t) => t,
                None => {
                    return None;
                },
            },
            None => {
                return None;
            },
        };
        Some(SendPayloadInV1 { provider_type, tenant_id, payload })
    }
}

impl SendPayloadResultV1 {
    /// The JSON form of this result.
    pub fn to_json(&self) -> (r: Json)
        ensures
            r@ == send_result_json(self@),
    {
        let mut o = json::no_members();
        json::push_member(&mut o, "ok", Json::Bool(self.ok));
        json::push_member(&mut o, "message", json::opt_str_json(&self.message));
        json::push_member(&mut o, "retryable", Json::Bool(self.retryable));
        json::object(o)
    }

    /// The result that `j` describes, where it describes one.
    pub fn from_json(j: &Json) -> (r: Option<SendPayloadResultV1>)
        ensures
            match r {
                Some(p) => decode_send_result(j@) == Some(p@),
                None => decode_send_result(j@) is None,
            },
    {
        let ok = match j.get("ok") {
            Some(v) => match v.as_bool() {
                Some(b) => b,
                None => {
                    return None;
                },
            },
            None => {
                return None;
            },
        };
        let message = match json::read_opt_str(j, "message") {
            Some(t) => t,
            None => {
                return None;
            },
        };
        let retryable = match json::read_bool_or_false(j, "retryable") {
            Some(t) => t,
            None => {
                return None;
            },
        };
        Some(SendPayloadResultV1 { ok, message, retryable })
    }
}

impl RenderPlanInV1 {
    /// The JSON form of this input.
    pub fn to_json(&self) -> (r: Json)
        ensures
            r@ == render_plan_in_json(self@),
    {
        let mut o = json::no_members();
        json::push_member(&mut o, "message", self.message.to_json());
        json::push_member(&mut o, "metadata", json::object(json::clone_entries(&self.metadata)));
        json::object(o)
    }

    /// The input that `j` describes, where it describes one.
    pub fn from_json(j: &Json) -> (r: Option<RenderPlanInV1>)
        ensures
            match r {
                Some(p) => decode_render_plan_in(j@) == Some(p@),
                None => decode_render_plan_in(j@) is None,
            },
    {
        let message = match j.get("message") {
            Some(m) => match ChannelMessageEnvelope::from_json(m) {
                Some(t) => t,
                None => {
                    return None;
                },
            },
            None => {
                return None;
            },
        };
        let metadata = match json::read_entries_or_none(j, "metadata") {
            Some(t) => t,
            None => {
                return None;
            },
        };
        Some(RenderPlanInV1 { message, metadata })
    }
}

impl EncodeInV1 {
    /// The JSON form of this input.
    pub fn to_json(&self) -> (r: Json)
        ensures
            r@ == encode_in_json(self@),
    {
        let mut o = json::no_members();
        json::push_member(&mut o, "message", self.message.to_json());
        json::push_member(&mut o, "plan", self.plan.to_json());
        json::object(o)
    }

    /// The input that `j` describes, where it describes one.
    pub fn from_json(j: &Json) -> (r: Option<EncodeInV1>)
        ensures
            match r {
                Some(p) => decode_encode_in(j@) == Some(p@),
                None => decode_encode_in(j@) is None,
            },
    {
        let message = match j.get("message") {
            Some(m) => match ChannelMessageEnvelope::from_json(m) {
                Some(t) => t,
                None => {
                    return None;
                },
            },
            None => {
                return None;
            },
        };
        let plan = match j.get("plan") {
            Some(p) => match RenderPlanInV1::from_json(p) {
                Some(t) => t,
                None => {
                    return None;
                },
            },
            None => {
                return None;
            },
        };
        Some(EncodeInV1 { message, plan })
    }
}

/// The JSON form of a list of headers reads back as the list.
pub proof fn lemma_headers_round_trip(h: Seq<(Seq<char>, Seq<char>)>)
    ensures
        decode_headers(Some(headers_json(h))) == Some(h),
{
    reveal_strlit("name");
    reveal_strlit("value");
    assert("name"@.len() == 4 && "value"@.len() == 5);
    let items = headers_json(h)->Array_0;
    assert forall|i: int| 0 <= i < items.len() implies decode_header(#[trigger] items[i]) == Some(
        h[i],
    ) by {
        let none = Seq::<(Seq<char>, JsonV)>::empty();
        let o0 = none.push(("name"@, JsonV::Str(h[i].0)));
        assoc::lemma_lookup_push(none, "name"@, JsonV::Str(h[i].0));
        assoc::lemma_lookup_push(o0, "value"@, JsonV::Str(h[i].1));
        assert(items[i].get("name"@) == Some(JsonV::Str(h[i].0)));
        assert(items[i].get("value"@) == Some(JsonV::Str(h[i].1)));
    }
    assert(Seq::new(items.len(), |i: int| decode_header(items[i])->0) =~= h);
}

/// The JSON form of an inbound request reads back as the request.
pub proof fn lemma_http_in_round_trip(h: HttpInV)
    ensures
        decode_http_in(http_in_json(h)) == Some(h),
{
    reveal_strlit("method");
    reveal_strlit("path");
    reveal_strlit("query");
    reveal_strlit("headers");
    reveal_strlit("body_b64");
    reveal_strlit("route_hint");
    reveal_strlit("binding_id");
    reveal_strlit("config");
    assert("method"@.len() == 6 && "path"@.len() == 4 && "query"@.len() == 5);
    assert("headers"@.len() == 7 && "body_b64"@.len() == 8 && "route_hint"@.len() == 10);
    assert("binding_id"@.len() == 10 && "config"@.len() == 6);
    assert("method"@[0] == 'm' && "config"@[0] == 'c');
    assert("route_hint"@[0] == 'r' && "binding_id"@[0] == 'b');
    lemma_headers_round_trip(h.headers);
    let none = Seq::<(Seq<char>, JsonV)>::empty();
    let o0 = none.push(("method"@, JsonV::Str(h.method)));
    let o1 = o0.push(("path"@, JsonV::Str(h.path)));
    let o2 = o1.push(("query"@, json::str_or_null(h.query)));
    let o3 = o2.push(("headers"@, headers_json(h.headers)));
    let o4 = o3.push(("body_b64"@, JsonV::Str(h.body_b64)));
    let o5 = o4.push(("route_hint"@, JsonV::Null));
    let o6 = o5.push(("binding_id"@, JsonV::Null));
    assoc::lemma_lookup_push(none, "method"@, JsonV::Str(h.method));
    assoc::lemma_lookup_push(o0, "path"@, JsonV::Str(h.path));
    assoc::lemma_lookup_push(o1, "query"@, json::str_or_null(h.query));
    assoc::lemma_lookup_push(o2, "headers"@, headers_json(h.headers));
    assoc::lemma_lookup_push(o3, "body_b64"@, JsonV::Str(h.body_b64));
    assoc::lemma_lookup_push(o4, "route_hint"@, JsonV::Null);
    assoc::lemma_lookup_push(o5, "binding_id"@, JsonV::Null);
    assoc::lemma_lookup_push(o6, "config"@, JsonV::Null);
    let j = http_in_json(h);
    assert(j.get("method"@) == Some(JsonV::Str(h.method)));
    assert(j.get("path"@) == Some(JsonV::Str(h.path)));
    assert(j.get("query"@) == Some(json::str_or_null(h.query)));
    assert(j.get("headers"@) == Some(headers_json(h.headers)));
    assert(j.get("body_b64"@) == Some(JsonV::Str(h.body_b64)));
}

/// The JSON form of a payload whose metadata holds every key once reads back as the payload.
pub proof fn lemma_payload_round_trip(p: PayloadV)
    requires
        assoc::unique_keys(p.metadata),
    ensures
        decode_payload(payload_json(p)) == Some(p),
{
    assoc::lemma_collected(p.metadata);
    reveal_strlit("content_type");
    reveal_strlit("body_b64");
    reveal_strlit("metadata");
    assert("content_type"@.len() == 12 && "body_b64"@.len() == 8 && "metadata"@.len() == 8);
    assert("body_b64"@[0] == 'b' && "metadata"@[0] == 'm');
    let none = Seq::<(Seq<char>, JsonV)>::empty();
    let o0 = none.push(("content_type"@, JsonV::Str(p.content_type)));
    let o1 = o0.push(("body_b64"@, JsonV::Str(p.body_b64)));
    assoc::lemma_lookup_push(none, "content_type"@, JsonV::Str(p.content_type));
    assoc::lemma_lookup_push(o0, "body_b64"@, JsonV::Str(p.body_b64));
    assoc::lemma_lookup_push(o1, "metadata"@, JsonV::Object(p.metadata));
    let j = payload_json(p);
    assert(j.get("content_type"@) == Some(JsonV::Str(p.content_type)));
    assert(j.get("body_b64"@) == Some(JsonV::Str(p.body_b64)));
    assert(j.get("metadata"@) == Some(JsonV::Object(p.metadata)));
}

/// The JSON form of a submission whose payload metadata holds every key
/// once reads back as the submission.
pub proof fn lemma_send_in_round_trip(s: SendInV)
    requires
        assoc::unique_keys(s.payload.metadata),
    ensures
        decode_send_in(send_in_json(s)) == Some(s),
{
    reveal_strlit("provider_type");
    reveal_strlit("tenant_id");
    reveal_strlit("auth_user");
    reveal_strlit("payload");
    assert("provider_type"@.len() == 13 && "tenant_id"@.len() == 9 && "auth_user"@.len() == 9);
    assert("payload"@.len() == 7);
    assert("tenant_id"@[0] == 't' && "auth_user"@[0] == 'a');
    lemma_payload_round_trip(s.payload);
    let none = Seq::<(Seq<char>, JsonV)>::empty();
    let o0 = none.push(("provider_type"@, JsonV::Str(s.provider_type)));
    let o1 = o0.push(("tenant_id"@, json::str_or_null(s.tenant_id)));
    let o2 = o1.push(("auth_user"@, JsonV::Null));
    assoc::lemma_lookup_push(none, "provider_type"@, JsonV::Str(s.provider_type));
    assoc::lemma_lookup_push(o0, "tenant_id"@, json::str_or_null(s.tenant_id));
    assoc::lemma_lookup_push(o1, "auth_user"@, JsonV::Null);
    assoc::lemma_lookup_push(o2, "payload"@, payload_json(s.payload));
    let j = send_in_json(s);
    assert(j.get("provider_type"@) == Some(JsonV::Str(s.provider_type)));
    assert(j.get("tenant_id"@) == Some(json::str_or_null(s.tenant_id)));
    assert(j.get("payload"@) == Some(payload_json(s.payload)));
}

/// The JSON form of the end of a submission reads back as what it was written for.
pub proof fn lemma_send_result_round_trip(r: SendResultV)
    ensures
        decode_send_result(send_result_json(r)) == Some(r),
{
    reveal_strlit("ok");
    reveal_strlit("message");
    reveal_strlit("retryable");
    assert("ok"@.len() == 2 && "message"@.len() == 7 && "retryable"@.len() == 9);
    let none = Seq::<(Seq<char>, JsonV)>::empty();
    let o0 = none.push(("ok"@, JsonV::Bool(r.ok)));
    let o1 = o0.push(("message"@, json::str_or_null(r.message)));
    assoc::lemma_lookup_push(none, "ok"@, JsonV::Bool(r.ok));
    assoc::lemma_lookup_push(o0, "message"@, json::str_or_null(r.message));
    assoc::lemma_lookup_push(o1, "retryable"@, JsonV::Bool(r.retryable));
    let j = send_result_json(r);
    assert(j.get("ok"@) == Some(JsonV::Bool(r.ok)));
    assert(j.get("message"@) == Some(json::str_or_null(r.message)));
    assert(j.get("retryable"@) == Some(JsonV::Bool(r.retryable)));
}

/// Whether the maps of a render planning input hold every key once.
pub open spec fn plan_in_well_formed(r: RenderPlanInV) -> bool {
    crate::envelope::well_formed(r.message) && assoc::unique_keys(r.metadata)
}

/// The JSON form of a render planning input whose maps hold every key once
/// reads back as the input.
pub proof fn lemma_render_plan_in_round_trip(r: RenderPlanInV)
    requires
        plan_in_well_formed(r),
    ensures
        decode_render_plan_in(render_plan_in_json(r)) == Some(r),
{
    assoc::lemma_collected(r.metadata);
    reveal_strlit("message");
    reveal_strlit("metadata");
    assert("message"@.len() == 7 && "metadata"@.len() == 8);
    crate::envelope::lemma_envelope_round_trip(r.message);
    let none = Seq::<(Seq<char>, JsonV)>::empty();
    let o0 = none.push(("message"@, envelope_json(r.message)));
    assoc::lemma_lookup_push(none, "message"@, envelope_json(r.message));
    assoc::lemma_lookup_push(o0, "metadata"@, JsonV::Object(r.metadata));
    let j = render_plan_in_json(r);
    assert(j.get("message"@) == Some(envelope_json(r.message)));
    assert(j.get("metadata"@) == Some(JsonV::Object(r.metadata)));
}

/// The JSON form of an encoding input whose maps hold every key once reads
/// back as the input.
pub proof fn lemma_encode_in_round_trip(e: EncodeInV)
    requires
        crate::envelope::well_formed(e.message),
        plan_in_well_formed(e.plan),
    ensures
        decode_encode_in(encode_in_json(e)) == Some(e),
{
    reveal_strlit("message");
    reveal_strlit("plan");
    assert("message"@.len() == 7 && "plan"@.len() == 4);
    crate::envelope::lemma_envelope_round_trip(e.message);
    lemma_render_plan_in_round_trip(e.plan);
    let none = Seq::<(Seq<char>, JsonV)>::empty();
    let o0 = none.push(("message"@, envelope_json(e.message)));
    assoc::lemma_lookup_push(none, "message"@, envelope_json(e.message));
    assoc::lemma_lookup_push(o0, "plan"@, render_plan_in_json(e.plan));
    let j = encode_in_json(e);
    assert(j.get("message"@) == Some(envelope_json(e.message)));
    assert(j.get("plan"@) == Some(render_plan_in_json(e.plan)));
}

/// The JSON form of the answer to an inbound request reads back as the
/// answer, where the metadata of each of its envelopes holds every key once.
pub proof fn lemma_http_out_round_trip(o: HttpOutV)
    requires
        forall|i: int| 0 <= i < o.events.len() ==> crate::envelope::well_formed(#[trigger] o.events[i]),
    ensures
        decode_http_out(http_out_json(o)) == Some(o),
{
    reveal_strlit("status");
    reveal_strlit("headers");
    reveal_strlit("body_b64");
    reveal_strlit("events");
    assert("status"@.len() == 6 && "headers"@.len() == 7 && "body_b64"@.len() == 8);
    assert("events"@.len() == 6);
    assert("status"@[0] == 's' && "events"@[0] == 'e');
    lemma_headers_round_trip(o.headers);
    text::lemma_u64_round_trip(o.status as u64);
    let events = Seq::new(o.events.len(), |i: int| envelope_json(o.events[i]));
    let none = Seq::<(Seq<char>, JsonV)>::empty();
    let o0 = none.push(("status"@, JsonV::Number(text::decimal(o.status as nat))));
    let o1 = o0.push(("headers"@, headers_json(o.headers)));
    let o2 = o1.push(("body_b64"@, JsonV::Str(o.body_b64)));
    assoc::lemma_lookup_push(none, "status"@, JsonV::Number(text::decimal(o.status as nat)));
    assoc::lemma_lookup_push(o0, "headers"@, headers_json(o.headers));
    assoc::lemma_lookup_push(o1, "body_b64"@, JsonV::Str(o.body_b64));
    assoc::lemma_lookup_push(o2, "events"@, JsonV::Array(events));
    let j = http_out_json(o);
    assert(j.get("status"@) == Some(JsonV::Number(text::decimal(o.status as nat))));
    assert(decode_status(j.get("status"@)) == Some(o.status));
    assert(j.get("headers"@) == Some(headers_json(o.headers)));
    assert(j.get("body_b64"@) == Some(JsonV::Str(o.body_b64)));
    assert(j.get("events"@) == Some(JsonV::Array(events)));
    assert forall|i: int| 0 <= i < events.len() implies decode_envelope(#[trigger] events[i])
        == Some(o.events[i]) by {
        crate::envelope::lemma_envelope_round_trip(o.events[i]);
    }
    assert(Seq::new(events.len(), |i: int| decode_envelope(events[i])->0) =~= o.events);
}

} // verus!
