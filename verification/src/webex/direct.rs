//! The direct operations `send` and `reply`: a request names a text and a
//! destination or a thread, and the provider posts it to the message endpoint
//! and reports the id that Webex gave the message.

use vstd::prelude::*;
use crate::assoc;
use crate::card::{trim_nonblank, trimmed_str_at, trimmed_text};
use crate::envelope::{
    decode_envelope, ChannelMessageEnvelope, Destination, EnvelopeV, PartyV, TenantCtx,
};
use crate::host::{after_send, HostV, TestHostState};
use crate::http_mock::{next_response, HttpRequest, HttpRequestV, HttpResponse, HttpResponseV};
use crate::json;
use crate::json::{Json, JsonV};
use crate::text;
use crate::webex::ingest::{body_bytes, body_or_empty, is_success, or_empty, text_at};
use crate::webex::send::{destination_key, first_destination, kind_of, or_default, shape_fault};
use crate::webex::{
    default_api_base, json_result, load_config, loaded_config, overridden_config,
    override_config_from_metadata, provider_type, token_key, ConfigV, ProviderConfig,
};

verus! {

/// What is to be posted, before the token is known.
#[derive(Debug)]
pub struct SendPlan {
    pub url: String,
    pub body: Json,
}

pub ghost struct SendPlanV {
    pub url: Seq<char>,
    pub body: JsonV,
}

impl View for SendPlan {
    type V = SendPlanV;

    open spec fn view(&self) -> SendPlanV {
        SendPlanV { url: self.url@, body: self.body@ }
    }
}

/// The view of a plan or the message in its place.
pub open spec fn plan_view(r: Result<SendPlan, String>) -> Result<SendPlanV, Seq<char>> {
    match r {
        Ok(p) => Ok(p@),
        Err(e) => Err(e@),
    }
}

/// The report of an operation that failed with `message`.
pub open spec fn fail_json(message: Seq<char>) -> JsonV {
    JsonV::Object(
        Seq::empty().push(("ok"@, JsonV::Bool(false))).push(("error"@, JsonV::Str(message))),
    )
}

/// The destination that the member `to` of a request names: a text names a
/// room; an object names an id and, if it likes, a kind.
pub open spec fn named_destination(parsed: JsonV) -> Option<PartyV> {
    match parsed.get("to"@) {
        None => None,
        Some(JsonV::Str(id)) => match trimmed_text(Some(id)) {
            Some(t) => Some(PartyV { id: t, kind: Some("room"@) }),
            None => None,
        },
        Some(JsonV::Object(o)) => match trimmed_text(JsonV::Object(o).str_at("id"@)) {
            Some(id) => Some(PartyV { id, kind: trimmed_text(JsonV::Object(o).str_at("kind"@)) }),
            None => None,
        },
        Some(_) => None,
    }
}

/// The destination of a request: the one it names, else the default room,
/// else the default e-mail address.
pub open spec fn chosen_destination(parsed: JsonV, cfg: ConfigV) -> Option<PartyV> {
    match named_destination(parsed) {
        Some(d) => Some(d),
        None => match cfg.default_room_id {
            Some(room) => Some(PartyV { id: room, kind: Some("room"@) }),
            None => match cfg.default_to_person_email {
                Some(email) => Some(PartyV { id: email, kind: Some("email"@) }),
                None => None,
            },
        },
    }
}

/// The envelope that stands for a request which is none itself.
pub open spec fn synthetic_envelope(parsed: JsonV, cfg: ConfigV) -> Result<EnvelopeV, Seq<char>> {
    match trimmed_text(parsed.str_at("text"@)) {
        None => Err("text required"@),
        Some(text) => match chosen_destination(parsed, cfg) {
            None => Err("destination required"@),
            Some(dest) => Ok(
                EnvelopeV {
                    id: "webex-manual-"@ + dest.id,
                    env: "manual"@,
                    tenant: "manual"@,
                    channel: dest.id,
                    session_id: dest.id,
                    from: None,
                    to: seq![dest],
                    correlation_id: None,
                    text: Some(text),
                    attachments: Seq::empty(),
                    metadata: match dest.kind {
                        Some(k) => assoc::put(
                            assoc::put(Seq::empty(), "synthetic"@, "true"@),
                            "destination_kind"@,
                            k,
                        ),
                        None => assoc::put(Seq::empty(), "synthetic"@, "true"@),
                    },
                },
            ),
        },
    }
}

/// What the envelope `env` posts under `cfg`, or why it posts nothing.
pub open spec fn envelope_send(env: EnvelopeV, cfg: ConfigV) -> Result<SendPlanV, Seq<char>> {
    let cfg2 = overridden_config(cfg, env.metadata);
    let dest = first_destination(env.to, cfg2.default_to_person_email);
    if env.attachments.len() > 0 {
        Err("attachments not supported"@)
    } else if trimmed_text(env.text) is None {
        Err("text required"@)
    } else if dest is None {
        Err("destination required"@)
    } else if text::trimmed(dest->0.id).len() == 0 {
        Err("destination id required"@)
    } else {
        match destination_key(kind_of(dest->0)) {
            None => Err("unsupported destination kind: "@ + kind_of(dest->0)),
            Some(key) => Ok(
                SendPlanV {
                    url: or_default(cfg2.api_base_url, default_api_base()) + "/messages"@,
                    body: JsonV::Object(
                        Seq::empty().push(("text"@, JsonV::Str(trimmed_text(env.text)->0))).push(
                            (key, JsonV::Str(text::trimmed(dest->0.id))),
                        ),
                    ),
                },
            ),
        }
    }
}

/// What the parsed request of `send` posts, or why it posts nothing. The
/// request is an envelope, or names a text and a destination.
pub open spec fn planned_send(parsed: Result<JsonV, Seq<char>>) -> Result<SendPlanV, Seq<char>> {
    match parsed {
        Err(e) => Err("invalid json: "@ + e),
        Ok(j) => match loaded_config(j) {
            Err(err) => Err(err),
            Ok(cfg) => match decode_envelope(j) {
                Some(env) => envelope_send(env, cfg),
                None => match synthetic_envelope(j, cfg) {
                    Ok(env) => envelope_send(env, cfg),
                    Err(m) => Err("invalid envelope: "@ + m + ": "@ + shape_fault()),
                },
            },
        },
    }
}

/// What the parsed request of `reply` posts, or why it posts nothing.
pub open spec fn planned_reply(parsed: Result<JsonV, Seq<char>>) -> Result<SendPlanV, Seq<char>> {
    match parsed {
        Err(e) => Err("invalid json: "@ + e),
        Ok(j) => match loaded_config(j) {
            Err(err) => Err(err),
            Ok(cfg) => {
                let thread = match j.get("reply_to_id"@) {
                    Some(v) => or_empty(v.as_str()),
                    None => text_at(j, "thread_id"@),
                };
                if text_at(j, "text"@).len() == 0 {
                    Err("text required"@)
                } else if thread.len() == 0 {
                    Err("reply_to_id or thread_id required"@)
                } else {
                    Ok(
                        SendPlanV {
                            url: or_default(cfg.api_base_url, default_api_base()) + "/messages"@,
                            body: JsonV::Object(
                                Seq::empty().push(("parentId"@, JsonV::Str(thread))).push(
                                    ("markdown"@, JsonV::Str(text_at(j, "text"@))),
                                ),
                            ),
                        },
                    )
                }
            },
        },
    }
}

/// The token that `send` posts with, or why there is none.
pub open spec fn send_token(h: HostV) -> Result<Seq<char>, Seq<char>> {
    match assoc::lookup(h.secrets, token_key()) {
        Some(bytes) => if vstd::utf8::valid_utf8(bytes) {
            Ok(vstd::utf8::decode_utf8(bytes))
        } else {
            Err("access_token not utf-8"@)
        },
        None => Err("missing secret: WEBEX_BOT_TOKEN"@),
    }
}

/// The token that `reply` posts with, or why there is none. A token that is
/// no text counts as empty.
pub open spec fn reply_token(h: HostV) -> Result<Seq<char>, Seq<char>> {
    match assoc::lookup(h.secrets, token_key()) {
        Some(bytes) => if vstd::utf8::valid_utf8(bytes) && vstd::utf8::decode_utf8(bytes).len()
            > 0 {
            Ok(vstd::utf8::decode_utf8(bytes))
        } else {
            Err("access token empty"@)
        },
        None => Err("missing access token"@),
    }
}

/// The call that posts `plan`, authorised by `token`.
pub open spec fn post_request(plan: SendPlanV, token: Seq<char>) -> HttpRequestV {
    HttpRequestV {
        method: "POST"@,
        url: plan.url,
        headers: Seq::empty().push(("Content-Type"@, "application/json"@)).push(
            ("Authorization"@, "Bearer "@ + token),
        ),
        body: Some(json::encoding(plan.body)),
    }
}

/// What the body of a response holds: its JSON, or null where it is none.
pub open spec fn response_json(resp: HttpResponseV) -> JsonV {
    match json::parsed(body_or_empty(resp.body)) {
        Ok(j) => j,
        Err(_) => JsonV::Null,
    }
}

/// The report on the response `resp`: a failure that names the status where
/// it is no success; else the id of the message, which is `fallback_id` where
/// the response names none.
pub open spec fn posted_report(resp: HttpResponseV, status_word: Seq<char>, fallback_id: Seq<char>) -> JsonV {
    if !is_success(resp.status) {
        fail_json("webex returned status "@ + text::decimal(resp.status as nat))
    } else {
        let id = or_default(response_json(resp).str_at("id"@), fallback_id);
        JsonV::Object(
            Seq::empty().push(("ok"@, JsonV::Bool(true))).push(
                ("status"@, JsonV::Str(status_word)),
            ).push(("provider_type"@, JsonV::Str(provider_type()))).push(
                ("message_id"@, JsonV::Str(id)),
            ).push(("provider_message_id"@, JsonV::Str("webex:"@ + id))).push(
                ("response"@, response_json(resp)),
            ),
        )
    }
}

/// The report on the outcome of a post: on its response, or of the
/// transport fault where there was no response.
pub open spec fn posted_outcome(
    outcome: Result<HttpResponseV, crate::http_mock::HttpFaultV>,
    status_word: Seq<char>,
    fallback_id: Seq<char>,
) -> JsonV {
    match outcome {
        Ok(resp) => posted_report(resp, status_word, fallback_id),
        Err(f) => fail_json("transport error: "@ + f.message),
    }
}

/// The report of `send` on the parsed request, on the host `h`.
pub open spec fn send_report(parsed: Result<JsonV, Seq<char>>, h: HostV) -> JsonV {
    match planned_send(parsed) {
        Err(m) => fail_json(m),
        Ok(plan) => match send_token(h) {
            Err(m) => fail_json(m),
            Ok(token) => posted_report(next_response(h.transport.queue), "sent"@, "webex-message"@),
        },
    }
}

/// The host after `send`: one call was made where there was something to
/// post and a token to post it with.
pub open spec fn host_after_send_op(parsed: Result<JsonV, Seq<char>>, h: HostV) -> HostV {
    match (planned_send(parsed), send_token(h)) {
        (Ok(plan), Ok(token)) => after_send(h, post_request(plan, token)),
        _ => h,
    }
}

/// The report of `reply` on the parsed request, on the host `h`.
pub open spec fn reply_report(parsed: Result<JsonV, Seq<char>>, h: HostV) -> JsonV {
    match planned_reply(parsed) {
        Err(m) => fail_json(m),
        Ok(plan) => match reply_token(h) {
            Err(m) => fail_json(m),
            Ok(token) => posted_report(next_response(h.transport.queue), "replied"@, "webex-reply"@),
        },
    }
}

/// The host after `reply`.
pub open spec fn host_after_reply_op(parsed: Result<JsonV, Seq<char>>, h: HostV) -> HostV {
    match (planned_reply(parsed), reply_token(h)) {
        (Ok(plan), Ok(token)) => after_send(h, post_request(plan, token)),
        _ => h,
    }
}

/// The report of an operation that failed with `message`.
pub fn failure(message: &str) -> (r: Json)
    ensures
        r@ == fail_json(message@),
{
    let mut o = json::no_members();
    json::push_member(&mut o, "ok", Json::Bool(false));
    json::push_member(&mut o, "error", Json::string(message));
    json::object(o)
}

/// The destination that the member `to` of a request names.
pub fn parsed_to_destination(parsed: &Json) -> (r: Option<Destination>)
    ensures
        match r {
            Some(d) => named_destination(parsed@) == Some(d@),
            None => named_destination(parsed@) is None,
        },
{
    let to_value = match parsed.get("to") {
        Some(v) => v,
        None => {
            return None;
        },
    };
    match to_value {
        Json::Str(id) => match trim_nonblank(Some(id.as_str())) {
            Some(t) => Some(Destination { id: t, kind: Some("room".to_owned()) }),
            None => None,
        },
        Json::Object(_) => {
            proof {
                json::lemma_view(*to_value);
            }
            match trimmed_str_at(to_value, "id") {
                Some(id) => Some(Destination { id, kind: trimmed_str_at(to_value, "kind") }),
                None => None,
            }
        },
        _ => None,
    }
}

/// The destination of a request: the one it names, else a default of the configuration.
pub fn parse_send_destination(parsed: &Json, cfg: &ProviderConfig) -> (r: Option<Destination>)
    ensures
        match r {
            Some(d) => chosen_destination(parsed@, cfg@) == Some(d@),
            None => chosen_destination(parsed@, cfg@) is None,
        },
{
    match parsed_to_destination(parsed) {
        Some(d) => {
            return Some(d);
        },
        None => {},
    }
    match &cfg.default_room_id {
        Some(room) => {
            return Some(Destination { id: room.clone(), kind: Some("room".to_owned()) });
        },
        None => {},
    }
    match &cfg.default_to_person_email {
        Some(email) => Some(Destination { id: email.clone(), kind: Some("email".to_owned()) }),
        None => None,
    }
}

/// The view of an envelope or the message in its place.
pub open spec fn envelope_result(r: Result<ChannelMessageEnvelope, String>) -> Result<
    EnvelopeV,
    Seq<char>,
> {
    match r {
        Ok(e) => Ok(e@),
        Err(m) => Err(m@),
    }
}

/// The envelope that stands for a request which is none itself.
pub fn build_send_envelope_from_input(parsed: &Json, cfg: &ProviderConfig) -> (r: Result<
    ChannelMessageEnvelope,
    String,
>)
    ensures
        envelope_result(r) == synthetic_envelope(parsed@, cfg@),
        r matches Ok(e) ==> crate::envelope::well_formed(e@),
{
    let text = match trimmed_str_at(parsed, "text") {
        Some(t) => t,
        None => {
            return Err("text required".to_owned());
        },
    };
    let destination = match parse_send_destination(parsed, cfg) {
        Some(d) => d,
        None => {
            return Err("destination required".to_owned());
        },
    };
    let mut metadata: Vec<(String, String)> = Vec::new();
    assert(assoc::entries_view(metadata@) =~= Seq::<(Seq<char>, Seq<char>)>::empty());
    assoc::insert(&mut metadata, "synthetic".to_owned(), "true".to_owned());
    match &destination.kind {
        Some(kind) => {
            assoc::insert(&mut metadata, "destination_kind".to_owned(), kind.clone());
        },
        None => {},
    }
    let channel = destination.id.clone();
    let id = text::concat("webex-manual-", channel.as_str());
    let mut to: Vec<Destination> = Vec::new();
    to.push(destination);
    let attachments: Vec<crate::envelope::Attachment> = Vec::new();
    let r = ChannelMessageEnvelope {
        id,
        tenant: TenantCtx::new("manual", "manual"),
        channel: channel.clone(),
        session_id: channel,
        from: None,
        to,
        correlation_id: None,
        text: Some(text),
        attachments,
        metadata,
    };
    proof {
        let want = synthetic_envelope(parsed@, cfg@)->Ok_0;
        assert(r@.to =~= want.to);
        assert(r@.attachments =~= want.attachments);
        assert(r@.metadata =~= want.metadata);
    }
    Ok(r)
}

/// What the envelope `env` posts under `cfg`, or why it posts nothing.
pub fn plan_envelope_send(env: &ChannelMessageEnvelope, mut cfg: ProviderConfig) -> (r: Result<
    SendPlan,
    String,
>)
    ensures
        plan_view(r) == envelope_send(env@, cfg@),
{
    let ghost cfg0 = cfg@;
    override_config_from_metadata(&mut cfg, &env.metadata);
    if env.attachments.len() > 0 {
        return Err("attachments not supported".to_owned());
    }
    let text = match &env.text {
        Some(t) => trim_nonblank(Some(t.as_str())),
        None => trim_nonblank(None),
    };
    let text = match text {
        Some(t) => t,
        None => {
            return Err("text required".to_owned());
        },
    };
    let dest = if env.to.len() > 0 {
        env.to[0].duplicate()
    } else {
        match &cfg.default_to_person_email {
            Some(email) => Destination { id: email.clone(), kind: Some("email".to_owned()) },
            None => {
                return Err("destination required".to_owned());
            },
        }
    };
    let dest_id = text::trim(dest.id.as_str());
    if dest_id.as_str().unicode_len() == 0 {
        return Err("destination id required".to_owned());
    }
    let kind = match &dest.kind {
        Some(k) => k.clone(),
        None => "email".to_owned(),
    };
    let key = if text::str_eq(kind.as_str(), "room") {
        "roomId"
    } else if text::str_eq(kind.as_str(), "person") || text::str_eq(kind.as_str(), "user") {
        "toPersonId"
    } else if text::str_eq(kind.as_str(), "email") || kind.as_str().unicode_len() == 0 {
        assert(kind@.len() == 0 ==> kind@ =~= Seq::<char>::empty());
        "toPersonEmail"
    } else {
        return Err(text::concat("unsupported destination kind: ", kind.as_str()));
    };
    let api_base = match &cfg.api_base_url {
        Some(u) => u.clone(),
        None => "https://webexapis.com/v1".to_owned(),
    };
    let mut body = json::no_members();
    json::push_member(&mut body, "text", Json::Str(text));
    json::push_member(&mut body, key, Json::Str(dest_id));
    Ok(SendPlan { url: text::concat(api_base.as_str(), "/messages"), body: json::object(body) })
}

/// What the parsed request of `send` posts, or why it posts nothing.
pub fn plan_send(parsed: &Result<Json, String>) -> (r: Result<SendPlan, String>)
    ensures
        plan_view(r) == planned_send(json_result(*parsed)),
{
    let j = match parsed {
        Ok(j) => j,
        Err(e) => {
            return Err(text::concat("invalid json: ", e.as_str()));
        },
    };
    let cfg = match load_config(j) {
        Ok(c) => c,
        Err(err) => {
            return Err(err);
        },
    };
    match ChannelMessageEnvelope::from_json(j) {
        Some(env) => plan_envelope_send(&env, cfg),
        None => match build_send_envelope_from_input(j, &cfg) {
            Ok(env) => plan_envelope_send(&env, cfg),
            Err(message) => {
                let mut m = "invalid envelope: ".to_owned();
                m.append(message.as_str());
                m.append(": ");
                m.append("input does not have the expected members");
                assert(m@ =~= "invalid envelope: "@ + message@ + ": "@ + shape_fault());
                Err(m)
            },
        },
    }
}

/// What the parsed request of `reply` posts, or why it posts nothing.
pub fn plan_reply(parsed: &Result<Json, String>) -> (r: Result<SendPlan, String>)
    ensures
        plan_view(r) == planned_reply(json_result(*parsed)),
{
    let j = match parsed {
        Ok(j) => j,
        Err(e) => {
            return Err(text::concat("invalid json: ", e.as_str()));
        },
    };
    let cfg = match load_config(j) {
        Ok(c) => c,
        Err(err) => {
            return Err(err);
        },
    };
    let text = match j.str_at("text") {
        Some(t) => t,
        None => String::new(),
    };
    if text.as_str().unicode_len() == 0 {
        return Err("text required".to_owned());
    }
    let thread_id = match j.get("reply_to_id") {
        Some(v) => match v.as_str() {
            Some(t) => t.to_owned(),
            None => String::new(),
        },
        None => match j.str_at("thread_id") {
            Some(t) => t,
            None => String::new(),
        },
    };
    if thread_id.as_str().unicode_len() == 0 {
        return Err("reply_to_id or thread_id required".to_owned());
    }
    let api_base = match &cfg.api_base_url {
        Some(u) => u.clone(),
        None => "https://webexapis.com/v1".to_owned(),
    };
    let mut body = json::no_members();
    json::push_member(&mut body, "parentId", Json::Str(thread_id));
    json::push_member(&mut body, "markdown", Json::Str(text));
    Ok(SendPlan { url: text::concat(api_base.as_str(), "/messages"), body: json::object(body) })
}

fn post_for(plan: SendPlan, token: &str) -> (r: HttpRequest)
    ensures
        r@ == post_request(plan@, token@),
{
    let mut headers: Vec<(String, String)> = Vec::new();
    headers.push(("Content-Type".to_owned(), "application/json".to_owned()));
    headers.push(("Authorization".to_owned(), text::concat("Bearer ", token)));
    let body = plan.body.to_bytes();
    let r = HttpRequest { method: "POST".to_owned(), url: plan.url, headers, body: Some(body) };
    assert(r@.headers =~= post_request(plan@, token@).headers);
    r
}

/// The report on the response `resp` to a post.
pub fn read_post_response(resp: &HttpResponse, status_word: &str, fallback_id: &str) -> (r: Json)
    ensures
        r@ == posted_report(resp@, status_word@, fallback_id@),
{
    if resp.status < 200 || resp.status >= 300 {
        return failure(
            text::concat(
                "webex returned status ",
                text::u64_to_string(resp.status as u64).as_str(),
            ).as_str(),
        );
    }
    let body = body_bytes(resp);
    let body_json = match Json::parse(body.as_slice()) {
        Ok(j) => j,
        Err(_) => Json::Null,
    };
    let msg_id = match body_json.str_at("id") {
        Some(t) => t,
        None => fallback_id.to_owned(),
    };
    let mut o = json::no_members();
    json::push_member(&mut o, "ok", Json::Bool(true));
    json::push_member(&mut o, "status", Json::string(status_word));
    json::push_member(&mut o, "provider_type", Json::string("messaging.webex.bot"));
    json::push_member(&mut o, "message_id", Json::Str(msg_id.clone()));
    json::push_member(
        &mut o,
        "provider_message_id",
        Json::Str(text::concat("webex:", msg_id.as_str())),
    );
    json::push_member(&mut o, "response", body_json);
    json::object(o)
}

/// The report on the outcome of a post, whether the transport answered or not.
pub fn read_post_outcome(
    outcome: Result<HttpResponse, crate::http_mock::HttpClientError>,
    status_word: &str,
    fallback_id: &str,
) -> (r: Json)
    ensures
        r@ == posted_outcome(
            crate::webex::ingest::outcome_view(outcome),
            status_word@,
            fallback_id@,
        ),
{
    match outcome {
        Ok(resp) => read_post_response(&resp, status_word, fallback_id),
        Err(err) => failure(text::concat("transport error: ", err.message.as_str()).as_str()),
    }
}

fn token_for_send(host: &TestHostState) -> (r: Result<String, String>)
    ensures
        crate::webex::text_result(r) == send_token(host@),
{
    match host.get("WEBEX_BOT_TOKEN") {
        Ok(Some(bytes)) => match text::from_utf8(bytes) {
            Some(s) => Ok(s),
            None => Err("access_token not utf-8".to_owned()),
        },
        Ok(None) => Err("missing secret: WEBEX_BOT_TOKEN".to_owned()),
        Err(e) => Err(text::concat("secret store error: ", e.name())),
    }
}

fn token_for_reply(host: &TestHostState) -> (r: Result<String, String>)
    ensures
        crate::webex::text_result(r) == reply_token(host@),
{
    let token = match host.get("WEBEX_BOT_TOKEN") {
        Ok(Some(bytes)) => match text::from_utf8(bytes) {
            Some(s) => s,
            None => String::new(),
        },
        _ => {
            return Err("missing access token".to_owned());
        },
    };
    if token.as_str().unicode_len() == 0 {
        return Err("access token empty".to_owned());
    }
    Ok(token)
}

/// The operation `send` on a parsed request.
pub fn handle_send_parsed(parsed: &Result<Json, String>, host: &mut TestHostState) -> (r: Json)
    ensures
        r@ == send_report(json_result(*parsed), old(host)@),
        final(host)@ == host_after_send_op(json_result(*parsed), old(host)@),
{
    let plan = match plan_send(parsed) {
        Ok(p) => p,
        Err(m) => {
            return failure(m.as_str());
        },
    };
    let token = match token_for_send(host) {
        Ok(t) => t,
        Err(m) => {
            return failure(m.as_str());
        },
    };
    let request = post_for(plan, token.as_str());
    read_post_outcome(host.send(request), "sent", "webex-message")
}

/// The operation `reply` on a parsed request.
pub fn handle_reply_parsed(parsed: &Result<Json, String>, host: &mut TestHostState) -> (r: Json)
    ensures
        r@ == reply_report(json_result(*parsed), old(host)@),
        final(host)@ == host_after_reply_op(json_result(*parsed), old(host)@),
{
    let plan = match plan_reply(parsed) {
        Ok(p) => p,
        Err(m) => {
            return failure(m.as_str());
        },
    };
    let token = match token_for_reply(host) {
        Ok(t) => t,
        Err(m) => {
            return failure(m.as_str());
        },
    };
    let request = post_for(plan, token.as_str());
    read_post_outcome(host.send(request), "replied", "webex-reply")
}

/// The operation `send`: posts the message that `input_json` describes and reports on it.
pub fn handle_send(input_json: &[u8], host: &mut TestHostState) -> (r: Vec<u8>)
    ensures
        r@ == json::encoding(send_report(json::parsed(input_json@), old(host)@)),
        final(host)@ == host_after_send_op(json::parsed(input_json@), old(host)@),
{
    let parsed = Json::parse(input_json);
    handle_send_parsed(&parsed, host).to_bytes()
}

/// The operation `reply`: posts the reply that `input_json` describes and reports on it.
pub fn handle_reply(input_json: &[u8], host: &mut TestHostState) -> (r: Vec<u8>)
    ensures
        r@ == json::encoding(reply_report(json::parsed(input_json@), old(host)@)),
        final(host)@ == host_after_reply_op(json::parsed(input_json@), old(host)@),
{
    let parsed = Json::parse(input_json);
    handle_reply_parsed(&parsed, host).to_bytes()
}

} // verus!
