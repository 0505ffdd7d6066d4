//! Inbound: a Webex webhook event becomes one envelope. For a new message the
//! provider fetches the message itself, and a fetch that fails still yields an
//! envelope, with empty text and the fault in its metadata.

use vstd::prelude::*;
use crate::assoc;
use crate::envelope::{
    attachments_view, opt_actor, Actor, Attachment, AttachmentV, ChannelMessageEnvelope, EnvelopeV,
    PartyV, TenantCtx,
};
use crate::host::{after_send, HostV, TestHostState};
use crate::http_mock::{next_response, HttpRequest, HttpRequestV, HttpResponse, HttpResponseV};
use crate::json;
use crate::json::{Json, JsonV};
use crate::text;
use crate::webex::{
    format_webex_error, get_secret_string, secret_text, token_key, webex_error_text, ConfigV,
    ProviderConfig,
};

verus! {

/// What handling one webhook event gave.
#[derive(Debug)]
pub struct IngestOutcome {
    pub envelope: ChannelMessageEnvelope,
    pub status: u16,
    pub error: Option<String>,
}

/// What the provider reads of a fetched message.
#[derive(Debug)]
pub struct MessageDetails {
    pub markdown: Option<String>,
    pub text: Option<String>,
    pub room_id: Option<String>,
    pub person_email: Option<String>,
    pub person_id: Option<String>,
    pub attachments: Vec<Attachment>,
}

pub ghost struct OutcomeV {
    pub envelope: EnvelopeV,
    pub status: u16,
    pub error: Option<Seq<char>>,
}

pub ghost struct DetailsV {
    pub markdown: Option<Seq<char>>,
    pub text: Option<Seq<char>>,
    pub room_id: Option<Seq<char>>,
    pub person_email: Option<Seq<char>>,
    pub person_id: Option<Seq<char>>,
    pub attachments: Seq<AttachmentV>,
}

impl View for IngestOutcome {
    type V = OutcomeV;

    open spec fn view(&self) -> OutcomeV {
        OutcomeV { envelope: self.envelope@, status: self.status, error: json::opt_view(self.error) }
    }
}

impl View for MessageDetails {
    type V = DetailsV;

    open spec fn view(&self) -> DetailsV {
        DetailsV {
            markdown: json::opt_view(self.markdown),
            text: json::opt_view(self.text),
            room_id: json::opt_view(self.room_id),
            person_email: json::opt_view(self.person_email),
            person_id: json::opt_view(self.person_id),
            attachments: attachments_view(self.attachments@),
        }
    }
}

/// Whether `status` is a success.
pub open spec fn is_success(status: u16) -> bool {
    200 <= status < 300
}

/// The body, or no bytes where there is none.
pub open spec fn body_or_empty(b: Option<Seq<u8>>) -> Seq<u8> {
    match b {
        Some(v) => v,
        None => Seq::empty(),
    }
}

/// The first of two optional texts that is present.
pub open spec fn or_text(a: Option<Seq<char>>, b: Option<Seq<char>>) -> Option<Seq<char>> {
    match a {
        Some(_) => a,
        None => b,
    }
}

/// The sender of a message: the person by e-mail, else by id.
pub open spec fn sender_of(person_email: Option<Seq<char>>, person_id: Option<Seq<char>>) -> Option<
    PartyV,
> {
    match or_text(person_email, person_id) {
        Some(id) => Some(PartyV { id, kind: Some("person"@) }),
        None => None,
    }
}

/// `m` with `value` stored under `key`, where `value` is present.
pub open spec fn with_entry(
    m: Seq<(Seq<char>, Seq<char>)>,
    key: Seq<char>,
    value: Option<Seq<char>>,
) -> Seq<(Seq<char>, Seq<char>)> {
    match value {
        Some(v) => assoc::put(m, key, v),
        None => m,
    }
}

/// The text of a truth value.
pub open spec fn bool_text(b: bool) -> Seq<char> {
    if b {
        "true"@
    } else {
        "false"@
    }
}

/// The metadata of an ingested event.
pub open spec fn webhook_metadata(
    resource: Seq<char>,
    event: Seq<char>,
    message_id: Option<Seq<char>>,
    room_id: Option<Seq<char>>,
    person_email: Option<Seq<char>>,
    person_id: Option<Seq<char>>,
    error: Option<Seq<char>>,
    attachment_types: Option<Seq<char>>,
    status: u16,
) -> Seq<(Seq<char>, Seq<char>)> {
    let m0 = assoc::put(
        assoc::put(Seq::empty(), "webex.resource"@, resource),
        "webex.event"@,
        event,
    );
    let m1 = with_entry(m0, "webex.messageId"@, message_id);
    let m2 = with_entry(m1, "webex.roomId"@, room_id);
    let m3 = with_entry(m2, "webex.personEmail"@, person_email);
    let m4 = with_entry(m3, "webex.personId"@, person_id);
    let m5 = with_entry(m4, "webex.ingestError"@, error);
    let m6 = assoc::put(m5, "webex.fetchStatus"@, text::decimal(status as nat));
    let m7 = assoc::put(m6, "webex.hasAttachments"@, bool_text(attachment_types is Some));
    with_entry(m7, "webex.attachmentTypes"@, attachment_types)
}

/// The metadata of an ingested event holds every key once.
pub proof fn lemma_webhook_metadata_unique(
    resource: Seq<char>,
    event: Seq<char>,
    message_id: Option<Seq<char>>,
    room_id: Option<Seq<char>>,
    person_email: Option<Seq<char>>,
    person_id: Option<Seq<char>>,
    error: Option<Seq<char>>,
    attachment_types: Option<Seq<char>>,
    status: u16,
)
    ensures
        assoc::unique_keys(
            webhook_metadata(
                resource,
                event,
                message_id,
                room_id,
                person_email,
                person_id,
                error,
                attachment_types,
                status,
            ),
        ),
{
    let e = Seq::<(Seq<char>, Seq<char>)>::empty();
    let a = assoc::put(e, "webex.resource"@, resource);
    let m0 = assoc::put(a, "webex.event"@, event);
    let m1 = with_entry(m0, "webex.messageId"@, message_id);
    let m2 = with_entry(m1, "webex.roomId"@, room_id);
    let m3 = with_entry(m2, "webex.personEmail"@, person_email);
    let m4 = with_entry(m3, "webex.personId"@, person_id);
    let m5 = with_entry(m4, "webex.ingestError"@, error);
    let m6 = assoc::put(m5, "webex.fetchStatus"@, text::decimal(status as nat));
    let m7 = assoc::put(m6, "webex.hasAttachments"@, bool_text(attachment_types is Some));
    assoc::lemma_put(e, "webex.resource"@, resource);
    assoc::lemma_put(a, "webex.event"@, event);
    lemma_with_entry_unique(m0, "webex.messageId"@, message_id);
    lemma_with_entry_unique(m1, "webex.roomId"@, room_id);
    lemma_with_entry_unique(m2, "webex.personEmail"@, person_email);
    lemma_with_entry_unique(m3, "webex.personId"@, person_id);
    lemma_with_entry_unique(m4, "webex.ingestError"@, error);
    assoc::lemma_put(m5, "webex.fetchStatus"@, text::decimal(status as nat));
    assoc::lemma_put(m6, "webex.hasAttachments"@, bool_text(attachment_types is Some));
    lemma_with_entry_unique(m7, "webex.attachmentTypes"@, attachment_types);
}

proof fn lemma_with_entry_unique(
    m: Seq<(Seq<char>, Seq<char>)>,
    key: Seq<char>,
    value: Option<Seq<char>>,
)
    ensures
        assoc::unique_keys(m) ==> assoc::unique_keys(with_entry(m, key, value)),
{
    match value {
        Some(v) => {
            assoc::lemma_put(m, key, v);
        },
        None => {},
    }
}

/// The envelope of an ingested event.
pub open spec fn webhook_envelope(
    text: Seq<char>,
    session_id: Seq<char>,
    from: Option<PartyV>,
    metadata: Seq<(Seq<char>, Seq<char>)>,
    attachments: Seq<AttachmentV>,
    message_id: Option<Seq<char>>,
) -> EnvelopeV {
    EnvelopeV {
        id: match message_id {
            Some(id) => "webex-"@ + id,
            None => "webex-ingress-"@ + session_id,
        },
        env: "default"@,
        tenant: "default"@,
        channel: "webex"@,
        session_id,
        from,
        to: Seq::empty(),
        correlation_id: None,
        text: Some(text),
        attachments,
        metadata,
    }
}

/// The attachment that the item `value`, at `idx` in the message `message_id`, describes.
pub open spec fn webex_attachment(message_id: Seq<char>, idx: nat, value: JsonV) -> AttachmentV {
    AttachmentV {
        mime_type: match value.str_at("contentType"@) {
            Some(t) => t,
            None => "application/octet-stream"@,
        },
        url: match value.str_at("contentUrl"@) {
            Some(u) => u,
            None => match value.get("content"@) {
                Some(c) => match c.str_at("url"@) {
                    Some(u) => u,
                    None => "webex:"@ + message_id + ":attachment:"@ + text::decimal(idx),
                },
                None => "webex:"@ + message_id + ":attachment:"@ + text::decimal(idx),
            },
        },
        name: match value.get("name"@) {
            Some(n) => n.as_str(),
            None => value.str_at("displayName"@),
        },
        size_bytes: match value.get("size"@) {
            Some(n) => match n.as_u64() {
                Some(k) => Some(k),
                None => u64_at(value, "sizeBytes"@),
            },
            None => u64_at(value, "sizeBytes"@),
        },
    }
}

/// The whole number under `key`.
pub open spec fn u64_at(j: JsonV, key: Seq<char>) -> Option<u64> {
    match j.get(key) {
        Some(n) => n.as_u64(),
        None => None,
    }
}

/// The attachments that the message `data` lists.
pub open spec fn webex_attachments(message_id: Seq<char>, data: JsonV) -> Seq<AttachmentV> {
    match data.get("attachments"@) {
        Some(JsonV::Array(items)) => Seq::new(
            items.len(),
            |i: int| webex_attachment(message_id, i as nat, items[i]),
        ),
        _ => Seq::empty(),
    }
}

/// What the provider reads of the message `data`.
pub open spec fn details_of(message_id: Seq<char>, data: JsonV) -> DetailsV {
    DetailsV {
        markdown: data.str_at("markdown"@),
        text: data.str_at("text"@),
        room_id: data.str_at("roomId"@),
        person_email: data.str_at("personEmail"@),
        person_id: data.str_at("personId"@),
        attachments: webex_attachments(message_id, data),
    }
}

/// The request that fetches the message `message_id`.
pub open spec fn fetch_request(message_id: Seq<char>, api_base: Seq<char>, token: Seq<char>) -> HttpRequestV {
    HttpRequestV {
        method: "GET"@,
        url: api_base + "/messages/"@ + message_id,
        headers: Seq::empty().push(("Authorization"@, "Bearer "@ + token)),
        body: None,
    }
}

/// What the response to a fetch gives: the details of the message, or the
/// fault. A response that is no success is a fault with its status; a body
/// that is no JSON is one too. The message may stand under `result`.
pub open spec fn fetched_details(message_id: Seq<char>, resp: HttpResponseV) -> Result<
    DetailsV,
    Seq<char>,
> {
    if !is_success(resp.status) {
        Err(webex_error_text(resp.status, body_or_empty(resp.body)))
    } else {
        match json::parsed(body_or_empty(resp.body)) {
            Err(e) => Err("invalid message JSON: "@ + e),
            Ok(j) => Ok(
                details_of(
                    message_id,
                    match j.get("result"@) {
                        Some(d) => d,
                        None => j,
                    },
                ),
            ),
        }
    }
}

/// What the outcome of the fetch gives: what its response gives, or the
/// transport fault where there was no response.
pub open spec fn fetched_from(
    message_id: Seq<char>,
    outcome: Result<HttpResponseV, crate::http_mock::HttpFaultV>,
) -> Result<DetailsV, Seq<char>> {
    match outcome {
        Ok(resp) => fetched_details(message_id, resp),
        Err(f) => Err("transport error: "@ + f.message),
    }
}

/// The API base that a fetch uses: the configured one, unless blank, without
/// trailing slashes.
pub open spec fn fetch_api_base(cfg: ConfigV) -> Seq<char> {
    text::drop_trailing(
        match cfg.api_base_url {
            Some(u) => if text::trimmed(u).len() == 0 {
                crate::webex::default_api_base()
            } else {
                u
            },
            None => crate::webex::default_api_base(),
        },
        '/',
    )
}

/// The text under `key`, or no text.
pub open spec fn text_at(j: JsonV, key: Seq<char>) -> Seq<char> {
    match j.str_at(key) {
        Some(t) => t,
        None => Seq::empty(),
    }
}

/// The `data` member of an event, or null.
pub open spec fn event_data(body: JsonV) -> JsonV {
    match body.get("data"@) {
        Some(d) => d,
        None => JsonV::Null,
    }
}

/// Whether the event announces a new message, which is then fetched.
pub open spec fn fetches_message(body: JsonV) -> bool {
    text_at(body, "resource"@) == "messages"@ && text_at(body, "event"@) == "created"@
        && event_data(body).str_at("id"@) is Some
}

/// The mime types of `a`, joined by commas; nothing where there are none.
pub open spec fn attachment_types(a: Seq<AttachmentV>) -> Option<Seq<char>> {
    if a.len() == 0 {
        None
    } else {
        Some(text::joined(Seq::new(a.len(), |i: int| a[i].mime_type), seq![',']))
    }
}

/// The text of a text that is not blank.
pub open spec fn unless_blank(t: Option<Seq<char>>) -> Option<Seq<char>> {
    match t {
        Some(v) => if text::trimmed(v).len() == 0 {
            None
        } else {
            t
        },
        None => None,
    }
}

/// The text, or no text where there is none.
pub open spec fn or_empty(t: Option<Seq<char>>) -> Seq<char> {
    match t {
        Some(v) => v,
        None => Seq::empty(),
    }
}

/// The outcome for a message that was fetched.
pub open spec fn fetched_outcome(body: JsonV, message_id: Seq<char>, details: DetailsV) -> OutcomeV {
    let data = event_data(body);
    let room = or_text(details.room_id, data.str_at("roomId"@));
    let email = or_text(details.person_email, data.str_at("personEmail"@));
    let person = or_text(details.person_id, data.str_at("personId"@));
    OutcomeV {
        envelope: webhook_envelope(
            or_empty(or_text(unless_blank(details.markdown), details.text)),
            match room {
                Some(r) => r,
                None => message_id,
            },
            match sender_of(details.person_email, details.person_id) {
                Some(s) => Some(s),
                None => sender_of(data.str_at("personEmail"@), data.str_at("personId"@)),
            },
            webhook_metadata(
                text_at(body, "resource"@),
                text_at(body, "event"@),
                Some(message_id),
                room,
                email,
                person,
                None,
                attachment_types(details.attachments),
                200,
            ),
            details.attachments,
            Some(message_id),
        ),
        status: 200,
        error: None,
    }
}

/// The outcome for a message that could not be fetched: an envelope with
/// empty text that carries the fault, under `status`.
pub open spec fn failed_outcome(body: JsonV, message_id: Seq<char>, err: Seq<char>, status: u16) -> OutcomeV {
    let data = event_data(body);
    OutcomeV {
        envelope: webhook_envelope(
            Seq::empty(),
            match data.str_at("roomId"@) {
                Some(r) => r,
                None => message_id,
            },
            sender_of(data.str_at("personEmail"@), data.str_at("personId"@)),
            webhook_metadata(
                text_at(body, "resource"@),
                text_at(body, "event"@),
                Some(message_id),
                data.str_at("roomId"@),
                data.str_at("personEmail"@),
                data.str_at("personId"@),
                Some(err),
                None,
                status,
            ),
            Seq::empty(),
            Some(message_id),
        ),
        status,
        error: Some(err),
    }
}

/// The outcome for an event that is not a new message: its own text, and nothing fetched.
pub open spec fn plain_outcome(body: JsonV) -> OutcomeV {
    let data = event_data(body);
    let message_id = data.str_at("id"@);
    let session_id = match data.str_at("roomId"@) {
        Some(r) => r,
        None => match message_id {
            Some(m) => m,
            None => "webex"@,
        },
    };
    OutcomeV {
        envelope: webhook_envelope(
            match body.get("text"@) {
                Some(t) => or_empty(t.as_str()),
                None => text_at(body, "markdown"@),
            },
            session_id,
            sender_of(data.str_at("personEmail"@), data.str_at("personId"@)),
            webhook_metadata(
                text_at(body, "resource"@),
                text_at(body, "event"@),
                message_id,
                data.str_at("roomId"@),
                data.str_at("personEmail"@),
                data.str_at("personId"@),
                None,
                None,
                200,
            ),
            Seq::empty(),
            message_id,
        ),
        status: 200,
        error: None,
    }
}

/// What handling the event `body` gives on the host `h`. A new message is
/// fetched with the bot's token: the fetched message gives the envelope; a
/// failed fetch gives status 502, a missing token status 500, each with an
/// envelope of empty text that carries the fault.
pub open spec fn webhook_outcome(body: JsonV, cfg: ConfigV, h: HostV) -> OutcomeV {
    if fetches_message(body) {
        let message_id = event_data(body).str_at("id"@)->0;
        match secret_text(h, token_key()) {
            Ok(token) => match fetched_details(message_id, next_response(h.transport.queue)) {
                Ok(details) => fetched_outcome(body, message_id, details),
                Err(err) => failed_outcome(body, message_id, err, 502),
            },
            Err(err) => failed_outcome(body, message_id, err, 500),
        }
    } else {
        plain_outcome(body)
    }
}

/// The host after the event `body` was handled: one fetch was sent where the
/// event announces a new message and the token is there; else nothing changed.
pub open spec fn host_after_webhook(body: JsonV, cfg: ConfigV, h: HostV) -> HostV {
    if fetches_message(body) && secret_text(h, token_key()) is Ok {
        after_send(
            h,
            fetch_request(
                event_data(body).str_at("id"@)->0,
                fetch_api_base(cfg),
                secret_text(h, token_key())->Ok_0,
            ),
        )
    } else {
        h
    }
}

/// The view of details or the message in their place.
pub open spec fn details_result(r: Result<MessageDetails, String>) -> Result<DetailsV, Seq<char>> {
    match r {
        Ok(d) => Ok(d@),
        Err(e) => Err(e@),
    }
}

fn first_of(a: &Option<String>, b: &Option<String>) -> (r: Option<String>)
    ensures
        json::opt_view(r) == or_text(json::opt_view(*a), json::opt_view(*b)),
{
    match a {
        Some(t) => Some(t.clone()),
        None => match b {
            Some(t) => Some(t.clone()),
            None => None,
        },
    }
}

fn push_entry(m: &mut Vec<(String, String)>, key: &str, value: &Option<String>)
    ensures
        assoc::entries_view(final(m)@) == with_entry(
            assoc::entries_view(old(m)@),
            key@,
            json::opt_view(*value),
        ),
        assoc::unique_keys(assoc::entries_view(old(m)@)) ==> assoc::unique_keys(
            assoc::entries_view(final(m)@),
        ),
{
    match value {
        Some(v) => {
            assoc::insert(m, key.to_owned(), v.clone());
        },
        None => {},
    }
}

fn push_pair(m: &mut Vec<(String, String)>, key: &str, value: String)
    ensures
        assoc::entries_view(final(m)@) == assoc::put(assoc::entries_view(old(m)@), key@, value@),
        assoc::unique_keys(assoc::entries_view(old(m)@)) ==> assoc::unique_keys(
            assoc::entries_view(final(m)@),
        ),
{
    assoc::insert(m, key.to_owned(), value);
}

/// The sender of a message: the person by e-mail, else by id.
pub fn pick_sender(person_email: &Option<String>, person_id: &Option<String>) -> (r: Option<Actor>)
    ensures
        opt_actor(r) == sender_of(json::opt_view(*person_email), json::opt_view(*person_id)),
{
    match first_of(person_email, person_id) {
        Some(id) => Some(Actor { id, kind: Some("person".to_owned()) }),
        None => None,
    }
}

/// The metadata of an ingested event.
pub fn build_webhook_metadata(
    resource: &str,
    event: &str,
    message_id: &Option<String>,
    room_id: &Option<String>,
    person_email: &Option<String>,
    person_id: &Option<String>,
    error: &Option<String>,
    attachment_types: &Option<String>,
    status: u16,
) -> (r: Vec<(String, String)>)
    ensures
        assoc::entries_view(r@) == webhook_metadata(
            resource@,
            event@,
            json::opt_view(*message_id),
            json::opt_view(*room_id),
            json::opt_view(*person_email),
            json::opt_view(*person_id),
            json::opt_view(*error),
            json::opt_view(*attachment_types),
            status,
        ),
        assoc::unique_keys(assoc::entries_view(r@)),
{
    let mut m: Vec<(String, String)> = Vec::new();
    assert(assoc::entries_view(m@) =~= Seq::empty());
    push_pair(&mut m, "webex.resource", resource.to_owned());
    push_pair(&mut m, "webex.event", event.to_owned());
    push_entry(&mut m, "webex.messageId", message_id);
    push_entry(&mut m, "webex.roomId", room_id);
    push_entry(&mut m, "webex.personEmail", person_email);
    push_entry(&mut m, "webex.personId", person_id);
    push_entry(&mut m, "webex.ingestError", error);
    push_pair(&mut m, "webex.fetchStatus", text::u64_to_string(status as u64));
    let has = if attachment_types.is_some() {
        "true".to_owned()
    } else {
        "false".to_owned()
    };
    push_pair(&mut m, "webex.hasAttachments", has);
    push_entry(&mut m, "webex.attachmentTypes", attachment_types);
    m
}

/// The envelope of an ingested event.
pub fn build_webhook_envelope(
    text: String,
    session_id: String,
    from: Option<Actor>,
    metadata: Vec<(String, String)>,
    attachments: Vec<Attachment>,
    message_id: &Option<String>,
) -> (r: ChannelMessageEnvelope)
    ensures
        r@ == webhook_envelope(
            text@,
            session_id@,
            opt_actor(from),
            assoc::entries_view(metadata@),
            attachments_view(attachments@),
            json::opt_view(*message_id),
        ),
        assoc::unique_keys(assoc::entries_view(metadata@)) ==> crate::envelope::well_formed(r@),
{
    let id = match message_id {
        Some(id) => text::concat("webex-", id.as_str()),
        None => text::concat("webex-ingress-", session_id.as_str()),
    };
    let to: Vec<crate::envelope::Destination> = Vec::new();
    assert(crate::envelope::destinations_view(to@) =~= Seq::empty());
    ChannelMessageEnvelope {
        id,
        tenant: TenantCtx::new("default", "default"),
        channel: "webex".to_owned(),
        session_id,
        from,
        to,
        correlation_id: None,
        text: Some(text),
        attachments,
        metadata,
    }
}

fn placeholder_url(message_id: &str, idx: usize) -> (r: String)
    ensures
        r@ == "webex:"@ + message_id@ + ":attachment:"@ + text::decimal(idx as nat),
{
    let mut r = "webex:".to_owned();
    r.append(message_id);
    r.append(":attachment:");
    r.append(text::u64_to_string(idx as u64).as_str());
    r
}

fn read_u64_at(j: &Json, key: &str) -> (r: Option<u64>)
    ensures
        r == u64_at(j@, key@),
{
    match j.get(key) {
        Some(n) => n.as_u64(),
        None => None,
    }
}

/// The attachment that the item `value`, at `idx` in the message `message_id`, describes.
pub fn build_webex_attachment(message_id: &str, idx: usize, value: &Json) -> (r: Attachment)
    ensures
        r@ == webex_attachment(message_id@, idx as nat, value@),
{
    let mime_type = match value.str_at("contentType") {
        Some(t) => t,
        None => "application/octet-stream".to_owned(),
    };
    let url = match value.str_at("contentUrl") {
        Some(u) => u,
        None => match value.get("content") {
            Some(c) => match c.str_at("url") {
                Some(u) => u,
                None => placeholder_url(message_id, idx),
            },
            None => placeholder_url(message_id, idx),
        },
    };
    let name = match value.get("name") {
        Some(n) => match n.as_str() {
            Some(t) => Some(t.to_owned()),
            None => None,
        },
        None => value.str_at("displayName"),
    };
    let size_bytes = match value.get("size") {
        Some(n) => match n.as_u64() {
            Some(k) => Some(k),
            None => read_u64_at(value, "sizeBytes"),
        },
        None => read_u64_at(value, "sizeBytes"),
    };
    Attachment { mime_type, url, name, size_bytes }
}

/// The attachments that the message `data` lists.
pub fn convert_webex_attachments(message_id: &str, data: &Json) -> (r: Vec<Attachment>)
    ensures
        attachments_view(r@) == webex_attachments(message_id@, data@),
{
    let mut out: Vec<Attachment> = Vec::new();
    match data.get("attachments") {
        Some(list) => match list.as_array() {
            Some(items) => {
                let mut i: usize = 0;
                while i < items.len()
                    invariant
                        i <= items.len(),
                        out@.len() == i,
                        forall|k: int|
                            0 <= k < i ==> out@[k]@ == webex_attachment(
                                message_id@,
                                k as nat,
                                json::items_view(items@)[k],
                            ),
                    decreases items.len() - i,
                {
                    out.push(build_webex_attachment(message_id, i, &items[i]));
                    i += 1;
                }
                assert(attachments_view(out@) =~= webex_attachments(message_id@, data@));
            },
            None => {
                assert(attachments_view(out@) =~= Seq::empty());
            },
        },
        None => {
            assert(attachments_view(out@) =~= Seq::empty());
        },
    }
    out
}

fn read_details(message_id: &str, data: &Json) -> (r: MessageDetails)
    ensures
        r@ == details_of(message_id@, data@),
{
    MessageDetails {
        markdown: data.str_at("markdown"),
        text: data.str_at("text"),
        room_id: data.str_at("roomId"),
        person_email: data.str_at("personEmail"),
        person_id: data.str_at("personId"),
        attachments: convert_webex_attachments(message_id, data),
    }
}

/// The body of a response, or no bytes.
pub fn body_bytes(resp: &HttpResponse) -> (r: Vec<u8>)
    ensures
        r@ == body_or_empty(resp@.body),
{
    match &resp.body {
        Some(b) => assoc::clone_bytes(b),
        None => Vec::new(),
    }
}

/// What the response `resp` to a fetch of `message_id` gives.
pub fn read_fetch_response(message_id: &str, resp: &HttpResponse) -> (r: Result<
    MessageDetails,
    String,
>)
    ensures
        details_result(r) == fetched_details(message_id@, resp@),
{
    let body = body_bytes(resp);
    if resp.status < 200 || resp.status >= 300 {
        return Err(format_webex_error(resp.status, body.as_slice()));
    }
    match Json::parse(body.as_slice()) {
        Err(e) => Err(text::concat("invalid message JSON: ", e.as_str())),
        Ok(j) => match j.get("result") {
            Some(d) => Ok(read_details(message_id, d)),
            None => Ok(read_details(message_id, &j)),
        },
    }
}

/// The view of the outcome of a call.
pub open spec fn outcome_view(r: Result<HttpResponse, crate::http_mock::HttpClientError>) -> Result<
    HttpResponseV,
    crate::http_mock::HttpFaultV,
> {
    match r {
        Ok(resp) => Ok(resp@),
        Err(e) => Err(e@),
    }
}

/// What the outcome of a fetch of `message_id` gives, whether the transport answered or not.
pub fn read_fetch_outcome(
    message_id: &str,
    outcome: Result<HttpResponse, crate::http_mock::HttpClientError>,
) -> (r: Result<MessageDetails, String>)
    ensures
        details_result(r) == fetched_from(message_id@, outcome_view(outcome)),
{
    match outcome {
        Ok(resp) => read_fetch_response(message_id, &resp),
        Err(err) => Err(text::concat("transport error: ", err.message.as_str())),
    }
}

/// Fetches the message `message_id` with `token`, and reads the response.
pub fn fetch_message_details(
    message_id: &str,
    api_base: &str,
    token: &str,
    host: &mut TestHostState,
) -> (r: Result<MessageDetails, String>)
    ensures
        details_result(r) == fetched_details(
            message_id@,
            next_response(old(host)@.transport.queue),
        ),
        final(host)@ == after_send(old(host)@, fetch_request(message_id@, api_base@, token@)),
{
    let mut url = api_base.to_owned();
    url.append("/messages/");
    url.append(message_id);
    let mut headers: Vec<(String, String)> = Vec::new();
    headers.push(("Authorization".to_owned(), text::concat("Bearer ", token)));
    let request = HttpRequest { method: "GET".to_owned(), url, headers, body: None };
    assert(request@.headers =~= fetch_request(message_id@, api_base@, token@).headers);
    read_fetch_outcome(message_id, host.send(request))
}

fn text_or_empty(j: &Json, key: &str) -> (r: String)
    ensures
        r@ == text_at(j@, key@),
{
    match j.str_at(key) {
        Some(t) => t,
        None => String::new(),
    }
}

fn api_base_for_fetch(cfg: &ProviderConfig) -> (r: String)
    ensures
        r@ == fetch_api_base(cfg@),
{
    let base = match &cfg.api_base_url {
        Some(u) => if text::trim(u.as_str()).as_str().unicode_len() == 0 {
            "https://webexapis.com/v1".to_owned()
        } else {
            u.clone()
        },
        None => "https://webexapis.com/v1".to_owned(),
    };
    text::trim_end_matches(base.as_str(), '/')
}

fn mime_types(attachments: &Vec<Attachment>) -> (r: Option<String>)
    ensures
        json::opt_view(r) == attachment_types(attachments_view(attachments@)),
{
    if attachments.len() == 0 {
        return None;
    }
    let mut parts: Vec<String> = Vec::new();
    let mut i: usize = 0;
    while i < attachments.len()
        invariant
            i <= attachments.len(),
            parts@.len() == i,
            forall|k: int| 0 <= k < i ==> parts@[k]@ == attachments@[k].mime_type@,
        decreases attachments.len() - i,
    {
        parts.push(attachments[i].mime_type.clone());
        i += 1;
    }
    let ghost a = attachments_view(attachments@);
    assert(text::strings_view(parts@) =~= Seq::new(a.len(), |i: int| a[i].mime_type));
    let sep = ",";
    proof {
        reveal_strlit(",");
        assert(sep@ =~= seq![',']);
    }
    Some(text::join(&parts, sep))
}

fn failed(body: &Json, message_id: &String, err: String, status: u16) -> (r: IngestOutcome)
    requires
        event_data(body@).str_at("id"@) == Some(message_id@),
    ensures
        r@ == failed_outcome(body@, message_id@, err@, status),
        crate::envelope::well_formed(r@.envelope),
{
    let null = Json::Null;
    let data = match body.get("data") {
        Some(d) => d,
        None => &null,
    };
    let room = data.str_at("roomId");
    let email = data.str_at("personEmail");
    let person = data.str_at("personId");
    let session_id = match &room {
        Some(r) => r.clone(),
        None => message_id.clone(),
    };
    let error = Some(err);
    let id = Some(message_id.clone());
    let metadata = build_webhook_metadata(
        text_or_empty(body, "resource").as_str(),
        text_or_empty(body, "event").as_str(),
        &id,
        &room,
        &email,
        &person,
        &error,
        &None,
        status,
    );
    let attachments: Vec<Attachment> = Vec::new();
    assert(attachments_view(attachments@) =~= Seq::empty());
    let envelope = build_webhook_envelope(
        String::new(),
        session_id,
        pick_sender(&email, &person),
        metadata,
        attachments,
        &id,
    );
    IngestOutcome { envelope, status, error }
}

fn fetched(body: &Json, message_id: &String, details: MessageDetails) -> (r: IngestOutcome)
    requires
        event_data(body@).str_at("id"@) == Some(message_id@),
    ensures
        r@ == fetched_outcome(body@, message_id@, details@),
        crate::envelope::well_formed(r@.envelope),
{
    let null = Json::Null;
    let data = match body.get("data") {
        Some(d) => d,
        None => &null,
    };
    let webhook_room = data.str_at("roomId");
    let webhook_email = data.str_at("personEmail");
    let webhook_person = data.str_at("personId");
    let room = first_of(&details.room_id, &webhook_room);
    let email = first_of(&details.person_email, &webhook_email);
    let person = first_of(&details.person_id, &webhook_person);
    let session_id = match &room {
        Some(r) => r.clone(),
        None => message_id.clone(),
    };
    let sender = match pick_sender(&details.person_email, &details.person_id) {
        Some(s) => Some(s),
        None => pick_sender(&webhook_email, &webhook_person),
    };
    let markdown = match &details.markdown {
        Some(v) => if text::trim(v.as_str()).as_str().unicode_len() == 0 {
            None
        } else {
            Some(v.clone())
        },
        None => None,
    };
    let text = match first_of(&markdown, &details.text) {
        Some(t) => t,
        None => String::new(),
    };
    let types = mime_types(&details.attachments);
    let id = Some(message_id.clone());
    let metadata = build_webhook_metadata(
        text_or_empty(body, "resource").as_str(),
        text_or_empty(body, "event").as_str(),
        &id,
        &room,
        &email,
        &person,
        &None,
        &types,
        200,
    );
    let envelope = build_webhook_envelope(
        text,
        session_id,
        sender,
        metadata,
        details.attachments,
        &id,
    );
    IngestOutcome { envelope, status: 200, error: None }
}

fn plain(body: &Json) -> (r: IngestOutcome)
    ensures
        r@ == plain_outcome(body@),
        crate::envelope::well_formed(r@.envelope),
{
    let null = Json::Null;
    let data = match body.get("data") {
        Some(d) => d,
        None => &null,
    };
    let message_id = data.str_at("id");
    let room = data.str_at("roomId");
    let email = data.str_at("personEmail");
    let person = data.str_at("personId");
    let text = match body.get("text") {
        Some(t) => match t.as_str() {
            Some(v) => v.to_owned(),
            None => String::new(),
        },
        None => text_or_empty(body, "markdown"),
    };
    let session_id = match &room {
        Some(r) => r.clone(),
        None => match &message_id {
            Some(m) => m.clone(),
            None => "webex".to_owned(),
        },
    };
    let metadata = build_webhook_metadata(
        text_or_empty(body, "resource").as_str(),
        text_or_empty(body, "event").as_str(),
        &message_id,
        &room,
        &email,
        &person,
        &None,
        &None,
        200,
    );
    let attachments: Vec<Attachment> = Vec::new();
    assert(attachments_view(attachments@) =~= Seq::empty());
    let envelope = build_webhook_envelope(
        text,
        session_id,
        pick_sender(&email, &person),
        metadata,
        attachments,
        &message_id,
    );
    IngestOutcome { envelope, status: 200, error: None }
}

/// Handles one webhook event: a new message is fetched and becomes the
/// envelope; any other event becomes an envelope of its own text. A fetch
/// that fails still gives an envelope, with the fault in it.
pub fn handle_webhook_event(body: &Json, cfg: &ProviderConfig, host: &mut TestHostState) -> (r:
    IngestOutcome)
    ensures
        r@ == webhook_outcome(body@, cfg@, old(host)@),
        final(host)@ == host_after_webhook(body@, cfg@, old(host)@),
        crate::envelope::well_formed(r@.envelope),
{
    let resource = text_or_empty(body, "resource");
    let event = text_or_empty(body, "event");
    let message_id = match body.get("data") {
        Some(d) => d.str_at("id"),
        None => None,
    };
    if text::str_eq(resource.as_str(), "messages") && text::str_eq(event.as_str(), "created") {
        match message_id {
            Some(id) => {
                let api_base = api_base_for_fetch(cfg);
                return match get_secret_string("WEBEX_BOT_TOKEN", host) {
                    Ok(token) => match fetch_message_details(
                        id.as_str(),
                        api_base.as_str(),
                        token.as_str(),
                        host,
                    ) {
                        Ok(details) => fetched(body, &id, details),
                        Err(err) => failed(body, &id, err, 502),
                    },
                    Err(err) => failed(body, &id, err, 500),
                };
            },
            None => {},
        }
    }
    plain(body)
}

/// Every event gives exactly one outcome with one envelope, whose text is
/// present. Where the event announces a new message and the token is there,
/// but the response to the fetch is no success, the outcome has status 502,
/// an envelope of empty text without attachments, and the fault, which names
/// the status of the response, both as its error and in the metadata of the
/// envelope; and the one call that was made is on record.
pub proof fn lemma_failed_fetch_is_isolated(body: JsonV, cfg: ConfigV, h: HostV)
    requires
        fetches_message(body),
        secret_text(h, token_key()) is Ok,
        !is_success(next_response(h.transport.queue).status),
    ensures
        ({
            let o = webhook_outcome(body, cfg, h);
            let resp = next_response(h.transport.queue);
            let fault = webex_error_text(resp.status, body_or_empty(resp.body));
            &&& o.status == 502
            &&& o.error == Some(fault)
            &&& o.envelope.text == Some(Seq::<char>::empty())
            &&& o.envelope.attachments.len() == 0
            &&& assoc::lookup(o.envelope.metadata, "webex.ingestError"@) == Some(fault)
            &&& host_after_webhook(body, cfg, h).transport.history.len()
                == h.transport.history.len() + 1
        }),
{
    let o = webhook_outcome(body, cfg, h);
    let resp = next_response(h.transport.queue);
    let fault = webex_error_text(resp.status, body_or_empty(resp.body));
    let data = event_data(body);
    let message_id = data.str_at("id"@)->0;
    assert(o == failed_outcome(body, message_id, fault, 502));
    let e = Seq::<(Seq<char>, Seq<char>)>::empty();
    let m0 = assoc::put(
        assoc::put(e, "webex.resource"@, text_at(body, "resource"@)),
        "webex.event"@,
        text_at(body, "event"@),
    );
    let m1 = with_entry(m0, "webex.messageId"@, Some(message_id));
    let m2 = with_entry(m1, "webex.roomId"@, data.str_at("roomId"@));
    let m3 = with_entry(m2, "webex.personEmail"@, data.str_at("personEmail"@));
    let m4 = with_entry(m3, "webex.personId"@, data.str_at("personId"@));
    let m5 = assoc::put(m4, "webex.ingestError"@, fault);
    let m6 = assoc::put(m5, "webex.fetchStatus"@, text::decimal(502));
    let m7 = assoc::put(m6, "webex.hasAttachments"@, bool_text(false));
    assert(o.envelope.metadata == m7);
    reveal_strlit("webex.ingestError");
    reveal_strlit("webex.fetchStatus");
    reveal_strlit("webex.hasAttachments");
    assert("webex.fetchStatus"@.len() != "webex.ingestError"@.len() || "webex.fetchStatus"@[6]
        != "webex.ingestError"@[6]);
    assert("webex.hasAttachments"@.len() != "webex.ingestError"@.len());
    assoc::lemma_put(m4, "webex.ingestError"@, fault);
    assoc::lemma_put(m5, "webex.fetchStatus"@, text::decimal(502));
    assoc::lemma_put(m6, "webex.hasAttachments"@, bool_text(false));
    assert(assoc::lookup(m6, "webex.ingestError"@) == assoc::lookup(m5, "webex.ingestError"@));
    assert(assoc::lookup(m7, "webex.ingestError"@) == assoc::lookup(m6, "webex.ingestError"@));
}

} // verus!
