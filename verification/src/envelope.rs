//! The channel message envelope and the values it is made of, with the JSON
//! form in which they travel between the host and a provider module.

use vstd::prelude::*;
use crate::assoc;
use crate::json;
use crate::json::{Json, JsonV};

verus! {

/// Who sent a message.
#[derive(Debug, Clone, PartialEq, Eq)]
pub struct Actor {
    pub id: String,
    pub kind: Option<String>,
}

/// Where a message goes.
#[derive(Debug, Clone, PartialEq, Eq)]
pub struct Destination {
    pub id: String,
    pub kind: Option<String>,
}

/// Something attached to a message.
#[derive(Debug, Clone, PartialEq, Eq)]
pub struct Attachment {
    pub mime_type: String,
    pub url: String,
    pub name: Option<String>,
    pub size_bytes: Option<u64>,
}

/// The environment and tenant that a message belongs to.
#[derive(Debug, Clone, PartialEq, Eq)]
pub struct TenantCtx {
    pub env: String,
    pub tenant: String,
}

/// One message, in the form that every channel shares.
#[derive(Debug, Clone, PartialEq, Eq)]
pub struct ChannelMessageEnvelope {
    pub id: String,
    pub tenant: TenantCtx,
    pub channel: String,
    pub session_id: String,
    pub from: Option<Actor>,
    pub to: Vec<Destination>,
    pub correlation_id: Option<String>,
    pub text: Option<String>,
    pub attachments: Vec<Attachment>,
    pub metadata: Vec<(String, String)>,
}

/// The value of an [`Actor`] or a [`Destination`].
pub ghost struct PartyV {
    pub id: Seq<char>,
    pub kind: Option<Seq<char>>,
}

pub ghost struct AttachmentV {
    pub mime_type: Seq<char>,
    pub url: Seq<char>,
    pub name: Option<Seq<char>>,
    pub size_bytes: Option<u64>,
}

pub ghost struct EnvelopeV {
    pub id: Seq<char>,
    pub env: Seq<char>,
    pub tenant: Seq<char>,
    pub channel: Seq<char>,
    pub session_id: Seq<char>,
    pub from: Option<PartyV>,
    pub to: Seq<PartyV>,
    pub correlation_id: Option<Seq<char>>,
    pub text: Option<Seq<char>>,
    pub attachments: Seq<AttachmentV>,
    pub metadata: Seq<(Seq<char>, Seq<char>)>,
}

impl View for Actor {
    type V = PartyV;

    open spec fn view(&self) -> PartyV {
        PartyV { id: self.id@, kind: json::opt_view(self.kind) }
    }
}

impl View for Destination {
    type V = PartyV;

    open spec fn view(&self) -> PartyV {
        PartyV { id: self.id@, kind: json::opt_view(self.kind) }
    }
}

impl View for Attachment {
    type V = AttachmentV;

    open spec fn view(&self) -> AttachmentV {
        AttachmentV {
            mime_type: self.mime_type@,
            url: self.url@,
            name: json::opt_view(self.name),
            size_bytes: self.size_bytes,
        }
    }
}

/// The view of an optional sender.
pub open spec fn opt_actor(a: Option<Actor>) -> Option<PartyV> {
    match a {
        Some(x) => Some(x@),
        None => None,
    }
}

/// The views of a list of destinations.
pub open spec fn destinations_view(s: Seq<Destination>) -> Seq<PartyV> {
    Seq::new(s.len(), |i: int| s[i]@)
}

/// The views of a list of attachments.
pub open spec fn attachments_view(s: Seq<Attachment>) -> Seq<AttachmentV> {
    Seq::new(s.len(), |i: int| s[i]@)
}

impl View for ChannelMessageEnvelope {
    type V = EnvelopeV;

    open spec fn view(&self) -> EnvelopeV {
        EnvelopeV {
            id: self.id@,
            env: self.tenant.env@,
            tenant: self.tenant.tenant@,
            channel: self.channel@,
            session_id: self.session_id@,
            from: opt_actor(self.from),
            to: destinations_view(self.to@),
            correlation_id: json::opt_view(self.correlation_id),
            text: json::opt_view(self.text),
            attachments: attachments_view(self.attachments@),
            metadata: assoc::entries_view(self.metadata@),
        }
    }
}

/// Whether the metadata of the envelope holds every key once.
pub open spec fn well_formed(e: EnvelopeV) -> bool {
    assoc::unique_keys(e.metadata)
}

/// `o` with the string member `key`, where `value` is present.
pub open spec fn with_opt_str(
    o: Seq<(Seq<char>, JsonV)>,
    key: Seq<char>,
    value: Option<Seq<char>>,
) -> Seq<(Seq<char>, JsonV)> {
    match value {
        Some(t) => o.push((key, JsonV::Str(t))),
        None => o,
    }
}

/// The JSON form of a sender or destination.
pub open spec fn party_json(p: PartyV) -> JsonV {
    JsonV::Object(
        with_opt_str(Seq::empty().push(("id"@, JsonV::Str(p.id))), "kind"@, p.kind),
    )
}

/// The JSON form of an attachment.
pub open spec fn attachment_json(a: AttachmentV) -> JsonV {
    let o = with_opt_str(
        Seq::empty().push(("mime_type"@, JsonV::Str(a.mime_type))).push(
            ("url"@, JsonV::Str(a.url)),
        ),
        "name"@,
        a.name,
    );
    JsonV::Object(
        match a.size_bytes {
            Some(n) => o.push(("size_bytes"@, JsonV::Number(crate::text::decimal(n as nat)))),
            None => o,
        },
    )
}

/// The JSON form of a tenant context: a first attempt in `env` for `tenant`.
pub open spec fn tenant_json(env: Seq<char>, tenant: Seq<char>) -> JsonV {
    JsonV::Object(
        Seq::empty().push(("env"@, JsonV::Str(env))).push(("tenant"@, JsonV::Str(tenant))).push(
            ("tenant_id"@, JsonV::Str(tenant)),
        ).push(("attempt"@, JsonV::Number(seq!['0']))),
    )
}

/// The JSON forms of `s`.
pub open spec fn parties_json(s: Seq<PartyV>) -> Seq<JsonV> {
    Seq::new(s.len(), |i: int| party_json(s[i]))
}

/// The JSON forms of `s`.
pub open spec fn attachments_json(s: Seq<AttachmentV>) -> Seq<JsonV> {
    Seq::new(s.len(), |i: int| attachment_json(s[i]))
}

/// The JSON form of an envelope. Members that hold nothing are left out,
/// but for the metadata.
pub open spec fn envelope_json(e: EnvelopeV) -> JsonV {
    let o0 = Seq::empty().push(("id"@, JsonV::Str(e.id))).push(
        ("tenant"@, tenant_json(e.env, e.tenant)),
    ).push(("channel"@, JsonV::Str(e.channel))).push(("session_id"@, JsonV::Str(e.session_id)));
    let o1 = match e.from {
        Some(p) => o0.push(("from"@, party_json(p))),
        None => o0,
    };
    let o2 = if e.to.len() > 0 {
        o1.push(("to"@, JsonV::Array(parties_json(e.to))))
    } else {
        o1
    };
    let o3 = with_opt_str(with_opt_str(o2, "correlation_id"@, e.correlation_id), "text"@, e.text);
    let o4 = if e.attachments.len() > 0 {
        o3.push(("attachments"@, JsonV::Array(attachments_json(e.attachments))))
    } else {
        o3
    };
    JsonV::Object(o4.push(("metadata"@, json::text_map(e.metadata))))
}

/// The sender or destination that `j` describes: an object with a string
/// `id` and, if any, a string `kind`.
pub open spec fn decode_party(j: JsonV) -> Option<PartyV> {
    match (j.str_at("id"@), json::opt_str_at(j, "kind"@)) {
        (Some(id), Some(kind)) => Some(PartyV { id, kind }),
        _ => None,
    }
}

/// The attachment that `j` describes.
pub open spec fn decode_attachment(j: JsonV) -> Option<AttachmentV> {
    match (
        j.str_at("mime_type"@),
        j.str_at("url"@),
        json::opt_str_at(j, "name"@),
        json::opt_u64_at(j, "size_bytes"@),
    ) {
        (Some(mime_type), Some(url), Some(name), Some(size_bytes)) => Some(
            AttachmentV { mime_type, url, name, size_bytes },
        ),
        _ => None,
    }
}

/// The parties that the member `j` lists: none where it is missing, each
/// item of an array otherwise.
pub open spec fn decode_parties(j: Option<JsonV>) -> Option<Seq<PartyV>> {
    match j {
        None => Some(Seq::empty()),
        Some(JsonV::Array(items)) => if forall|i: int|
            0 <= i < items.len() ==> decode_party(#[trigger] items[i]) is Some {
            Some(Seq::new(items.len(), |i: int| decode_party(items[i])->0))
        } else {
            None
        },
        Some(_) => None,
    }
}

/// The attachments that the member `j` lists.
pub open spec fn decode_attachments(j: Option<JsonV>) -> Option<Seq<AttachmentV>> {
    match j {
        None => Some(Seq::empty()),
        Some(JsonV::Array(items)) => if forall|i: int|
            0 <= i < items.len() ==> decode_attachment(#[trigger] items[i]) is Some {
            Some(Seq::new(items.len(), |i: int| decode_attachment(items[i])->0))
        } else {
            None
        },
        Some(_) => None,
    }
}

/// The sender that the member `j` holds: none where it is missing or null.
pub open spec fn decode_sender(j: Option<JsonV>) -> Option<Option<PartyV>> {
    match j {
        None => Some(None),
        Some(JsonV::Null) => Some(None),
        Some(v) => match decode_party(v) {
            Some(p) => Some(Some(p)),
            None => None,
        },
    }
}

/// The metadata that the member `j` holds: none where it is missing.
pub open spec fn decode_metadata(j: Option<JsonV>) -> Option<Seq<(Seq<char>, Seq<char>)>> {
    match j {
        None => Some(Seq::empty()),
        Some(v) => json::as_text_map(v),
    }
}

/// The environment and tenant that the member `j` holds.
pub open spec fn decode_tenant(j: Option<JsonV>) -> Option<(Seq<char>, Seq<char>)> {
    match j {
        Some(v) => match (v.str_at("env"@), v.str_at("tenant"@)) {
            (Some(env), Some(tenant)) => Some((env, tenant)),
            _ => None,
        },
        None => None,
    }
}

/// The envelope that `j` describes, where it describes one: `id`, `tenant`,
/// `channel` and `session_id` are required, the other members are optional,
/// and every member that is present is of its kind.
pub open spec fn decode_envelope(j: JsonV) -> Option<EnvelopeV> {
    match (
        j.str_at("id"@),
        decode_tenant(j.get("tenant"@)),
        j.str_at("channel"@),
        j.str_at("session_id"@),
        decode_sender(j.get("from"@)),
    ) {
        (Some(id), Some(tenant), Some(channel), Some(session_id), Some(from)) => match (
            decode_parties(j.get("to"@)),
            json::opt_str_at(j, "correlation_id"@),
            json::opt_str_at(j, "text"@),
            decode_attachments(j.get("attachments"@)),
            decode_metadata(j.get("metadata"@)),
        ) {
            (Some(to), Some(correlation_id), Some(text), Some(attachments), Some(metadata)) => Some(
                EnvelopeV {
                    id,
                    env: tenant.0,
                    tenant: tenant.1,
                    channel,
                    session_id,
                    from,
                    to,
                    correlation_id,
                    text,
                    attachments,
                    metadata,
                },
            ),
            _ => None,
        },
        _ => None,
    }
}

/// A copy of an optional string.
pub fn clone_opt(t: &Option<String>) -> (r: Option<String>)
    ensures
        r == *t,
{
    match t {
        Some(s) => Some(s.clone()),
        None => None,
    }
}

fn push_opt_str(entries: &mut Vec<(String, Json)>, key: &str, value: &Option<String>)
    ensures
        assoc::entries_view(final(entries)@) == with_opt_str(
            assoc::entries_view(old(entries)@),
            key@,
            json::opt_view(*value),
        ),
{
    match value {
        Some(t) => {
            json::push_member(entries, key, Json::Str(t.clone()));
        },
        None => {},
    }
}

fn party_to_json(id: &String, kind: &Option<String>) -> (r: Json)
    ensures
        r@ == party_json(PartyV { id: id@, kind: json::opt_view(*kind) }),
{
    let mut o = json::no_members();
    json::push_member(&mut o, "id", Json::Str(id.clone()));
    push_opt_str(&mut o, "kind", kind);
    json::object(o)
}

fn party_from_json(j: &Json) -> (r: Option<(String, Option<String>)>)
    ensures
        match r {
            Some(p) => decode_party(j@) == Some(PartyV { id: p.0@, kind: json::opt_view(p.1) }),
            None => decode_party(j@) is None,
        },
{
    let id = match j.str_at("id") {
        Some(t) => t,
        None => {
            return None;
        },
    };
    let kind = match json::read_opt_str(j, "kind") {
        Some(k) => k,
        None => {
            return None;
        },
    };
    Some((id, kind))
}

impl Actor {
    /// A copy of this sender.
    pub fn duplicate(&self) -> (r: Actor)
        ensures
            r@ == self@,
    {
        Actor { id: self.id.clone(), kind: clone_opt(&self.kind) }
    }

    /// The JSON form of this sender.
    pub fn to_json(&self) -> (r: Json)
        ensures
            r@ == party_json(self@),
    {
        party_to_json(&self.id, &self.kind)
    }

    /// The sender that `j` describes.
    pub fn from_json(j: &Json) -> (r: Option<Actor>)
        ensures
            opt_actor(r) == decode_party(j@),
    {
        match party_from_json(j) {
            Some((id, kind)) => Some(Actor { id, kind }),
            None => None,
        }
    }
}

impl Destination {
    /// A copy of this destination.
    pub fn duplicate(&self) -> (r: Destination)
        ensures
            r@ == self@,
    {
        Destination { id: self.id.clone(), kind: clone_opt(&self.kind) }
    }

    /// The JSON form of this destination.
    pub fn to_json(&self) -> (r: Json)
        ensures
            r@ == party_json(self@),
    {
        party_to_json(&self.id, &self.kind)
    }

    /// The destination that `j` describes.
    pub fn from_json(j: &Json) -> (r: Option<Destination>)
        ensures
            match r {
                Some(d) => decode_party(j@) == Some(d@),
                None => decode_party(j@) is None,
            },
    {
        match party_from_json(j) {
            Some((id, kind)) => Some(Destination { id, kind }),
            None => None,
        }
    }
}

impl Attachment {
    /// A copy of this attachment.
    pub fn duplicate(&self) -> (r: Attachment)
        ensures
            r@ == self@,
    {
        Attachment {
            mime_type: self.mime_type.clone(),
            url: self.url.clone(),
            name: clone_opt(&self.name),
            size_bytes: self.size_bytes,
        }
    }

    /// The JSON form of this attachment.
    pub fn to_json(&self) -> (r: Json)
        ensures
            r@ == attachment_json(self@),
    {
        let mut o = json::no_members();
        json::push_member(&mut o, "mime_type", Json::Str(self.mime_type.clone()));
        json::push_member(&mut o, "url", Json::Str(self.url.clone()));
        push_opt_str(&mut o, "name", &self.name);
        match self.size_bytes {
            Some(n) => {
                json::push_member(&mut o, "size_bytes", Json::from_u64(n));
            },
            None => {},
        }
        json::object(o)
    }

    /// The attachment that `j` describes.
    pub fn from_json(j: &Json) -> (r: Option<Attachment>)
        ensures
            match r {
                Some(a) => decode_attachment(j@) == Some(a@),
                None => decode_attachment(j@) is None,
            },
    {
        let mime_type = match j.str_at("mime_type") {
            Some(t) => t,
            None => {
                return None;
            },
        };
        let url = match j.str_at("url") {
            Some(t) => t,
            None => {
                return None;
            },
        };
        let name = match json::read_opt_str(j, "name") {
            Some(t) => t,
            None => {
                return None;
            },
        };
        let size_bytes = match json::read_opt_u64(j, "size_bytes") {
            Some(t) => t,
            None => {
                return None;
            },
        };
        Some(Attachment { mime_type, url, name, size_bytes })
    }
}

/// A copy of a list of destinations.
pub fn clone_destinations(v: &Vec<Destination>) -> (r: Vec<Destination>)
    ensures
        destinations_view(r@) == destinations_view(v@),
{
    let mut r: Vec<Destination> = Vec::new();
    let mut i: usize = 0;
    while i < v.len()
        invariant
            i <= v.len(),
            r@.len() == i,
            forall|k: int| 0 <= k < i ==> r@[k]@ == v@[k]@,
        decreases v.len() - i,
    {
        r.push(v[i].duplicate());
        i += 1;
    }
    assert(destinations_view(r@) =~= destinations_view(v@));
    r
}

/// A copy of a list of attachments.
pub fn clone_attachments(v: &Vec<Attachment>) -> (r: Vec<Attachment>)
    ensures
        attachments_view(r@) == attachments_view(v@),
{
    let mut r: Vec<Attachment> = Vec::new();
    let mut i: usize = 0;
    while i < v.len()
        invariant
            i <= v.len(),
            r@.len() == i,
            forall|k: int| 0 <= k < i ==> r@[k]@ == v@[k]@,
        decreases v.len() - i,
    {
        r.push(v[i].duplicate());
        i += 1;
    }
    assert(attachments_view(r@) =~= attachments_view(v@));
    r
}

fn destinations_to_json(v: &Vec<Destination>) -> (r: Json)
    ensures
        r@ == JsonV::Array(parties_json(destinations_view(v@))),
{
    let mut items: Vec<Json> = Vec::new();
    let mut i: usize = 0;
    while i < v.len()
        invariant
            i <= v.len(),
            items@.len() == i,
            forall|k: int| 0 <= k < i ==> items@[k]@ == party_json(v@[k]@),
        decreases v.len() - i,
    {
        items.push(v[i].to_json());
        i += 1;
    }
    assert(json::items_view(items@) =~= parties_json(destinations_view(v@)));
    json::array(items)
}

fn attachments_to_json(v: &Vec<Attachment>) -> (r: Json)
    ensures
        r@ == JsonV::Array(attachments_json(attachments_view(v@))),
{
    let mut items: Vec<Json> = Vec::new();
    let mut i: usize = 0;
    while i < v.len()
        invariant
            i <= v.len(),
            items@.len() == i,
            forall|k: int| 0 <= k < i ==> items@[k]@ == attachment_json(v@[k]@),
        decreases v.len() - i,
    {
        items.push(v[i].to_json());
        i += 1;
    }
    assert(json::items_view(items@) =~= attachments_json(attachments_view(v@)));
    json::array(items)
}

fn destinations_from_json(j: Option<&Json>) -> (r: Option<Vec<Destination>>)
    ensures
        match r {
            Some(v) => decode_parties(json_opt(j)) == Some(destinations_view(v@)),
            None => decode_parties(json_opt(j)) is None,
        },
{
    let value = match j {
        None => {
            let v: Vec<Destination> = Vec::new();
            assert(destinations_view(v@) =~= Seq::empty());
            return Some(v);
        },
        Some(value) => value,
    };
    match value.as_array() {
        None => None,
        Some(items) => {
            let mut out: Vec<Destination> = Vec::new();
            let mut i: usize = 0;
            while i < items.len()
                invariant
                    i <= items.len(),
                    out@.len() == i,
                    value@ == JsonV::Array(json::items_view(items@)),
                    json_opt(j) == Some(value@),
                    forall|k: int|
                        0 <= k < i ==> decode_party(#[trigger] json::items_view(items@)[k])
                            == Some(out@[k]@),
                decreases items.len() - i,
            {
                match Destination::from_json(&items[i]) {
                    Some(d) => {
                        out.push(d);
                    },
                    None => {
                        assert(decode_party(json::items_view(items@)[i as int]) is None);
                        return None;
                    },
                }
                i += 1;
            }
            assert(decode_parties(Some(value@)) is Some);
            assert(destinations_view(out@) =~= decode_parties(Some(value@))->0);
            Some(out)
        },
    }
}

fn attachments_from_json(j: Option<&Json>) -> (r: Option<Vec<Attachment>>)
    ensures
        match r {
            Some(v) => decode_attachments(json_opt(j)) == Some(attachments_view(v@)),
            None => decode_attachments(json_opt(j)) is None,
        },
{
    let value = match j {
        None => {
            let v: Vec<Attachment> = Vec::new();
            assert(attachments_view(v@) =~= Seq::empty());
            return Some(v);
        },
        Some(value) => value,
    };
    match value.as_array() {
        None => None,
        Some(items) => {
            let mut out: Vec<Attachment> = Vec::new();
            let mut i: usize = 0;
            while i < items.len()
                invariant
                    i <= items.len(),
                    out@.len() == i,
                    value@ == JsonV::Array(json::items_view(items@)),
                    json_opt(j) == Some(value@),
                    forall|k: int|
                        0 <= k < i ==> decode_attachment(#[trigger] json::items_view(items@)[k])
                            == Some(out@[k]@),
                decreases items.len() - i,
            {
                match Attachment::from_json(&items[i]) {
                    Some(d) => {
                        out.push(d);
                    },
                    None => {
                        assert(decode_attachment(json::items_view(items@)[i as int]) is None);
                        return None;
                    },
                }
                i += 1;
            }
            assert(decode_attachments(Some(value@)) is Some);
            assert(attachments_view(out@) =~= decode_attachments(Some(value@))->0);
            Some(out)
        },
    }
}

/// The view of an optional value.
pub open spec fn json_opt(j: Option<&Json>) -> Option<JsonV> {
    match j {
        Some(v) => Some(v@),
        None => None,
    }
}

impl TenantCtx {
    /// The context of `tenant` in `env`.
    pub fn new(env: &str, tenant: &str) -> (r: TenantCtx)
        ensures
            r.env@ == env@,
            r.tenant@ == tenant@,
    {
        TenantCtx { env: env.to_owned(), tenant: tenant.to_owned() }
    }

    /// The JSON form of this context.
    pub fn to_json(&self) -> (r: Json)
        ensures
            r@ == tenant_json(self.env@, self.tenant@),
    {
        let mut o = json::no_members();
        json::push_member(&mut o, "env", Json::Str(self.env.clone()));
        json::push_member(&mut o, "tenant", Json::Str(self.tenant.clone()));
        json::push_member(&mut o, "tenant_id", Json::Str(self.tenant.clone()));
        let zero = Json::from_u64(0);
        assert(crate::text::decimal(0) =~= seq!['0']) by {
            reveal_with_fuel(crate::text::decimal, 2);
        }
        json::push_member(&mut o, "attempt", zero);
        json::object(o)
    }
}

impl ChannelMessageEnvelope {
    /// A copy of this envelope.
    pub fn duplicate(&self) -> (r: ChannelMessageEnvelope)
        ensures
            r@ == self@,
    {
        ChannelMessageEnvelope {
            id: self.id.clone(),
            tenant: TenantCtx { env: self.tenant.env.clone(), tenant: self.tenant.tenant.clone() },
            channel: self.channel.clone(),
            session_id: self.session_id.clone(),
            from: match &self.from {
                Some(a) => Some(a.duplicate()),
                None => None,
            },
            to: clone_destinations(&self.to),
            correlation_id: clone_opt(&self.correlation_id),
            text: clone_opt(&self.text),
            attachments: clone_attachments(&self.attachments),
            metadata: assoc::clone_pairs(&self.metadata),
        }
    }

    /// The JSON form of this envelope.
    pub fn to_json(&self) -> (r: Json)
        ensures
            r@ == envelope_json(self@),
    {
        let mut o = json::no_members();
        json::push_member(&mut o, "id", Json::Str(self.id.clone()));
        json::push_member(&mut o, "tenant", self.tenant.to_json());
        json::push_member(&mut o, "channel", Json::Str(self.channel.clone()));
        json::push_member(&mut o, "session_id", Json::Str(self.session_id.clone()));
        match &self.from {
            Some(a) => {
                json::push_member(&mut o, "from", a.to_json());
            },
            None => {},
        }
        if self.to.len() > 0 {
            json::push_member(&mut o, "to", destinations_to_json(&self.to));
        }
        push_opt_str(&mut o, "correlation_id", &self.correlation_id);
        push_opt_str(&mut o, "text", &self.text);
        if self.attachments.len() > 0 {
            json::push_member(&mut o, "attachments", attachments_to_json(&self.attachments));
        }
        json::push_member(&mut o, "metadata", json::text_map_json(&self.metadata));
        json::object(o)
    }

    /// The envelope that `j` describes, where it describes one. Its
    /// metadata holds every key once.
    pub fn from_json(j: &Json) -> (r: Option<ChannelMessageEnvelope>)
        ensures
            match r {
                Some(e) => decode_envelope(j@) == Some(e@) && well_formed(e@),
                None => decode_envelope(j@) is None,
            },
    {
        let id = match j.str_at("id") {
            Some(t) => t,
            None => {
                return None;
            },
        };
        let tenant = match j.get("tenant") {
            Some(t) => match (t.str_at("env"), t.str_at("tenant")) {
                (Some(env), Some(tenant)) => TenantCtx { env, tenant },
                _ => {
                    return None;
                },
            },
            None => {
                return None;
            },
        };
        let channel = match j.str_at("channel") {
            Some(t) => t,
            None => {
                return None;
            },
        };
        let session_id = match j.str_at("session_id") {
            Some(t) => t,
            None => {
                return None;
            },
        };
        let from = match j.get("from") {
            None => None,
            Some(Json::Null) => None,
            Some(v) => match Actor::from_json(v) {
                Some(a) => Some(a),
                None => {
                    return None;
                },
            },
        };
        let to = match destinations_from_json(j.get("to")) {
            Some(v) => v,
            None => {
                return None;
            },
        };
        let correlation_id = match json::read_opt_str(j, "correlation_id") {
            Some(t) => t,
            None => {
                return None;
            },
        };
        let text = match json::read_opt_str(j, "text") {
            Some(t) => t,
            None => {
                return None;
            },
        };
        let attachments = match attachments_from_json(j.get("attachments")) {
            Some(v) => v,
            None => {
                return None;
            },
        };
        let metadata = match j.get("metadata") {
            None => {
                let m: Vec<(String, String)> = Vec::new();
                assert(assoc::entries_view(m@) =~= Seq::empty());
                m
            },
            Some(v) => match json::read_text_map(v) {
                Some(m) => m,
                None => {
                    return None;
                },
            },
        };
        Some(
            ChannelMessageEnvelope {
                id,
                tenant,
                channel,
                session_id,
                from,
                to,
                correlation_id,
                text,
                attachments,
                metadata,
            },
        )
    }
}

/// Reading a member that may be left out, after `with_opt_str` has written it or not.
pub proof fn lemma_with_opt_str(o: Seq<(Seq<char>, JsonV)>, k: Seq<char>, v: Option<Seq<char>>)
    ensures
        forall|key: Seq<char>|
            #![trigger assoc::lookup(with_opt_str(o, k, v), key)]
            assoc::lookup(with_opt_str(o, k, v), key) == if key == k && v is Some {
                Some(JsonV::Str(v->0))
            } else {
                assoc::lookup(o, key)
            },
{
    match v {
        Some(t) => {
            assoc::lemma_lookup_push(o, k, JsonV::Str(t));
        },
        None => {},
    }
}

/// The names of the members of an envelope and of its parts differ from each other.
proof fn lemma_member_names()
    ensures
        "id"@ != "kind"@,
        "mime_type"@ != "url"@,
        "mime_type"@ != "name"@,
        "mime_type"@ != "size_bytes"@,
        "url"@ != "name"@,
        "url"@ != "size_bytes"@,
        "name"@ != "size_bytes"@,
        "env"@ != "tenant"@,
        "env"@ != "tenant_id"@,
        "env"@ != "attempt"@,
        "tenant"@ != "tenant_id"@,
        "tenant"@ != "attempt"@,
        "id"@ != "tenant"@,
        "id"@ != "channel"@,
        "id"@ != "session_id"@,
        "id"@ != "from"@,
        "id"@ != "to"@,
        "id"@ != "correlation_id"@,
        "id"@ != "text"@,
        "id"@ != "attachments"@,
        "id"@ != "metadata"@,
        "tenant"@ != "channel"@,
        "tenant"@ != "session_id"@,
        "tenant"@ != "from"@,
        "tenant"@ != "to"@,
        "tenant"@ != "correlation_id"@,
        "tenant"@ != "text"@,
        "tenant"@ != "attachments"@,
        "tenant"@ != "metadata"@,
        "channel"@ != "session_id"@,
        "channel"@ != "from"@,
        "channel"@ != "to"@,
        "channel"@ != "correlation_id"@,
        "channel"@ != "text"@,
        "channel"@ != "attachments"@,
        "channel"@ != "metadata"@,
        "session_id"@ != "from"@,
        "session_id"@ != "to"@,
        "session_id"@ != "correlation_id"@,
        "session_id"@ != "text"@,
        "session_id"@ != "attachments"@,
        "session_id"@ != "metadata"@,
        "from"@ != "to"@,
        "from"@ != "correlation_id"@,
        "from"@ != "text"@,
        "from"@ != "attachments"@,
        "from"@ != "metadata"@,
        "to"@ != "correlation_id"@,
        "to"@ != "text"@,
        "to"@ != "attachments"@,
        "to"@ != "metadata"@,
        "correlation_id"@ != "text"@,
        "correlation_id"@ != "attachments"@,
        "correlation_id"@ != "metadata"@,
        "text"@ != "attachments"@,
        "text"@ != "metadata"@,
        "attachments"@ != "metadata"@,
{
    reveal_strlit("id");
    reveal_strlit("kind");
    reveal_strlit("mime_type");
    reveal_strlit("url");
    reveal_strlit("name");
    reveal_strlit("size_bytes");
    reveal_strlit("env");
    reveal_strlit("tenant");
    reveal_strlit("tenant_id");
    reveal_strlit("attempt");
    reveal_strlit("channel");
    reveal_strlit("session_id");
    reveal_strlit("from");
    reveal_strlit("to");
    reveal_strlit("correlation_id");
    reveal_strlit("text");
    reveal_strlit("attachments");
    reveal_strlit("metadata");
    assert("id"@[0] == 'i' && "to"@[0] == 't');
    assert("from"@[0] == 'f' && "text"@[0] == 't' && "name"@[0] == 'n' && "kind"@[0] == 'k');
    assert("url"@[0] == 'u' && "env"@[0] == 'e');
    assert("id"@.len() == 2 && "to"@.len() == 2 && "from"@.len() == 4 && "text"@.len() == 4);
    assert("tenant"@.len() == 6 && "channel"@.len() == 7 && "attempt"@.len() == 7);
    assert("session_id"@.len() == 10 && "size_bytes"@.len() == 10 && "metadata"@.len() == 8);
    assert("correlation_id"@.len() == 14 && "attachments"@.len() == 11);
    assert("mime_type"@.len() == 9 && "tenant_id"@.len() == 9 && "url"@.len() == 3);
    assert("name"@.len() == 4 && "kind"@.len() == 4 && "env"@.len() == 3);
}

/// The JSON form of a sender or destination reads back as what it was written for.
pub proof fn lemma_party_round_trip(p: PartyV)
    ensures
        decode_party(party_json(p)) == Some(p),
{
    lemma_member_names();
    let o0 = Seq::<(Seq<char>, JsonV)>::empty().push(("id"@, JsonV::Str(p.id)));
    assoc::lemma_lookup_push(Seq::<(Seq<char>, JsonV)>::empty(), "id"@, JsonV::Str(p.id));
    lemma_with_opt_str(o0, "kind"@, p.kind);
    let j = party_json(p);
    assert(j.get("id"@) == Some(JsonV::Str(p.id)));
    assert(json::opt_str_at(j, "kind"@) == Some(p.kind));
}

/// The JSON form of an attachment reads back as what it was written for.
pub proof fn lemma_attachment_round_trip(a: AttachmentV)
    ensures
        decode_attachment(attachment_json(a)) == Some(a),
{
    lemma_member_names();
    let e = Seq::<(Seq<char>, JsonV)>::empty();
    let o0 = e.push(("mime_type"@, JsonV::Str(a.mime_type)));
    let o1 = o0.push(("url"@, JsonV::Str(a.url)));
    let o2 = with_opt_str(o1, "name"@, a.name);
    assoc::lemma_lookup_push(e, "mime_type"@, JsonV::Str(a.mime_type));
    assoc::lemma_lookup_push(o0, "url"@, JsonV::Str(a.url));
    lemma_with_opt_str(o1, "name"@, a.name);
    let j = attachment_json(a);
    match a.size_bytes {
        Some(n) => {
            assoc::lemma_lookup_push(
                o2,
                "size_bytes"@,
                JsonV::Number(crate::text::decimal(n as nat)),
            );
            crate::text::lemma_u64_round_trip(n);
        },
        None => {},
    }
    assert(j.get("mime_type"@) == Some(JsonV::Str(a.mime_type)));
    assert(j.get("url"@) == Some(JsonV::Str(a.url)));
    assert(json::opt_str_at(j, "name"@) == Some(a.name));
    assert(json::opt_u64_at(j, "size_bytes"@) == Some(a.size_bytes));
}

/// The JSON form of a tenant context reads back as the environment and tenant.
pub proof fn lemma_tenant_round_trip(env: Seq<char>, tenant: Seq<char>)
    ensures
        decode_tenant(Some(tenant_json(env, tenant))) == Some((env, tenant)),
{
    lemma_member_names();
    let e = Seq::<(Seq<char>, JsonV)>::empty();
    let o0 = e.push(("env"@, JsonV::Str(env)));
    let o1 = o0.push(("tenant"@, JsonV::Str(tenant)));
    let o2 = o1.push(("tenant_id"@, JsonV::Str(tenant)));
    assoc::lemma_lookup_push(e, "env"@, JsonV::Str(env));
    assoc::lemma_lookup_push(o0, "tenant"@, JsonV::Str(tenant));
    assoc::lemma_lookup_push(o1, "tenant_id"@, JsonV::Str(tenant));
    assoc::lemma_lookup_push(o2, "attempt"@, JsonV::Number(seq!['0']));
    let j = tenant_json(env, tenant);
    assert(j.get("env"@) == Some(JsonV::Str(env)));
    assert(j.get("tenant"@) == Some(JsonV::Str(tenant)));
}

/// The JSON form of an envelope whose metadata holds every key once reads
/// back as the envelope.
pub proof fn lemma_envelope_round_trip(e: EnvelopeV)
    requires
        well_formed(e),
    ensures
        decode_envelope(envelope_json(e)) == Some(e),
{
    lemma_member_names();
    lemma_tenant_round_trip(e.env, e.tenant);
    let none = Seq::<(Seq<char>, JsonV)>::empty();
    let a0 = none.push(("id"@, JsonV::Str(e.id)));
    let a1 = a0.push(("tenant"@, tenant_json(e.env, e.tenant)));
    let a2 = a1.push(("channel"@, JsonV::Str(e.channel)));
    let o0 = a2.push(("session_id"@, JsonV::Str(e.session_id)));
    let o1 = match e.from {
        Some(p) => o0.push(("from"@, party_json(p))),
        None => o0,
    };
    let o2 = if e.to.len() > 0 {
        o1.push(("to"@, JsonV::Array(parties_json(e.to))))
    } else {
        o1
    };
    let o2b = with_opt_str(o2, "correlation_id"@, e.correlation_id);
    let o3 = with_opt_str(o2b, "text"@, e.text);
    let o4 = if e.attachments.len() > 0 {
        o3.push(("attachments"@, JsonV::Array(attachments_json(e.attachments))))
    } else {
        o3
    };
    let all = o4.push(("metadata"@, json::text_map(e.metadata)));
    let j = envelope_json(e);
    assert(j == JsonV::Object(all));
    assoc::lemma_lookup_push(none, "id"@, JsonV::Str(e.id));
    assoc::lemma_lookup_push(a0, "tenant"@, tenant_json(e.env, e.tenant));
    assoc::lemma_lookup_push(a1, "channel"@, JsonV::Str(e.channel));
    assoc::lemma_lookup_push(a2, "session_id"@, JsonV::Str(e.session_id));
    match e.from {
        Some(p) => {
            assoc::lemma_lookup_push(o0, "from"@, party_json(p));
            lemma_party_round_trip(p);
        },
        None => {},
    }
    if e.to.len() > 0 {
        assoc::lemma_lookup_push(o1, "to"@, JsonV::Array(parties_json(e.to)));
    }
    lemma_with_opt_str(o2, "correlation_id"@, e.correlation_id);
    lemma_with_opt_str(o2b, "text"@, e.text);
    if e.attachments.len() > 0 {
        assoc::lemma_lookup_push(
            o3,
            "attachments"@,
            JsonV::Array(attachments_json(e.attachments)),
        );
    }
    assoc::lemma_lookup_push(o4, "metadata"@, json::text_map(e.metadata));

    assert(j.get("id"@) == Some(JsonV::Str(e.id)));
    assert(j.get("tenant"@) == Some(tenant_json(e.env, e.tenant)));
    assert(j.get("channel"@) == Some(JsonV::Str(e.channel)));
    assert(j.get("session_id"@) == Some(JsonV::Str(e.session_id)));
    assert(decode_sender(j.get("from"@)) == Some(e.from));
    assert(decode_parties(j.get("to"@)) == Some(e.to)) by {
        if e.to.len() > 0 {
            let items = parties_json(e.to);
            assert(j.get("to"@) == Some(JsonV::Array(items)));
            assert forall|i: int| 0 <= i < items.len() implies decode_party(#[trigger] items[i])
                == Some(e.to[i]) by {
                lemma_party_round_trip(e.to[i]);
            }
            assert(Seq::new(items.len(), |i: int| decode_party(items[i])->0) =~= e.to);
        } else {
            assert(j.get("to"@) is None);
            assert(e.to =~= Seq::empty());
        }
    }
    assert(json::opt_str_at(j, "correlation_id"@) == Some(e.correlation_id));
    assert(json::opt_str_at(j, "text"@) == Some(e.text));
    assert(decode_attachments(j.get("attachments"@)) == Some(e.attachments)) by {
        if e.attachments.len() > 0 {
            let items = attachments_json(e.attachments);
            assert(j.get("attachments"@) == Some(JsonV::Array(items)));
            assert forall|i: int| 0 <= i < items.len() implies decode_attachment(
                #[trigger] items[i],
            ) == Some(e.attachments[i]) by {
                lemma_attachment_round_trip(e.attachments[i]);
            }
            assert(Seq::new(items.len(), |i: int| decode_attachment(items[i])->0)
                =~= e.attachments);
        } else {
            assert(j.get("attachments"@) is None);
            assert(e.attachments =~= Seq::empty());
        }
    }
    assert(decode_metadata(j.get("metadata"@)) == Some(e.metadata)) by {
        assert(j.get("metadata"@) == Some(json::text_map(e.metadata)));
        json::lemma_text_map_round_trip(e.metadata);
    }
}

} // verus!
