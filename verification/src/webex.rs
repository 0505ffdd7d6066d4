//! The Webex provider: how a message envelope becomes a call to the Webex
//! message endpoint, and how a Webex webhook becomes an envelope.

use vstd::prelude::*;

pub mod direct;
pub mod ingest;
pub mod ops;
pub mod send;

use crate::assoc;
use crate::host::{HostV, TestHostState};
use crate::json;
use crate::json::{Json, JsonV};
use crate::text;

verus! {

/// The type that this provider declares.
pub open spec fn provider_type() -> Seq<char> {
    "messaging.webex.bot"@
}

/// The API base that is used where the configuration names none.
pub open spec fn default_api_base() -> Seq<char> {
    "https://webexapis.com/v1"@
}

/// The name of the secret that holds the bot's access token.
pub open spec fn token_key() -> Seq<char> {
    "WEBEX_BOT_TOKEN"@
}

/// The provider's configuration.
#[derive(Debug)]
pub struct ProviderConfig {
    pub default_room_id: Option<String>,
    pub default_to_person_email: Option<String>,
    pub api_base_url: Option<String>,
}

pub ghost struct ConfigV {
    pub default_room_id: Option<Seq<char>>,
    pub default_to_person_email: Option<Seq<char>>,
    pub api_base_url: Option<Seq<char>>,
}

impl View for ProviderConfig {
    type V = ConfigV;

    open spec fn view(&self) -> ConfigV {
        ConfigV {
            default_room_id: json::opt_view(self.default_room_id),
            default_to_person_email: json::opt_view(self.default_to_person_email),
            api_base_url: json::opt_view(self.api_base_url),
        }
    }
}

/// The configuration that names nothing.
pub open spec fn empty_config() -> ConfigV {
    ConfigV { default_room_id: None, default_to_person_email: None, api_base_url: None }
}

/// Whether `key` is a member that a configuration may have.
pub open spec fn is_config_key(key: Seq<char>) -> bool {
    key == "default_room_id"@ || key == "default_to_person_email"@ || key == "api_base_url"@
}

/// Whether a member of a configuration is acceptable: a known key with a string or null.
pub open spec fn config_member_ok(e: (Seq<char>, JsonV)) -> bool {
    is_config_key(e.0) && (e.1 is Null || e.1 is Str)
}

/// The index of the first member that is not acceptable, or the number of members.
pub open spec fn first_fault(entries: Seq<(Seq<char>, JsonV)>) -> int
    decreases entries.len(),
{
    if entries.len() == 0 || !config_member_ok(entries[0]) {
        0
    } else {
        1 + first_fault(entries.drop_first())
    }
}

/// What is wrong with a member that is not acceptable.
pub open spec fn fault_text(e: (Seq<char>, JsonV)) -> Seq<char> {
    if !is_config_key(e.0) {
        "unknown field `"@ + e.0
            + "`, expected one of `default_room_id`, `default_to_person_email`, `api_base_url`"@
    } else {
        "invalid type for `"@ + e.0 + "`, expected a string"@
    }
}

/// The string under `key`, where the member is one.
pub open spec fn config_field(j: JsonV, key: Seq<char>) -> Option<Seq<char>> {
    match json::opt_str_at(j, key) {
        Some(v) => v,
        None => None,
    }
}

/// The configuration that `j` describes, or why it describes none. Every
/// member must be known and a string or null; the first that is not is
/// reported.
pub open spec fn config_of(j: JsonV) -> Result<ConfigV, Seq<char>> {
    match j {
        JsonV::Object(entries) => if first_fault(entries) < entries.len() {
            Err("invalid config: "@ + fault_text(entries[first_fault(entries)]))
        } else {
            Ok(
                ConfigV {
                    default_room_id: config_field(j, "default_room_id"@),
                    default_to_person_email: config_field(j, "default_to_person_email"@),
                    api_base_url: config_field(j, "api_base_url"@),
                },
            )
        },
        _ => Err("invalid config: expected an object"@),
    }
}

/// The configuration that the bytes `parsed` came from describe.
pub open spec fn config_of_parsed(parsed: Result<JsonV, Seq<char>>) -> Result<ConfigV, Seq<char>> {
    match parsed {
        Ok(j) => config_of(j),
        Err(e) => Err("invalid config: "@ + e),
    }
}

/// `o` with the member `key` of `input`, where `input` has one.
pub open spec fn with_member_of(
    o: Seq<(Seq<char>, JsonV)>,
    input: JsonV,
    key: Seq<char>,
) -> Seq<(Seq<char>, JsonV)> {
    match input.get(key) {
        Some(v) => o.push((key, v)),
        None => o,
    }
}

/// The configuration members that stand directly in `input`.
pub open spec fn inline_config(input: JsonV) -> Seq<(Seq<char>, JsonV)> {
    with_member_of(
        with_member_of(
            with_member_of(Seq::empty(), input, "default_room_id"@),
            input,
            "default_to_person_email"@,
        ),
        input,
        "api_base_url"@,
    )
}

/// The configuration that a request carries: its `config` member where it
/// has one, else the configuration members that stand directly in it, else
/// the empty configuration.
pub open spec fn loaded_config(input: JsonV) -> Result<ConfigV, Seq<char>> {
    match input.get("config"@) {
        Some(c) => config_of(c),
        None => if inline_config(input).len() > 0 {
            config_of(JsonV::Object(inline_config(input)))
        } else {
            Ok(empty_config())
        },
    }
}

/// `cfg` with the API base and the default e-mail that `metadata` sets.
pub open spec fn overridden_config(cfg: ConfigV, metadata: Seq<(Seq<char>, Seq<char>)>) -> ConfigV {
    ConfigV {
        default_room_id: cfg.default_room_id,
        default_to_person_email: match assoc::lookup(metadata, "config.default_to_person_email"@) {
            Some(v) => Some(v),
            None => cfg.default_to_person_email,
        },
        api_base_url: match assoc::lookup(metadata, "config.api_base_url"@) {
            Some(v) => Some(v),
            None => cfg.api_base_url,
        },
    }
}

/// The message for a response that is no success: the status, and the
/// trimmed body where it is not blank.
pub open spec fn webex_error_text(status: u16, body: Seq<u8>) -> Seq<char> {
    let shown = text::trimmed(text::lossy_text(body));
    if shown.len() == 0 {
        "webex returned status "@ + text::decimal(status as nat)
    } else {
        "webex returned status "@ + text::decimal(status as nat) + " body="@ + shown
    }
}

/// What a lookup of the secret `key` gives as text: the secret, or why
/// there is none: it is no text, it is missing, or the store met a fault.
pub open spec fn secret_text_of(
    key: Seq<char>,
    looked: Result<Option<Seq<u8>>, crate::host::SecretsError>,
) -> Result<Seq<char>, Seq<char>> {
    match looked {
        Ok(Some(bytes)) => if vstd::utf8::valid_utf8(bytes) {
            Ok(vstd::utf8::decode_utf8(bytes))
        } else {
            Err("secret not valid utf-8"@)
        },
        Ok(None) => Err("missing secret: "@ + key),
        Err(e) => Err("secret store error: "@ + crate::host::secrets_error_name(e)),
    }
}

/// The secret under `key` as text, or why there is none.
pub open spec fn secret_text(h: HostV, key: Seq<char>) -> Result<Seq<char>, Seq<char>> {
    secret_text_of(key, Ok(assoc::lookup(h.secrets, key)))
}

/// The view of what a lookup gave.
pub open spec fn lookup_view(looked: Result<Option<Vec<u8>>, crate::host::SecretsError>) -> Result<
    Option<Seq<u8>>,
    crate::host::SecretsError,
> {
    match looked {
        Ok(found) => Ok(json::opt_bytes_view(found)),
        Err(e) => Err(e),
    }
}

/// The view of a result that holds strings.
pub open spec fn text_result(r: Result<String, String>) -> Result<Seq<char>, Seq<char>> {
    match r {
        Ok(t) => Ok(t@),
        Err(e) => Err(e@),
    }
}

/// The view of a configuration or the message in its place.
pub open spec fn config_result(r: Result<ProviderConfig, String>) -> Result<ConfigV, Seq<char>> {
    match r {
        Ok(c) => Ok(c@),
        Err(e) => Err(e@),
    }
}

/// The view of a parsed value or the message in its place.
pub open spec fn json_result(r: Result<Json, String>) -> Result<JsonV, Seq<char>> {
    match r {
        Ok(j) => Ok(j@),
        Err(e) => Err(e@),
    }
}

fn is_known_config_key(key: &String) -> (r: bool)
    ensures
        r == is_config_key(key@),
{
    text::str_eq(key.as_str(), "default_room_id") || text::str_eq(
        key.as_str(),
        "default_to_person_email",
    ) || text::str_eq(key.as_str(), "api_base_url")
}

proof fn lemma_first_fault(entries: Seq<(Seq<char>, JsonV)>, k: int)
    requires
        0 <= k <= entries.len(),
        forall|i: int| 0 <= i < k ==> config_member_ok(entries[i]),
        k < entries.len() ==> !config_member_ok(entries[k]),
    ensures
        first_fault(entries) == k,
    decreases entries.len(),
{
    if entries.len() == 0 || !config_member_ok(entries[0]) {
    } else {
        let rest = entries.drop_first();
        assert forall|i: int| 0 <= i < k - 1 implies config_member_ok(rest[i]) by {
            assert(rest[i] == entries[i + 1]);
        }
        lemma_first_fault(rest, k - 1);
    }
}

fn config_field_of(j: &Json, key: &str) -> (r: Option<String>)
    ensures
        json::opt_view(r) == config_field(j@, key@),
{
    match json::read_opt_str(j, key) {
        Some(v) => v,
        None => None,
    }
}

/// The configuration that `val` describes, or why it describes none.
pub fn parse_config_value(val: &Json) -> (r: Result<ProviderConfig, String>)
    ensures
        config_result(r) == config_of(val@),
{
    match val.as_object() {
        None => Err("invalid config: expected an object".to_owned()),
        Some(entries) => {
            let mut i: usize = 0;
            while i < entries.len()
                invariant
                    i <= entries.len(),
                    val@ == JsonV::Object(assoc::entries_view(entries@)),
                    forall|k: int|
                        0 <= k < i ==> config_member_ok(assoc::entries_view(entries@)[k]),
                decreases entries.len() - i,
            {
                let known = is_known_config_key(&entries[i].0);
                let typed = match &entries[i].1 {
                    Json::Null => true,
                    Json::Str(_) => true,
                    _ => false,
                };
                if !(known && typed) {
                    proof {
                        lemma_first_fault(assoc::entries_view(entries@), i as int);
                    }
                    let mut msg = "invalid config: ".to_owned();
                    if !known {
                        msg.append("unknown field `");
                        msg.append(entries[i].0.as_str());
                        msg.append(
                            "`, expected one of `default_room_id`, `default_to_person_email`, `api_base_url`",
                        );
                    } else {
                        msg.append("invalid type for `");
                        msg.append(entries[i].0.as_str());
                        msg.append("`, expected a string");
                    }
                    assert(msg@ =~= "invalid config: "@ + fault_text(
                        assoc::entries_view(entries@)[i as int],
                    ));
                    return Err(msg);
                }
                i += 1;
            }
            proof {
                lemma_first_fault(assoc::entries_view(entries@), i as int);
            }
            Ok(
                ProviderConfig {
                    default_room_id: config_field_of(val, "default_room_id"),
                    default_to_person_email: config_field_of(val, "default_to_person_email"),
                    api_base_url: config_field_of(val, "api_base_url"),
                },
            )
        },
    }
}

/// The configuration that parsed bytes describe, or why they describe none.
pub fn parse_config_parsed(parsed: Result<Json, String>) -> (r: Result<ProviderConfig, String>)
    ensures
        config_result(r) == config_of_parsed(json_result(parsed)),
{
    match parsed {
        Ok(j) => parse_config_value(&j),
        Err(e) => Err(text::concat("invalid config: ", e.as_str())),
    }
}

/// The configuration that `bytes` describe, or why they describe none.
pub fn parse_config_bytes(bytes: &[u8]) -> (r: Result<ProviderConfig, String>)
    ensures
        config_result(r) == config_of_parsed(json::parsed(bytes@)),
{
    parse_config_parsed(Json::parse(bytes))
}

fn push_member_of(o: &mut Vec<(String, Json)>, input: &Json, key: &str)
    ensures
        assoc::entries_view(final(o)@) == with_member_of(
            assoc::entries_view(old(o)@),
            input@,
            key@,
        ),
{
    match input.get(key) {
        Some(v) => {
            json::push_member(o, key, v.deep_clone());
        },
        None => {},
    }
}

/// The configuration that the request `input` carries.
pub fn load_config(input: &Json) -> (r: Result<ProviderConfig, String>)
    ensures
        config_result(r) == loaded_config(input@),
{
    match input.get("config") {
        Some(c) => parse_config_value(c),
        None => {
            let mut partial = json::no_members();
            push_member_of(&mut partial, input, "default_room_id");
            push_member_of(&mut partial, input, "default_to_person_email");
            push_member_of(&mut partial, input, "api_base_url");
            if partial.len() > 0 {
                let o = json::object(partial);
                parse_config_value(&o)
            } else {
                Ok(
                    ProviderConfig {
                        default_room_id: None,
                        default_to_person_email: None,
                        api_base_url: None,
                    },
                )
            }
        },
    }
}

/// Lets the metadata of a message set the API base and the default e-mail.
pub fn override_config_from_metadata(cfg: &mut ProviderConfig, metadata: &Vec<(String, String)>)
    ensures
        final(cfg)@ == overridden_config(old(cfg)@, assoc::entries_view(metadata@)),
{
    match assoc::get(metadata, "config.api_base_url") {
        Some(api) => {
            cfg.api_base_url = Some(api.clone());
        },
        None => {},
    }
    match assoc::get(metadata, "config.default_to_person_email") {
        Some(email) => {
            cfg.default_to_person_email = Some(email.clone());
        },
        None => {},
    }
}

/// The message for a response with `status` and `body` that is no success.
pub fn format_webex_error(status: u16, body: &[u8]) -> (r: String)
    ensures
        r@ == webex_error_text(status, body@),
{
    let shown = text::trim(text::from_utf8_lossy(body).as_str());
    let mut r = "webex returned status ".to_owned();
    r.append(text::u64_to_string(status as u64).as_str());
    if shown.as_str().unicode_len() > 0 {
        r.append(" body=");
        r.append(shown.as_str());
    }
    assert(r@ =~= webex_error_text(status, body@));
    r
}

/// What a lookup of the secret `key` gives as text, whatever the store answered.
pub fn read_secret_lookup(key: &str, looked: Result<Option<Vec<u8>>, crate::host::SecretsError>) -> (r:
    Result<String, String>)
    ensures
        text_result(r) == secret_text_of(key@, lookup_view(looked)),
{
    match looked {
        Ok(Some(bytes)) => match text::from_utf8(bytes) {
            Some(s) => Ok(s),
            None => Err("secret not valid utf-8".to_owned()),
        },
        Ok(None) => Err(text::concat("missing secret: ", key)),
        Err(e) => Err(text::concat("secret store error: ", e.name())),
    }
}

/// The secret under `key` as text, or why there is none.
pub fn get_secret_string(key: &str, host: &TestHostState) -> (r: Result<String, String>)
    ensures
        text_result(r) == secret_text(host@, key@),
{
    let looked = host.get(key);
    assert(lookup_view(looked) == Ok::<Option<Seq<u8>>, crate::host::SecretsError>(
        assoc::lookup(host@.secrets, key@),
    ));
    read_secret_lookup(key, looked)
}

} // verus!
