//! Inbound requests as the listener sees them: header parsing, the webhook
//! signature check, and the request form that is handed on to a module.

use vstd::prelude::*;
use crate::assoc;
use crate::cli::CliError;
use crate::codec;
use crate::dto::{HttpInV, HttpInV1};
use crate::json;
use crate::json::{Json, JsonV};
use crate::text;
use crate::values::Values;

verus! {

/// An inbound request as it is written to a file or taken from the listener.
#[derive(Debug)]
pub struct HttpInFile {
    pub method: String,
    pub path: String,
    pub headers: Vec<(String, String)>,
    pub body: Option<String>,
    pub query: Option<String>,
}

pub ghost struct HttpInFileV {
    pub method: Seq<char>,
    pub path: Seq<char>,
    pub headers: Seq<(Seq<char>, Seq<char>)>,
    pub body: Option<Seq<char>>,
    pub query: Option<Seq<char>>,
}

impl View for HttpInFile {
    type V = HttpInFileV;

    open spec fn view(&self) -> HttpInFileV {
        HttpInFileV {
            method: self.method@,
            path: self.path@,
            headers: assoc::entries_view(self.headers@),
            body: json::opt_view(self.body),
            query: json::opt_view(self.query),
        }
    }
}

/// Where the body of a request comes from.
#[derive(Debug)]
pub enum BodyChoice {
    Absent,
    Inline(String),
    FromFile,
}

/// What the listener answers.
#[derive(Debug)]
pub struct ListenerReply {
    pub status: u16,
    pub body: String,
}

/// How the handling of a request by the module ended.
#[derive(Debug)]
pub enum IngestEnd {
    Delivered,
    Failed(String),
    Panicked(String),
}

/// Where the name of a raw header ends: at the first colon, else at the first equals sign.
pub open spec fn separator(raw: Seq<char>) -> Option<int> {
    if text::position(raw, ':') < raw.len() {
        Some(text::position(raw, ':'))
    } else if text::position(raw, '=') < raw.len() {
        Some(text::position(raw, '='))
    } else {
        None
    }
}

/// The name and value of a raw header `name:value`: the name trimmed and in
/// lower case, the value trimmed. Something must follow the separator.
pub open spec fn parsed_header(raw: Seq<char>) -> Option<(Seq<char>, Seq<char>)> {
    match separator(raw) {
        Some(i) => if i + 1 < raw.len() {
            Some((text::lowercase(text::trimmed(raw.take(i))), text::trimmed(raw.skip(i + 1))))
        } else {
            None
        },
        None => None,
    }
}

/// The complaint about a raw header that is none.
pub open spec fn header_complaint(raw: Seq<char>) -> Seq<char> {
    "invalid header '"@ + raw + "', expected 'name:value'"@
}

/// The value of the first header whose name is `key`, whatever the case of its letters.
pub open spec fn header_value(headers: Seq<(Seq<char>, Seq<char>)>, key: Seq<char>) -> Option<
    Seq<char>,
>
    decreases headers.len(),
{
    if headers.len() == 0 {
        None
    } else if text::lowercase(headers[0].0) == text::lowercase(key) {
        Some(headers[0].1)
    } else {
        header_value(headers.drop_first(), key)
    }
}

/// The number that a hexadecimal digit stands for.
pub open spec fn hex_value(c: char) -> Option<u8> {
    if '0' <= c <= '9' {
        Some((c as u8 - 48) as u8)
    } else if 'a' <= c <= 'f' {
        Some((c as u8 - 87) as u8)
    } else if 'A' <= c <= 'F' {
        Some((c as u8 - 55) as u8)
    } else {
        None
    }
}

/// Whether `s` is hexadecimal text: an even number of characters, each a
/// hexadecimal digit.
pub open spec fn is_hex_text(s: Seq<char>) -> bool {
    &&& s.len() % 2 == 0
    &&& forall|i: int| 0 <= i < s.len() ==> hex_value(#[trigger] s[i]) is Some
}

/// The byte that the digits number `2 * i` and `2 * i + 1` of `s` write.
pub open spec fn hex_byte(s: Seq<char>, i: int) -> u8 {
    (16 * hex_value(s[2 * i])->0 + hex_value(s[2 * i + 1])->0) as u8
}

/// The bytes that the hexadecimal text `s` stands for, two digits to a byte;
/// nothing where `s` is no hexadecimal text.
pub open spec fn hex_decoded(s: Seq<char>) -> Option<Seq<u8>> {
    if is_hex_text(s) {
        Some(Seq::new((s.len() / 2) as nat, |i: int| hex_byte(s, i)))
    } else {
        None
    }
}

/// The prefix that marks the SHA-256 segment of a signature header.
pub open spec fn sha256_prefix() -> Seq<char> {
    "SHA-256="@
}

/// `t` without quotes at either end.
pub open spec fn unquoted(t: Seq<char>) -> Seq<char> {
    text::drop_trailing(text::drop_leading(t, '"'), '"')
}

/// The digest text of a signature header: of its segments between commas,
/// the first that, trimmed, begins with `SHA-256=`; what follows is trimmed
/// and stripped of quotes.
pub open spec fn signature_hex(header: Seq<char>) -> Option<Seq<char>>
    decreases header.len(),
{
    let p = text::position(header, ',');
    let segment = text::trimmed(header.take(p));
    if text::starts_with(segment, sha256_prefix()) {
        Some(unquoted(text::trimmed(segment.skip(sha256_prefix().len() as int))))
    } else if 0 <= p < header.len() {
        signature_hex(header.skip(p + 1))
    } else {
        None
    }
}

/// The signature header of a request: `x-webex-signature`, else `x-spark-signature`.
pub open spec fn signature_header(headers: Seq<(Seq<char>, Seq<char>)>) -> Option<Seq<char>> {
    match header_value(headers, "x-webex-signature"@) {
        Some(v) => Some(v),
        None => header_value(headers, "x-spark-signature"@),
    }
}

/// The signature that a request carries, where it carries one that can be read.
pub open spec fn carried_signature(headers: Seq<(Seq<char>, Seq<char>)>) -> Option<Seq<u8>> {
    match signature_header(headers) {
        Some(h) => match signature_hex(h) {
            Some(hex) => hex_decoded(hex),
            None => None,
        },
        None => None,
    }
}

/// Whether the request is signed by `secret`: it carries a signature, and
/// the signature is the HMAC-SHA256 tag of the bytes of the body.
pub open spec fn signature_accepted(
    secret: Seq<u8>,
    headers: Seq<(Seq<char>, Seq<char>)>,
    body: Seq<char>,
) -> bool {
    match carried_signature(headers) {
        Some(sig) => sig == codec::hmac_sha256_tag(secret, vstd::utf8::encode_utf8(body)),
        None => false,
    }
}

/// The secret that signs the webhooks of `provider`: the first of its two
/// configuration keys that holds a string.
pub open spec fn signature_secret(config: Seq<(Seq<char>, JsonV)>, provider: Seq<char>) -> Option<
    Seq<u8>,
> {
    match assoc::lookup(config, provider + "_signature_secret"@) {
        Some(JsonV::Str(s)) => Some(vstd::utf8::encode_utf8(s)),
        _ => match assoc::lookup(config, provider + "_webhook_signature_secret"@) {
            Some(JsonV::Str(s)) => Some(vstd::utf8::encode_utf8(s)),
            _ => None,
        },
    }
}

/// The headers that the raw headers give, later ones of a name in place of
/// earlier ones; or the first raw header that is none.
pub open spec fn header_map(raw: Seq<Seq<char>>) -> Result<Seq<(Seq<char>, Seq<char>)>, Seq<char>>
    decreases raw.len(),
{
    if raw.len() == 0 {
        Ok(Seq::empty())
    } else {
        match header_map(raw.drop_last()) {
            Err(e) => Err(e),
            Ok(m) => match parsed_header(raw.last()) {
                Some(h) => Ok(assoc::put(m, h.0, h.1)),
                None => Err(raw.last()),
            },
        }
    }
}

/// The request form that is handed to a module: the body in base64.
pub open spec fn http_in_of(f: HttpInFileV) -> HttpInV {
    HttpInV {
        method: f.method,
        path: f.path,
        query: f.query,
        headers: f.headers,
        body_b64: codec::base64_text(
            vstd::utf8::encode_utf8(
                match f.body {
                    Some(b) => b,
                    None => Seq::empty(),
                },
            ),
        ),
    }
}

/// Whether the listener turns a request away: only a Webex request, only
/// where a signing secret is configured, and only where the signature check fails.
pub open spec fn turned_away(
    provider: Seq<char>,
    secret: Option<Seq<u8>>,
    headers: Seq<(Seq<char>, Seq<char>)>,
    body: Seq<char>,
) -> bool {
    provider == "webex"@ && secret is Some && !signature_accepted(secret->0, headers, body)
}

/// An error in the first part of the raw headers is the error of the whole.
pub proof fn lemma_header_map_prefix(raw: Seq<Seq<char>>, k: int)
    requires
        0 <= k <= raw.len(),
        header_map(raw.take(k)) is Err,
    ensures
        header_map(raw) == header_map(raw.take(k)),
    decreases raw.len() - k,
{
    if k == raw.len() {
        assert(raw.take(k) =~= raw);
    } else {
        assert(raw.take(k + 1).drop_last() =~= raw.take(k));
        lemma_header_map_prefix(raw, k + 1);
    }
}

/// The name and value of a raw header, or the complaint about it.
pub fn parse_header(raw: &str) -> (r: Result<(String, String), CliError>)
    ensures
        match r {
            Ok(h) => parsed_header(raw@) == Some((h.0@, h.1@)),
            Err(e) => {
                &&& parsed_header(raw@) is None
                &&& e matches CliError::Listen(m)
                &&& m@ == header_complaint(raw@)
            },
        },
{
    let v = text::chars_of(raw);
    let sep = match text::find_char(&v, ':') {
        Some(i) => Some(i),
        None => text::find_char(&v, '='),
    };
    match sep {
        Some(index) => {
            if index + 1 < v.len() {
                let name = text::to_ascii_lowercase(
                    text::trim(text::string_of_range(&v, 0, index).as_str()).as_str(),
                );
                let value = text::trim(text::string_of_range(&v, index + 1, v.len()).as_str());
                assert(v@.subrange(0, index as int) =~= v@.take(index as int));
                assert(v@.subrange(index + 1, v.len() as int) =~= v@.skip(index + 1));
                return Ok((name, value));
            }
        },
        None => {},
    }
    let mut m = "invalid header '".to_owned();
    m.append(raw);
    m.append("', expected 'name:value'");
    Err(CliError::Listen(m))
}

/// The value of the first header whose name is `key`, whatever the case of its letters.
pub fn find_header_value(headers: &Vec<(String, String)>, key: &str) -> (r: Option<String>)
    ensures
        json::opt_view(r) == header_value(assoc::entries_view(headers@), key@),
{
    let mut i: usize = 0;
    let ghost all = assoc::entries_view(headers@);
    assert(all.skip(0) =~= all);
    while i < headers.len()
        invariant
            i <= headers.len(),
            all == assoc::entries_view(headers@),
            header_value(all, key@) == header_value(all.skip(i as int), key@),
        decreases headers.len() - i,
    {
        assert(all.skip(i as int)[0] == all[i as int]);
        if text::eq_ignore_ascii_case(headers[i].0.as_str(), key) {
            return Some(headers[i].1.clone());
        }
        assert(all.skip(i as int).drop_first() =~= all.skip(i + 1));
        i += 1;
    }
    None
}

fn hex_digit_value(c: char) -> (r: Option<u8>)
    ensures
        r == hex_value(c),
{
    if '0' <= c && c <= '9' {
        Some(c as u8 - 48)
    } else if 'a' <= c && c <= 'f' {
        Some(c as u8 - 87)
    } else if 'A' <= c && c <= 'F' {
        Some(c as u8 - 55)
    } else {
        None
    }
}

/// The bytes that the hexadecimal text `input` stands for. Text with an odd
/// number of characters, or with a character that is no hexadecimal digit,
/// stands for nothing.
pub fn decode_hex(input: &str) -> (r: Option<Vec<u8>>)
    ensures
        json::opt_bytes_view(r) == hex_decoded(input@),
{
    let v = text::chars_of(input);
    if v.len() % 2 != 0 {
        return None;
    }
    let mut out: Vec<u8> = Vec::new();
    let mut i: usize = 0;
    while i < v.len()
        invariant
            i <= v.len(),
            i % 2 == 0,
            v.len() % 2 == 0,
            v@ == input@,
            out@.len() == i / 2,
            forall|k: int| 0 <= k < i ==> hex_value(#[trigger] v@[k]) is Some,
            forall|k: int| 0 <= k < out@.len() ==> out@[k] == hex_byte(v@, k),
        decreases v.len() - i,
    {
        match (hex_digit_value(v[i]), hex_digit_value(v[i + 1])) {
            (Some(a), Some(b)) => {
                out.push(16 * a + b);
            },
            _ => {
                assert(hex_value(v@[i as int]) is None || hex_value(v@[i + 1]) is None);
                return None;
            },
        }
        i += 2;
    }
    assert(out@ =~= hex_decoded(input@)->0);
    Some(out)
}

/// The digest text of a signature header, read from `start`.
fn signature_hex_from(v: &Vec<char>, start: usize) -> (r: Option<String>)
    requires
        start <= v.len(),
    ensures
        json::opt_view(r) == signature_hex(v@.skip(start as int)),
    decreases v.len() - start,
{
    let ghost header = v@.skip(start as int);
    let p = text::find_char_from(v, start, ',');
    let raw_segment = text::string_of_range(v, start, p);
    assert(v@.subrange(start as int, p as int) =~= header.take(p - start));
    let segment = text::trim(raw_segment.as_str());
    match text::strip_prefix(segment.as_str(), "SHA-256=") {
        Some(rest) => {
            let value = text::trim(rest.as_str());
            Some(text::trim_matches(value.as_str(), '"'))
        },
        None => {
            if p < v.len() {
                assert(header.skip(p - start + 1) =~= v@.skip(p + 1));
                signature_hex_from(v, p + 1)
            } else {
                None
            }
        },
    }
}

/// Whether the request with `headers` and `body` is signed by `secret`. A
/// request without a signature header, or with one that cannot be read, is
/// not; nothing here fails.
pub fn verify_webex_signature(secret: &[u8], headers: &Vec<(String, String)>, body: &str) -> (r: bool)
    ensures
        r == signature_accepted(secret@, assoc::entries_view(headers@), body@),
{
    let header_value = match find_header_value(headers, "x-webex-signature") {
        Some(v) => v,
        None => match find_header_value(headers, "x-spark-signature") {
            Some(v) => v,
            None => {
                return false;
            },
        },
    };
    let chars = text::chars_of(header_value.as_str());
    assert(chars@.skip(0) =~= chars@);
    let hex = match signature_hex_from(&chars, 0) {
        Some(h) => h,
        None => {
            return false;
        },
    };
    let sig = match decode_hex(hex.as_str()) {
        Some(b) => b,
        None => {
            return false;
        },
    };
    codec::hmac_sha256_verify(secret, text::bytes_of(body).as_slice(), sig.as_slice())
}

fn secret_under(config: &Vec<(String, Json)>, key: &str) -> (r: Option<Vec<u8>>)
    ensures
        json::opt_bytes_view(r) == (match assoc::lookup(assoc::entries_view(config@), key@) {
            Some(JsonV::Str(s)) => Some(vstd::utf8::encode_utf8(s)),
            _ => None,
        }),
{
    match assoc::get(config, key) {
        Some(Json::Str(s)) => Some(text::bytes_of(s.as_str())),
        _ => None,
    }
}

/// The secret that signs the webhooks of `provider`, where the values configure one.
pub fn load_webhook_signature_secret(values: &Values, provider: &str) -> (r: Option<Vec<u8>>)
    ensures
        json::opt_bytes_view(r) == signature_secret(values@.config, provider@),
{
    match secret_under(&values.config, text::concat(provider, "_signature_secret").as_str()) {
        Some(s) => Some(s),
        None => secret_under(
            &values.config,
            text::concat(provider, "_webhook_signature_secret").as_str(),
        ),
    }
}

/// Where the body comes from: given inline, or read from a file, not both.
pub fn resolve_body(body: Option<String>, has_body_file: bool) -> (r: Result<BodyChoice, CliError>)
    ensures
        match r {
            Ok(BodyChoice::Inline(b)) => body == Some(b) && !has_body_file,
            Ok(BodyChoice::FromFile) => body is None && has_body_file,
            Ok(BodyChoice::Absent) => body is None && !has_body_file,
            Err(e) => {
                &&& body is Some
                &&& has_body_file
                &&& e matches CliError::Listen(m)
                &&& m@ == "--body and --body-file cannot be provided together"@
            },
        },
{
    match body {
        Some(b) => if has_body_file {
            Err(CliError::Listen("--body and --body-file cannot be provided together".to_owned()))
        } else {
            Ok(BodyChoice::Inline(b))
        },
        None => if has_body_file {
            Ok(BodyChoice::FromFile)
        } else {
            Ok(BodyChoice::Absent)
        },
    }
}

/// The request that the given parts describe: the method in upper case, the
/// headers parsed; or the complaint about the first header that is none.
pub fn build_http_in_payload(
    method: String,
    path: String,
    query: Option<String>,
    body: Option<String>,
    headers: Vec<String>,
) -> (r: Result<HttpInFile, CliError>)
    ensures
        match r {
            Ok(f) => header_map(text::strings_view(headers@)) == Ok::<
                Seq<(Seq<char>, Seq<char>)>,
                Seq<char>,
            >(f@.headers) && f@.method == text::uppercase(method@) && f@.path == path@ && f@.query
                == json::opt_view(query) && f@.body == json::opt_view(body) && assoc::unique_keys(
                f@.headers,
            ),
            Err(e) => {
                &&& header_map(text::strings_view(headers@)) is Err
                &&& e matches CliError::Listen(m)
                &&& m@ == header_complaint(header_map(text::strings_view(headers@))->Err_0)
            },
        },
{
    let mut map: Vec<(String, String)> = Vec::new();
    let mut i: usize = 0;
    let ghost all = text::strings_view(headers@);
    assert(all.take(0) =~= Seq::<Seq<char>>::empty());
    assert(assoc::entries_view(map@) =~= Seq::empty());
    while i < headers.len()
        invariant
            i <= headers.len(),
            all == text::strings_view(headers@),
            header_map(all.take(i as int)) == Ok::<Seq<(Seq<char>, Seq<char>)>, Seq<char>>(
                assoc::entries_view(map@),
            ),
            assoc::unique_keys(assoc::entries_view(map@)),
        decreases headers.len() - i,
    {
        assert(all.take(i + 1).drop_last() =~= all.take(i as int));
        assert(all.take(i + 1).last() == headers@[i as int]@);
        match parse_header(headers[i].as_str()) {
            Ok((name, value)) => {
                assoc::insert(&mut map, name, value);
            },
            Err(e) => {
                proof {
                    lemma_header_map_prefix(all, i + 1);
                }
                return Err(e);
            },
        }
        i += 1;
    }
    assert(all.take(headers.len() as int) =~= all);
    Ok(
        HttpInFile {
            method: text::to_ascii_uppercase(method.as_str()),
            path,
            headers: map,
            body,
            query,
        },
    )
}

/// The request form that is handed to a module.
pub fn http_in_file_to_v1(spec: HttpInFile) -> (r: HttpInV1)
    ensures
        r@ == http_in_of(spec@),
{
    let body_bytes = match &spec.body {
        Some(b) => text::bytes_of(b.as_str()),
        None => Vec::new(),
    };
    HttpInV1 {
        method: spec.method,
        path: spec.path,
        query: spec.query,
        headers: spec.headers,
        body_b64: codec::base64_encode(body_bytes.as_slice()),
    }
}

/// The request that the listener took, in the form it is kept in: the
/// method in upper case, the headers as a map.
pub fn normalize_request(
    method: &str,
    path: &str,
    query: Option<String>,
    headers: &Vec<(String, String)>,
    body_text: &str,
) -> (r: HttpInFile)
    ensures
        r@ == (HttpInFileV {
            method: text::uppercase(method@),
            path: path@,
            headers: assoc::collected(assoc::entries_view(headers@)),
            body: Some(body_text@),
            query: json::opt_view(query),
        }),
        assoc::unique_keys(r@.headers),
{
    proof {
        assoc::lemma_collected(assoc::entries_view(headers@));
    }
    let mut map: Vec<(String, String)> = Vec::new();
    let mut i: usize = 0;
    let ghost all = assoc::entries_view(headers@);
    assert(all.take(0) =~= Seq::<(Seq<char>, Seq<char>)>::empty());
    assert(assoc::entries_view(map@) =~= Seq::empty());
    while i < headers.len()
        invariant
            i <= headers.len(),
            all == assoc::entries_view(headers@),
            assoc::entries_view(map@) == assoc::collected(all.take(i as int)),
        decreases headers.len() - i,
    {
        assert(all.take(i + 1).drop_last() =~= all.take(i as int));
        assert(all.take(i + 1).last() == all[i as int]);
        assoc::insert(&mut map, headers[i].0.clone(), headers[i].1.clone());
        i += 1;
    }
    assert(all.take(headers.len() as int) =~= all);
    HttpInFile {
        method: text::to_ascii_uppercase(method),
        path: path.to_owned(),
        headers: map,
        body: Some(body_text.to_owned()),
        query,
    }
}

/// The answer that turns a request away, where the listener does so.
pub fn authorize_request(
    provider: &str,
    signature_secret: &Option<Vec<u8>>,
    headers: &Vec<(String, String)>,
    body: &str,
) -> (r: Option<ListenerReply>)
    ensures
        match r {
            Some(reply) => turned_away(
                provider@,
                json::opt_bytes_view(*signature_secret),
                assoc::entries_view(headers@),
                body@,
            ) && reply.status == 401 && reply.body@ == "invalid webex webhook signature"@,
            None => !turned_away(
                provider@,
                json::opt_bytes_view(*signature_secret),
                assoc::entries_view(headers@),
                body@,
            ),
        },
{
    if !text::str_eq(provider, "webex") {
        return None;
    }
    match signature_secret {
        Some(secret) => {
            if verify_webex_signature(secret.as_slice(), headers, body) {
                None
            } else {
                Some(
                    ListenerReply {
                        status: 401,
                        body: "invalid webex webhook signature".to_owned(),
                    },
                )
            }
        },
        None => None,
    }
}

/// What the listener answers once the module has handled a request: 200
/// where the request was delivered, whatever the module made of it; 500
/// with the fault otherwise.
pub fn listener_reply(end: IngestEnd) -> (r: ListenerReply)
    ensures
        match end {
            IngestEnd::Delivered => r.status == 200 && r.body@ == "ok"@,
            IngestEnd::Failed(e) => r.status == 500 && r.body@ == e@,
            IngestEnd::Panicked(e) => r.status == 500 && r.body@ == "ingest runtime panic: "@
                + e@,
        },
{
    match end {
        IngestEnd::Delivered => ListenerReply { status: 200, body: "ok".to_owned() },
        IngestEnd::Failed(e) => ListenerReply { status: 500, body: e },
        IngestEnd::Panicked(e) => ListenerReply {
            status: 500,
            body: text::concat("ingest runtime panic: ", e.as_str()),
        },
    }
}

/// The lower-case hexadecimal digit for `n`, which is below sixteen.
pub open spec fn hex_digit(n: int) -> char {
    if n < 10 {
        (48 + n) as u8 as char
    } else {
        (87 + n) as u8 as char
    }
}

/// The lower-case hexadecimal text of `b`, two digits for each byte.
pub open spec fn hex_text(b: Seq<u8>) -> Seq<char> {
    Seq::new(
        2 * b.len(),
        |k: int|
            if k % 2 == 0 {
                hex_digit(b[k / 2] as int / 16)
            } else {
                hex_digit(b[k / 2] as int % 16)
            },
    )
}

/// Whether `c` can stand in hexadecimal text as this module writes it.
pub open spec fn is_plain_hex(c: char) -> bool {
    ('0' <= c <= '9') || ('a' <= c <= 'f')
}

proof fn lemma_hex_digit(n: int)
    requires
        0 <= n < 16,
    ensures
        is_plain_hex(hex_digit(n)),
        hex_value(hex_digit(n)) == Some(n as u8),
{
}

proof fn lemma_hex_text(b: Seq<u8>)
    ensures
        hex_text(b).len() == 2 * b.len(),
        forall|i: int| 0 <= i < hex_text(b).len() ==> is_plain_hex(#[trigger] hex_text(b)[i]),
        forall|i: int|
            0 <= i < hex_text(b).len() ==> hex_value(#[trigger] hex_text(b)[i]) == Some(
                (if i % 2 == 0 {
                    b[i / 2] as int / 16
                } else {
                    b[i / 2] as int % 16
                }) as u8,
            ),
{
    let t = hex_text(b);
    assert forall|i: int| 0 <= i < t.len() implies is_plain_hex(#[trigger] t[i]) && hex_value(
        t[i],
    ) == Some(
        (if i % 2 == 0 {
            b[i / 2] as int / 16
        } else {
            b[i / 2] as int % 16
        }) as u8,
    ) by {
        lemma_hex_digit(b[i / 2] as int / 16);
        lemma_hex_digit(b[i / 2] as int % 16);
    }
}

/// Hexadecimal text as this module writes it reads back as the bytes it was written for.
pub proof fn lemma_hex_round_trip(b: Seq<u8>)
    ensures
        hex_decoded(hex_text(b)) == Some(b),
{
    lemma_hex_text(b);
    let t = hex_text(b);
    assert(is_hex_text(t));
    let d = hex_decoded(t)->0;
    assert(d.len() == b.len());
    assert forall|i: int| 0 <= i < b.len() implies d[i] == b[i] by {
        assert(hex_value(t[2 * i]) == Some((b[i] as int / 16) as u8));
        assert(hex_value(t[2 * i + 1]) == Some((b[i] as int % 16) as u8));
    }
    assert(d =~= b);
}

/// Text that is read as bytes has an even number of characters, all of them
/// hexadecimal digits, and two of them to each byte, the first digit
/// counting sixteenfold; all other text is read as nothing.
pub proof fn lemma_hex_decoded(s: Seq<char>)
    ensures
        hex_decoded(s) is Some <==> is_hex_text(s),
        hex_decoded(s) matches Some(b) ==> b.len() * 2 == s.len() && forall|i: int|
            0 <= i < b.len() ==> #[trigger] b[i] == 16 * hex_value(s[2 * i])->0 + hex_value(
                s[2 * i + 1],
            )->0,
{
    if is_hex_text(s) {
        let b = hex_decoded(s)->0;
        assert forall|i: int| 0 <= i < b.len() implies #[trigger] b[i] == 16 * hex_value(
            s[2 * i],
        )->0 + hex_value(s[2 * i + 1])->0 by {
            assert(hex_value(s[2 * i]) is Some);
            assert(hex_value(s[2 * i + 1]) is Some);
        }
    }
}

proof fn lemma_no_comma(s: Seq<char>)
    requires
        forall|i: int| 0 <= i < s.len() ==> s[i] != ',',
    ensures
        text::position(s, ',') == s.len(),
{
    text::lemma_position_is(s, ',', s.len() as int);
}

/// A header that is the SHA-256 segment alone gives the digest text as it stands.
pub proof fn lemma_signature_hex_of(b: Seq<u8>)
    ensures
        signature_hex(sha256_prefix() + hex_text(b)) == Some(hex_text(b)),
{
    reveal_strlit("SHA-256=");
    let pre = sha256_prefix();
    let hex = hex_text(b);
    let h = pre + hex;
    lemma_hex_text(b);
    assert(pre.len() == 8);
    assert forall|i: int| 0 <= i < h.len() implies h[i] != ',' && !text::is_space(h[i]) by {
        if i >= 8 {
            assert(h[i] == hex[i - 8]);
            assert(is_plain_hex(hex[i - 8]));
        }
    }
    lemma_no_comma(h);
    assert(h.take(h.len() as int) =~= h);
    assert(!text::is_space(h[0]));
    assert(!text::is_space(h[h.len() - 1]));
    text::lemma_trimmed_fixed(h);
    assert(h.take(pre.len() as int) =~= pre);
    assert(text::starts_with(h, pre));
    assert(h.skip(pre.len() as int) =~= hex);
    if hex.len() > 0 {
        assert(is_plain_hex(hex[0]));
        assert(is_plain_hex(hex[hex.len() - 1]));
    }
    text::lemma_trimmed_fixed(hex);
    assert(unquoted(hex) == hex);
}

/// A request whose signature header is `SHA-256=` and the hexadecimal text
/// of `sig` is accepted exactly when `sig` is the HMAC-SHA256 tag of its
/// body under the secret: the right digest is accepted, and any other
/// digest, or the right digest with another body whose tag differs, is not.
pub proof fn lemma_signature_decides(
    secret: Seq<u8>,
    headers: Seq<(Seq<char>, Seq<char>)>,
    body: Seq<char>,
    sig: Seq<u8>,
)
    requires
        signature_header(headers) == Some(sha256_prefix() + hex_text(sig)),
    ensures
        signature_accepted(secret, headers, body) == (sig == codec::hmac_sha256_tag(
            secret,
            vstd::utf8::encode_utf8(body),
        )),
{
    lemma_signature_hex_of(sig);
    lemma_hex_round_trip(sig);
}

/// A request that carries the digest of other bytes than its body is turned
/// down wherever the two have different tags.
pub proof fn lemma_changed_body_rejected(
    secret: Seq<u8>,
    headers: Seq<(Seq<char>, Seq<char>)>,
    body: Seq<char>,
    signed: Seq<u8>,
)
    requires
        signature_header(headers) == Some(
            sha256_prefix() + hex_text(codec::hmac_sha256_tag(secret, signed)),
        ),
        codec::hmac_sha256_tag(secret, vstd::utf8::encode_utf8(body)) != codec::hmac_sha256_tag(
            secret,
            signed,
        ),
    ensures
        !signature_accepted(secret, headers, body),
{
    lemma_signature_decides(secret, headers, body, codec::hmac_sha256_tag(secret, signed));
}

/// A request without a signature header, or with one that holds no SHA-256
/// segment or no hexadecimal text in it, is not accepted.
pub proof fn lemma_unsigned_rejected(
    secret: Seq<u8>,
    headers: Seq<(Seq<char>, Seq<char>)>,
    body: Seq<char>,
)
    requires
        signature_header(headers) is None || signature_hex(signature_header(headers)->0) is None
            || hex_decoded(signature_hex(signature_header(headers)->0)->0) is None,
    ensures
        !signature_accepted(secret, headers, body),
{
}

/// The JSON form of a request as it is written to a file.
pub open spec fn http_in_file_json(f: HttpInFileV) -> JsonV {
    JsonV::Object(
        Seq::empty().push(("method"@, JsonV::Str(f.method))).push(("path"@, JsonV::Str(f.path))).push(
            ("headers"@, json::text_map(f.headers)),
        ).push(("body"@, json::str_or_null(f.body))).push(("query"@, json::str_or_null(f.query))),
    )
}

/// The request that `j` describes: `method` and `path` are required.
pub open spec fn decode_http_in_file(j: JsonV) -> Option<HttpInFileV> {
    match (
        j.str_at("method"@),
        j.str_at("path"@),
        match j.get("headers"@) {
            None => Some(Seq::empty()),
            Some(h) => json::as_text_map(h),
        },
        json::opt_str_at(j, "body"@),
        json::opt_str_at(j, "query"@),
    ) {
        (Some(method), Some(path), Some(headers), Some(body), Some(query)) => Some(
            HttpInFileV { method, path, headers, body, query },
        ),
        _ => None,
    }
}

impl HttpInFile {
    /// The JSON form of this request.
    pub fn to_json(&self) -> (r: Json)
        ensures
            r@ == http_in_file_json(self@),
    {
        let mut o = json::no_members();
        json::push_member(&mut o, "method", Json::Str(self.method.clone()));
        json::push_member(&mut o, "path", Json::Str(self.path.clone()));
        json::push_member(&mut o, "headers", json::text_map_json(&self.headers));
        json::push_member(&mut o, "body", json::opt_str_json(&self.body));
        json::push_member(&mut o, "query", json::opt_str_json(&self.query));
        json::object(o)
    }

    /// The request that `j` describes, where it describes one. Its headers
    /// hold every name once.
    pub fn from_json(j: &Json) -> (r: Option<HttpInFile>)
        ensures
            match r {
                Some(f) => decode_http_in_file(j@) == Some(f@) && assoc::unique_keys(f@.headers),
                None => decode_http_in_file(j@) is None,
            },
    {
        let method = match j.str_at("method") {
            Some(t) => t,
            None => {
                return None;
            },
        };
        let path = match j.str_at("path") {
            Some(t) => t,
            None => {
                return None;
            },
        };
        let headers = match j.get("headers") {
            None => {
                let h: Vec<(String, String)> = Vec::new();
                assert(assoc::entries_view(h@) =~= Seq::empty());
                h
            },
            Some(h) => match json::read_text_map(h) {
                Some(m) => m,
                None => {
                    return None;
                },
            },
        };
        let body = match json::read_opt_str(j, "body") {
            Some(t) => t,
            None => {
                return None;
            },
        };
        let query = match json::read_opt_str(j, "query") {
            Some(t) => t,
            None => {
                return None;
            },
        };
        Some(HttpInFile { method, path, headers, body, query })
    }
}

/// The JSON form of a request as it is written to a file reads back as the
/// request, where its headers hold every name once.
pub proof fn lemma_http_in_file_round_trip(f: HttpInFileV)
    requires
        assoc::unique_keys(f.headers),
    ensures
        decode_http_in_file(http_in_file_json(f)) == Some(f),
{
    reveal_strlit("method");
    reveal_strlit("path");
    reveal_strlit("headers");
    reveal_strlit("body");
    reveal_strlit("query");
    assert("method"@.len() == 6 && "path"@.len() == 4 && "headers"@.len() == 7);
    assert("body"@.len() == 4 && "query"@.len() == 5);
    assert("path"@[0] == 'p' && "body"@[0] == 'b');
    json::lemma_text_map_round_trip(f.headers);
    let none = Seq::<(Seq<char>, JsonV)>::empty();
    let o0 = none.push(("method"@, JsonV::Str(f.method)));
    let o1 = o0.push(("path"@, JsonV::Str(f.path)));
    let o2 = o1.push(("headers"@, json::text_map(f.headers)));
    let o3 = o2.push(("body"@, json::str_or_null(f.body)));
    assoc::lemma_lookup_push(none, "method"@, JsonV::Str(f.method));
    assoc::lemma_lookup_push(o0, "path"@, JsonV::Str(f.path));
    assoc::lemma_lookup_push(o1, "headers"@, json::text_map(f.headers));
    assoc::lemma_lookup_push(o2, "body"@, json::str_or_null(f.body));
    assoc::lemma_lookup_push(o3, "query"@, json::str_or_null(f.query));
    let j = http_in_file_json(f);
    assert(j.get("method"@) == Some(JsonV::Str(f.method)));
    assert(j.get("path"@) == Some(JsonV::Str(f.path)));
    assert(j.get("headers"@) == Some(json::text_map(f.headers)));
    assert(j.get("body"@) == Some(json::str_or_null(f.body)));
    assert(j.get("query"@) == Some(json::str_or_null(f.query)));
}

} // verus!
