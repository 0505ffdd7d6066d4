//! Conversation tokens: three base64 segments joined by dots, the third the
//! HMAC-SHA256 tag of the first two. A token is valid from the moment it is
//! issued until its expiry.

use vstd::prelude::*;
use crate::codec;
use crate::directline::{DirectLineContext, TokenClaims};
use crate::json;
use crate::json::{Json, JsonV};
use crate::text;

verus! {

/// How long a token is valid, in seconds.
pub const TTL_SECONDS: i64 = 1800;

/// Why a token was not issued or not accepted.
#[derive(Debug, PartialEq, Eq)]
pub enum JwtError {
    InvalidFormat,
    InvalidSignature,
    Expired,
    NotYetValid,
    Json(String),
    Base64(String),
}

pub ghost enum JwtErrorV {
    InvalidFormat,
    InvalidSignature,
    Expired,
    NotYetValid,
    Json(Seq<char>),
    Base64(Seq<char>),
}

pub ghost struct ClaimsV {
    pub iss: Seq<char>,
    pub aud: Seq<char>,
    pub sub: Seq<char>,
    pub iat: i64,
    pub nbf: i64,
    pub exp: i64,
    pub env: Seq<char>,
    pub tenant: Seq<char>,
    pub team: Option<Seq<char>>,
    pub conv: Option<Seq<char>>,
}

impl View for JwtError {
    type V = JwtErrorV;

    open spec fn view(&self) -> JwtErrorV {
        match self {
            JwtError::InvalidFormat => JwtErrorV::InvalidFormat,
            JwtError::InvalidSignature => JwtErrorV::InvalidSignature,
            JwtError::Expired => JwtErrorV::Expired,
            JwtError::NotYetValid => JwtErrorV::NotYetValid,
            JwtError::Json(m) => JwtErrorV::Json(m@),
            JwtError::Base64(m) => JwtErrorV::Base64(m@),
        }
    }
}

impl View for TokenClaims {
    type V = ClaimsV;

    open spec fn view(&self) -> ClaimsV {
        ClaimsV {
            iss: self.iss@,
            aud: self.aud@,
            sub: self.sub@,
            iat: self.iat,
            nbf: self.nbf,
            exp: self.exp,
            env: self.ctx.env@,
            tenant: self.ctx.tenant@,
            team: json::opt_view(self.ctx.team),
            conv: json::opt_view(self.conv),
        }
    }
}

/// The header of every token.
pub open spec fn header_json() -> JsonV {
    JsonV::Object(
        Seq::empty().push(("alg"@, JsonV::Str("HS256"@))).push(("typ"@, JsonV::Str("JWT"@))),
    )
}

/// The JSON form of claims.
pub open spec fn claims_json(c: ClaimsV) -> JsonV {
    let o = Seq::empty().push(("iss"@, JsonV::Str(c.iss))).push(("aud"@, JsonV::Str(c.aud))).push(
        ("sub"@, JsonV::Str(c.sub)),
    ).push(("iat"@, JsonV::Number(text::int_text(c.iat as int)))).push(
        ("nbf"@, JsonV::Number(text::int_text(c.nbf as int))),
    ).push(("exp"@, JsonV::Number(text::int_text(c.exp as int)))).push(
        (
            "ctx"@,
            JsonV::Object(
                Seq::empty().push(("env"@, JsonV::Str(c.env))).push(
                    ("tenant"@, JsonV::Str(c.tenant)),
                ).push(("team"@, json::str_or_null(c.team))),
            ),
        ),
    );
    JsonV::Object(
        match c.conv {
            Some(v) => o.push(("conv"@, JsonV::Str(v))),
            None => o,
        },
    )
}

/// The whole number under `key`.
pub open spec fn i64_at(j: JsonV, key: Seq<char>) -> Option<i64> {
    match j.get(key) {
        Some(n) => n.as_i64(),
        None => None,
    }
}

/// The claims that `j` describes.
pub open spec fn decode_claims(j: JsonV) -> Option<ClaimsV> {
    match (
        j.str_at("iss"@),
        j.str_at("aud"@),
        j.str_at("sub"@),
        i64_at(j, "iat"@),
        i64_at(j, "nbf"@),
        i64_at(j, "exp"@),
        j.get("ctx"@),
        json::opt_str_at(j, "conv"@),
    ) {
        (Some(iss), Some(aud), Some(sub), Some(iat), Some(nbf), Some(exp), Some(ctx), Some(conv)) => match (
            ctx.str_at("env"@),
            ctx.str_at("tenant"@),
            json::opt_str_at(ctx, "team"@),
        ) {
            (Some(env), Some(tenant), Some(team)) => Some(
                ClaimsV { iss, aud, sub, iat, nbf, exp, env, tenant, team, conv },
            ),
            _ => None,
        },
        _ => None,
    }
}

/// The segment that stands for `j`: its compact text in URL-safe base64.
pub open spec fn segment(j: JsonV) -> Option<Seq<char>> {
    match json::printed_text(j) {
        Some(t) => Some(codec::base64url_text(vstd::utf8::encode_utf8(t))),
        None => None,
    }
}

/// The bytes that are signed: the first two segments with a dot between them.
pub open spec fn signing_input(header: Seq<char>, payload: Seq<char>) -> Seq<u8> {
    vstd::utf8::encode_utf8(header) + seq![0x2eu8] + vstd::utf8::encode_utf8(payload)
}

/// The claims of a token issued at `now`.
pub open spec fn issued_claims(
    env: Seq<char>,
    tenant: Seq<char>,
    team: Option<Seq<char>>,
    sub: Seq<char>,
    conv: Option<Seq<char>>,
    now: i64,
) -> ClaimsV {
    ClaimsV {
        iss: "greentic.webchat"@,
        aud: "directline"@,
        sub,
        iat: now,
        nbf: now,
        exp: (now + TTL_SECONDS) as i64,
        env,
        tenant,
        team,
        conv,
    }
}

/// The token for `claims` under `secret`, where its segments can be printed.
pub open spec fn token_text(secret: Seq<u8>, claims: ClaimsV) -> Option<Seq<char>> {
    match (segment(header_json()), segment(claims_json(claims))) {
        (Some(h), Some(p)) => Some(
            h + seq!['.'] + p + seq!['.'] + codec::base64url_text(
                codec::hmac_sha256_tag(secret, signing_input(h, p)),
            ),
        ),
        _ => None,
    }
}

/// Whether `r` is what issuing a token at the time `now` gives: no token
/// where the expiry cannot be written; else the token for the claims issued
/// at `now` with its expiry, or the fault that a segment cannot be printed.
pub open spec fn issued_at(
    secret: Seq<u8>,
    env: Seq<char>,
    tenant: Seq<char>,
    team: Option<Seq<char>>,
    sub: Seq<char>,
    conv: Option<Seq<char>>,
    now: i64,
    r: Result<(String, i64), JwtError>,
) -> bool {
    if now + TTL_SECONDS > i64::MAX {
        r matches Err(e) && e@ == JwtErrorV::InvalidFormat
    } else {
        match token_text(secret, issued_claims(env, tenant, team, sub, conv, now)) {
            Some(t) => r matches Ok(pair) && pair.0@ == t && pair.1 == now + TTL_SECONDS,
            None => r matches Err(JwtError::Json(m)) && m@ == "token segment cannot be printed"@,
        }
    }
}

/// The claims of a segment: its base64 must decode, the bytes must parse and
/// hold claims.
pub open spec fn segment_claims(payload: Seq<char>) -> Result<ClaimsV, JwtErrorV> {
    match codec::base64url_bytes(payload) {
        Err(e) => Err(JwtErrorV::Base64(e)),
        Ok(bytes) => match json::parsed(bytes) {
            Err(e) => Err(JwtErrorV::Json(e)),
            Ok(j) => match decode_claims(j) {
                Some(c) => Ok(c),
                None => Err(JwtErrorV::Json("claims do not have the expected members"@)),
            },
        },
    }
}

/// What checking `token` under `secret` at the time `now` gives: the token
/// must have three segments, its third must be the tag of the first two, and
/// `now` must lie in the time from `nbf` up to, but not at, `exp`.
pub open spec fn verified(secret: Seq<u8>, token: Seq<char>, now: i64) -> Result<ClaimsV, JwtErrorV> {
    let parts = text::pieces(token, '.');
    if parts.len() != 3 {
        Err(JwtErrorV::InvalidFormat)
    } else {
        match codec::base64url_bytes(parts[2]) {
            Err(e) => Err(JwtErrorV::Base64(e)),
            Ok(sig) => if sig != codec::hmac_sha256_tag(secret, signing_input(parts[0], parts[1])) {
                Err(JwtErrorV::InvalidSignature)
            } else {
                match segment_claims(parts[1]) {
                    Err(e) => Err(e),
                    Ok(c) => if now < c.nbf {
                        Err(JwtErrorV::NotYetValid)
                    } else if now >= c.exp {
                        Err(JwtErrorV::Expired)
                    } else {
                        Ok(c)
                    },
                }
            },
        }
    }
}

/// The view of claims or the error in their place.
pub open spec fn claims_result(r: Result<TokenClaims, JwtError>) -> Result<ClaimsV, JwtErrorV> {
    match r {
        Ok(c) => Ok(c@),
        Err(e) => Err(e@),
    }
}

/// `DateTime::<Utc>::from` on `SystemTime::now()`, then `timestamp`: the
/// seconds since the epoch by the clock of the machine, negative where the
/// clock stands before it. Nothing is claimed of it.
#[verifier::external_body]
fn clock_seconds() -> i64 {
    chrono::DateTime::<chrono::Utc>::from(std::time::SystemTime::now()).timestamp()
}

fn claims_to_json(c: &TokenClaims) -> (r: Json)
    ensures
        r@ == claims_json(c@),
{
    let mut ctx = json::no_members();
    json::push_member(&mut ctx, "env", Json::Str(c.ctx.env.clone()));
    json::push_member(&mut ctx, "tenant", Json::Str(c.ctx.tenant.clone()));
    json::push_member(&mut ctx, "team", json::opt_str_json(&c.ctx.team));
    let mut o = json::no_members();
    json::push_member(&mut o, "iss", Json::Str(c.iss.clone()));
    json::push_member(&mut o, "aud", Json::Str(c.aud.clone()));
    json::push_member(&mut o, "sub", Json::Str(c.sub.clone()));
    json::push_member(&mut o, "iat", Json::from_i64(c.iat));
    json::push_member(&mut o, "nbf", Json::from_i64(c.nbf));
    json::push_member(&mut o, "exp", Json::from_i64(c.exp));
    json::push_member(&mut o, "ctx", json::object(ctx));
    match &c.conv {
        Some(v) => {
            json::push_member(&mut o, "conv", Json::Str(v.clone()));
        },
        None => {},
    }
    json::object(o)
}

fn read_i64_at(j: &Json, key: &str) -> (r: Option<i64>)
    ensures
        r == i64_at(j@, key@),
{
    match j.get(key) {
        Some(n) => n.as_i64(),
        None => None,
    }
}

fn claims_from_json(j: &Json) -> (r: Option<TokenClaims>)
    ensures
        match r {
            Some(c) => decode_claims(j@) == Some(c@),
            None => decode_claims(j@) is None,
        },
{
    let iss = match j.str_at("iss") {
        Some(t) => t,
        None => {
            return None;
        },
    };
    let aud = match j.str_at("aud") {
        Some(t) => t,
        None => {
            return None;
        },
    };
    let sub = match j.str_at("sub") {
        Some(t) => t,
        None => {
            return None;
        },
    };
    let iat = match read_i64_at(j, "iat") {
        Some(t) => t,
        None => {
            return None;
        },
    };
    let nbf = match read_i64_at(j, "nbf") {
        Some(t) => t,
        None => {
            return None;
        },
    };
    let exp = match read_i64_at(j, "exp") {
        Some(t) => t,
        None => {
            return None;
        },
    };
    let ctx = match j.get("ctx") {
        Some(t) => t,
        None => {
            return None;
        },
    };
    let conv = match json::read_opt_str(j, "conv") {
        Some(t) => t,
        None => {
            return None;
        },
    };
    let env = match ctx.str_at("env") {
        Some(t) => t,
        None => {
            return None;
        },
    };
    let tenant = match ctx.str_at("tenant") {
        Some(t) => t,
        None => {
            return None;
        },
    };
    let team = match json::read_opt_str(ctx, "team") {
        Some(t) => t,
        None => {
            return None;
        },
    };
    Some(TokenClaims { iss, aud, sub, iat, nbf, exp, ctx: DirectLineContext { env, tenant, team }, conv })
}

/// The segment that stands for `j`.
pub fn encode_segment(j: &Json) -> (r: Option<String>)
    ensures
        json::opt_view(r) == segment(j@),
{
    match j.to_text() {
        Some(t) => Some(codec::base64url_encode(text::bytes_of(t.as_str()).as_slice())),
        None => None,
    }
}

/// The claims of the segment `payload`.
pub fn decode_segment(payload: &str) -> (r: Result<TokenClaims, JwtError>)
    ensures
        claims_result(r) == segment_claims(payload@),
{
    let bytes = match codec::base64url_decode(payload) {
        Ok(b) => b,
        Err(e) => {
            return Err(JwtError::Base64(e));
        },
    };
    let j = match Json::parse(bytes.as_slice()) {
        Ok(j) => j,
        Err(e) => {
            return Err(JwtError::Json(e));
        },
    };
    match claims_from_json(&j) {
        Some(c) => Ok(c),
        None => Err(JwtError::Json("claims do not have the expected members".to_owned())),
    }
}

fn bytes_to_sign(header: &str, payload: &str) -> (r: Vec<u8>)
    ensures
        r@ == signing_input(header@, payload@),
{
    let mut out = text::bytes_of(header);
    out.push(0x2e);
    let mut rest = text::bytes_of(payload);
    out.append(&mut rest);
    out
}

/// Issues a token for `sub` in the context `ctx` at the time `now`: the
/// token and its expiry, one time to live after `now`.
pub fn issue_token_at(
    secret: &[u8],
    ctx: DirectLineContext,
    sub: &str,
    conv: Option<String>,
    now: i64,
) -> (r: Result<(String, i64), JwtError>)
    requires
        now + TTL_SECONDS <= i64::MAX,
    ensures
        match token_text(
            secret@,
            issued_claims(ctx.env@, ctx.tenant@, json::opt_view(ctx.team), sub@, json::opt_view(conv), now),
        ) {
            Some(t) => r matches Ok(pair) && pair.0@ == t && pair.1 == now + TTL_SECONDS,
            None => r matches Err(JwtError::Json(m)) && m@ == "token segment cannot be printed"@,
        },
{
    let exp = now + TTL_SECONDS;
    let claims = TokenClaims {
        iss: "greentic.webchat".to_owned(),
        aud: "directline".to_owned(),
        sub: sub.to_owned(),
        iat: now,
        nbf: now,
        exp,
        ctx,
        conv,
    };
    let mut header = json::no_members();
    json::push_member(&mut header, "alg", Json::string("HS256"));
    json::push_member(&mut header, "typ", Json::string("JWT"));
    let header_enc = match encode_segment(&json::object(header)) {
        Some(h) => h,
        None => {
            return Err(JwtError::Json("token segment cannot be printed".to_owned()));
        },
    };
    let payload_enc = match encode_segment(&claims_to_json(&claims)) {
        Some(p) => p,
        None => {
            return Err(JwtError::Json("token segment cannot be printed".to_owned()));
        },
    };
    let signature = codec::hmac_sha256(
        secret,
        bytes_to_sign(header_enc.as_str(), payload_enc.as_str()).as_slice(),
    );
    let signature_enc = codec::base64url_encode(signature.as_slice());
    let mut token = header_enc;
    token.push('.');
    token.append(payload_enc.as_str());
    token.push('.');
    token.append(signature_enc.as_str());
    Ok((token, exp))
}

/// Checks `token` under `secret` at the time `now` and hands out its claims.
pub fn verify_token_at(secret: &[u8], token: &str, now: i64) -> (r: Result<TokenClaims, JwtError>)
    ensures
        claims_result(r) == verified(secret@, token@, now),
{
    let parts = text::split(token, '.');
    if parts.len() != 3 {
        return Err(JwtError::InvalidFormat);
    }
    assert(text::pieces(token@, '.')[0] == parts@[0]@);
    assert(text::pieces(token@, '.')[1] == parts@[1]@);
    assert(text::pieces(token@, '.')[2] == parts@[2]@);
    let decoded_sig = match codec::base64url_decode(parts[2].as_str()) {
        Ok(b) => b,
        Err(e) => {
            return Err(JwtError::Base64(e));
        },
    };
    let to_sign = bytes_to_sign(parts[0].as_str(), parts[1].as_str());
    if !codec::hmac_sha256_verify(secret, to_sign.as_slice(), decoded_sig.as_slice()) {
        return Err(JwtError::InvalidSignature);
    }
    let claims = match decode_segment(parts[1].as_str()) {
        Ok(c) => c,
        Err(e) => {
            return Err(e);
        },
    };
    if now < claims.nbf {
        return Err(JwtError::NotYetValid);
    }
    if now >= claims.exp {
        return Err(JwtError::Expired);
    }
    Ok(claims)
}

/// Issues a token by the clock of the machine: the result is what issuing
/// gives at some time, which is the time that the clock said. A clock so far
/// ahead that the expiry cannot be written gives `InvalidFormat`.
pub fn issue_token(secret: &[u8], ctx: DirectLineContext, sub: &str, conv: Option<String>) -> (r:
    Result<(String, i64), JwtError>)
    ensures
        exists|now: i64| #[trigger]
            issued_at(
                secret@,
                ctx.env@,
                ctx.tenant@,
                json::opt_view(ctx.team),
                sub@,
                json::opt_view(conv),
                now,
                r,
            ),
{
    let now = clock_seconds();
    let ghost env = ctx.env@;
    let ghost tenant = ctx.tenant@;
    let ghost team = json::opt_view(ctx.team);
    let ghost conv_v = json::opt_view(conv);
    let r = if now > i64::MAX - TTL_SECONDS {
        Err(JwtError::InvalidFormat)
    } else {
        issue_token_at(secret, ctx, sub, conv, now)
    };
    assert(issued_at(secret@, env, tenant, team, sub@, conv_v, now, r));
    r
}

/// Checks a token by the clock of the machine: the result is that of
/// `verify_token_at` at some time.
pub fn verify_token(secret: &[u8], token: &str) -> (r: Result<TokenClaims, JwtError>)
    ensures
        exists|now: i64| claims_result(r) == #[trigger] verified(secret@, token@, now),
{
    let now = clock_seconds();
    verify_token_at(secret, token, now)
}

/// The JSON form of claims reads back as the claims.
pub proof fn lemma_claims_round_trip(c: ClaimsV)
    ensures
        decode_claims(claims_json(c)) == Some(c),
{
    reveal_strlit("iss");
    reveal_strlit("aud");
    reveal_strlit("sub");
    reveal_strlit("iat");
    reveal_strlit("nbf");
    reveal_strlit("exp");
    reveal_strlit("ctx");
    reveal_strlit("conv");
    reveal_strlit("env");
    reveal_strlit("tenant");
    reveal_strlit("team");
    assert("iss"@[0] == 'i' && "iss"@[1] == 's' && "iat"@[0] == 'i' && "iat"@[1] == 'a');
    assert("aud"@[0] == 'a' && "sub"@[0] == 's' && "nbf"@[0] == 'n' && "exp"@[0] == 'e');
    assert("ctx"@[0] == 'c' && "conv"@.len() == 4 && "ctx"@.len() == 3 && "iss"@.len() == 3);
    assert("aud"@.len() == 3 && "sub"@.len() == 3 && "iat"@.len() == 3 && "nbf"@.len() == 3);
    assert("exp"@.len() == 3);
    assert("env"@.len() == 3 && "tenant"@.len() == 6 && "team"@.len() == 4);
    text::lemma_i64_round_trip(c.iat);
    text::lemma_i64_round_trip(c.nbf);
    text::lemma_i64_round_trip(c.exp);
    let none = Seq::<(Seq<char>, JsonV)>::empty();
    let x0 = none.push(("env"@, JsonV::Str(c.env)));
    let x1 = x0.push(("tenant"@, JsonV::Str(c.tenant)));
    let ctx = JsonV::Object(x1.push(("team"@, json::str_or_null(c.team))));
    crate::assoc::lemma_lookup_push(none, "env"@, JsonV::Str(c.env));
    crate::assoc::lemma_lookup_push(x0, "tenant"@, JsonV::Str(c.tenant));
    crate::assoc::lemma_lookup_push(x1, "team"@, json::str_or_null(c.team));
    assert(ctx.get("env"@) == Some(JsonV::Str(c.env)));
    assert(ctx.get("tenant"@) == Some(JsonV::Str(c.tenant)));
    assert(ctx.get("team"@) == Some(json::str_or_null(c.team)));
    let o0 = none.push(("iss"@, JsonV::Str(c.iss)));
    let o1 = o0.push(("aud"@, JsonV::Str(c.aud)));
    let o2 = o1.push(("sub"@, JsonV::Str(c.sub)));
    let o3 = o2.push(("iat"@, JsonV::Number(text::int_text(c.iat as int))));
    let o4 = o3.push(("nbf"@, JsonV::Number(text::int_text(c.nbf as int))));
    let o5 = o4.push(("exp"@, JsonV::Number(text::int_text(c.exp as int))));
    let o6 = o5.push(("ctx"@, ctx));
    crate::assoc::lemma_lookup_push(none, "iss"@, JsonV::Str(c.iss));
    crate::assoc::lemma_lookup_push(o0, "aud"@, JsonV::Str(c.aud));
    crate::assoc::lemma_lookup_push(o1, "sub"@, JsonV::Str(c.sub));
    crate::assoc::lemma_lookup_push(o2, "iat"@, JsonV::Number(text::int_text(c.iat as int)));
    crate::assoc::lemma_lookup_push(o3, "nbf"@, JsonV::Number(text::int_text(c.nbf as int)));
    crate::assoc::lemma_lookup_push(o4, "exp"@, JsonV::Number(text::int_text(c.exp as int)));
    crate::assoc::lemma_lookup_push(o5, "ctx"@, ctx);
    match c.conv {
        Some(v) => {
            crate::assoc::lemma_lookup_push(o6, "conv"@, JsonV::Str(v));
        },
        None => {},
    }
    let j = claims_json(c);
    assert(j.get("iss"@) == Some(JsonV::Str(c.iss)));
    assert(j.get("aud"@) == Some(JsonV::Str(c.aud)));
    assert(j.get("sub"@) == Some(JsonV::Str(c.sub)));
    assert(i64_at(j, "iat"@) == Some(c.iat));
    assert(i64_at(j, "nbf"@) == Some(c.nbf));
    assert(i64_at(j, "exp"@) == Some(c.exp));
    assert(j.get("ctx"@) == Some(ctx));
    assert(json::opt_str_at(j, "conv"@) == Some(c.conv));
}

} // verus!
