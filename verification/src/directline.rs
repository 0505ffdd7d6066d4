//! Conversation state of the web chat channel: the context a conversation
//! belongs to, its stored activities and the keys it is filed under.

use vstd::prelude::*;
use crate::json::Json;
use crate::text;

verus! {

/// The environment, tenant and team that a conversation belongs to.
#[derive(Debug, Clone, PartialEq, Eq)]
pub struct DirectLineContext {
    pub env: String,
    pub tenant: String,
    pub team: Option<String>,
}

/// The claims that a conversation token carries.
#[derive(Debug)]
pub struct TokenClaims {
    pub iss: String,
    pub aud: String,
    pub sub: String,
    pub iat: i64,
    pub nbf: i64,
    pub exp: i64,
    pub ctx: DirectLineContext,
    pub conv: Option<String>,
}

/// One activity of a conversation, as stored.
#[derive(Debug)]
pub struct StoredActivity {
    pub id: String,
    pub type_: String,
    pub text: Option<String>,
    pub from: Option<String>,
    pub timestamp: i64,
    pub watermark: u64,
    pub raw: Json,
}

/// A conversation: its context, the next watermark and its activities.
#[derive(Debug)]
pub struct ConversationState {
    pub ctx: DirectLineContext,
    pub next_watermark: u64,
    pub activities: Vec<StoredActivity>,
}

impl DirectLineContext {
    /// A copy of this context.
    pub fn duplicate(&self) -> (r: DirectLineContext)
        ensures
            r == *self,
    {
        DirectLineContext {
            env: self.env.clone(),
            tenant: self.tenant.clone(),
            team: match &self.team {
                Some(t) => Some(t.clone()),
                None => None,
            },
        }
    }
}

impl ConversationState {
    /// A conversation without activities, whose first watermark is zero.
    pub fn new(ctx: DirectLineContext) -> (r: ConversationState)
        ensures
            r.ctx == ctx,
            r.next_watermark == 0,
            r.activities@.len() == 0,
    {
        ConversationState { ctx, next_watermark: 0, activities: Vec::new() }
    }

    /// Hands out the next watermark and steps past it; the last one is handed out again.
    pub fn bump_watermark(&mut self) -> (r: u64)
        ensures
            r == old(self).next_watermark,
            final(self).next_watermark == if old(self).next_watermark == u64::MAX {
                u64::MAX
            } else {
                (old(self).next_watermark + 1) as u64
            },
            final(self).ctx == old(self).ctx,
            final(self).activities == old(self).activities,
    {
        let watermark = self.next_watermark;
        if self.next_watermark < u64::MAX {
            self.next_watermark = self.next_watermark + 1;
        }
        watermark
    }
}

/// The team part of a key: the trimmed team, or `_` where there is none or it is blank.
pub open spec fn team_part(team: Option<Seq<char>>) -> Seq<char> {
    match team {
        Some(t) => if text::trimmed(t).len() == 0 {
            seq!['_']
        } else {
            text::trimmed(t)
        },
        None => seq!['_'],
    }
}

/// The key that a conversation is filed under.
pub open spec fn conversation_key_text(
    env: Seq<char>,
    tenant: Seq<char>,
    team: Option<Seq<char>>,
    conversation_id: Seq<char>,
) -> Seq<char> {
    "webchat:conv:"@ + env + seq![':'] + tenant + seq![':'] + team_part(team) + seq![':']
        + conversation_id
}

/// The view of an optional text.
pub open spec fn opt_text(t: Option<&str>) -> Option<Seq<char>> {
    match t {
        Some(s) => Some(s@),
        None => None,
    }
}

/// The view of an optional string.
pub open spec fn opt_string(t: Option<String>) -> Option<Seq<char>> {
    match t {
        Some(s) => Some(s@),
        None => None,
    }
}

/// The team as it stands in keys: trimmed, and `_` where it is missing or blank.
pub fn sanitize_team(team: Option<&str>) -> (r: String)
    ensures
        r@ == team_part(opt_text(team)),
{
    match team {
        Some(t) => {
            let trimmed = text::trim(t);
            if trimmed.as_str().unicode_len() == 0 {
                let mut r = String::new();
                r.push('_');
                assert(r@ =~= seq!['_']);
                r
            } else {
                trimmed
            }
        },
        None => {
            let mut r = String::new();
            r.push('_');
            assert(r@ =~= seq!['_']);
            r
        },
    }
}

/// The key under which the conversation `conversation_id` of `ctx` is filed.
pub fn conversation_key(ctx: &DirectLineContext, conversation_id: &str) -> (r: String)
    ensures
        r@ == conversation_key_text(ctx.env@, ctx.tenant@, opt_string(ctx.team), conversation_id@),
{
    let team = match &ctx.team {
        Some(t) => sanitize_team(Some(t.as_str())),
        None => sanitize_team(None),
    };
    let mut r = "webchat:conv:".to_owned();
    r.append(ctx.env.as_str());
    r.push(':');
    r.append(ctx.tenant.as_str());
    r.push(':');
    r.append(team.as_str());
    r.push(':');
    r.append(conversation_id);
    assert(r@ =~= conversation_key_text(
        ctx.env@,
        ctx.tenant@,
        opt_string(ctx.team),
        conversation_id@,
    ));
    r
}

} // verus!
