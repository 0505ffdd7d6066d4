//! Two revisions of the transport capability are in use by modules. The host
//! keeps one form of every value; a call that arrives in the other revision
//! is translated field for field on the way in and on the way out, and the
//! extended context is passed on only where the caller gave one.

use vstd::prelude::*;
use crate::host::{after_send, TestHostState};
use crate::http_mock::{next_response, HttpClientError, HttpRequest, HttpResponse};

verus! {

/// Tunables of one request, in the host's form.
#[derive(Debug, Clone, PartialEq, Eq)]
pub struct RequestOptions {
    pub timeout_ms: Option<u32>,
    pub allow_insecure: Option<bool>,
    pub follow_redirects: Option<bool>,
}

/// Who acts for whom, in the host's form.
#[derive(Debug, Clone, PartialEq, Eq)]
pub struct Impersonation {
    pub actor_id: String,
    pub reason: Option<String>,
}

/// The context of an invocation, in the host's form.
#[derive(Debug, Clone, PartialEq, Eq)]
pub struct TenantCtx {
    pub env: String,
    pub tenant: String,
    pub tenant_id: String,
    pub team: Option<String>,
    pub team_id: Option<String>,
    pub user: Option<String>,
    pub user_id: Option<String>,
    pub i18n_id: Option<String>,
    pub trace_id: Option<String>,
    pub correlation_id: Option<String>,
    pub attributes: Vec<(String, String)>,
    pub session_id: Option<String>,
    pub flow_id: Option<String>,
    pub node_id: Option<String>,
    pub provider_id: Option<String>,
    pub deadline_ms: Option<i64>,
    pub attempt: u32,
    pub idempotency_key: Option<String>,
    pub impersonation: Option<Impersonation>,
}

/// A request in the other revision.
#[derive(Debug, Clone, PartialEq, Eq)]
pub struct ClientRequest {
    pub method: String,
    pub url: String,
    pub headers: Vec<(String, String)>,
    pub body: Option<Vec<u8>>,
}

/// A response in the other revision.
#[derive(Debug, Clone, PartialEq, Eq)]
pub struct ClientResponse {
    pub status: u16,
    pub headers: Vec<(String, String)>,
    pub body: Option<Vec<u8>>,
}

/// Tunables of one request in the other revision.
#[derive(Debug, Clone, PartialEq, Eq)]
pub struct ClientRequestOptions {
    pub timeout_ms: Option<u32>,
    pub allow_insecure: Option<bool>,
    pub follow_redirects: Option<bool>,
}

/// Who acts for whom, in the other revision.
#[derive(Debug, Clone, PartialEq, Eq)]
pub struct ClientImpersonation {
    pub actor_id: String,
    pub reason: Option<String>,
}

/// The context of an invocation in the other revision.
#[derive(Debug, Clone, PartialEq, Eq)]
pub struct ClientTenantCtx {
    pub env: String,
    pub tenant: String,
    pub tenant_id: String,
    pub team: Option<String>,
    pub team_id: Option<String>,
    pub user: Option<String>,
    pub user_id: Option<String>,
    pub i18n_id: Option<String>,
    pub trace_id: Option<String>,
    pub correlation_id: Option<String>,
    pub attributes: Vec<(String, String)>,
    pub session_id: Option<String>,
    pub flow_id: Option<String>,
    pub node_id: Option<String>,
    pub provider_id: Option<String>,
    pub deadline_ms: Option<i64>,
    pub attempt: u32,
    pub idempotency_key: Option<String>,
    pub impersonation: Option<ClientImpersonation>,
}

/// A transport fault in the other revision.
#[derive(Debug, Clone, PartialEq, Eq)]
pub struct ClientHostError {
    pub code: String,
    pub message: String,
}

/// Whether the request `host` holds what `alias` holds.
pub open spec fn same_request(alias: ClientRequest, host: HttpRequest) -> bool {
    &&& host.method == alias.method
    &&& host.url == alias.url
    &&& host.headers == alias.headers
    &&& host.body == alias.body
}

/// Whether the response `alias` holds what `host` holds.
pub open spec fn same_response(host: HttpResponse, alias: ClientResponse) -> bool {
    &&& alias.status == host.status
    &&& alias.headers == host.headers
    &&& alias.body == host.body
}

/// Whether the tunables `host` hold what `alias` holds.
pub open spec fn same_options(alias: ClientRequestOptions, host: RequestOptions) -> bool {
    &&& host.timeout_ms == alias.timeout_ms
    &&& host.allow_insecure == alias.allow_insecure
    &&& host.follow_redirects == alias.follow_redirects
}

/// Whether the impersonation `host` holds what `alias` holds, or both are absent.
pub open spec fn same_impersonation(alias: Option<ClientImpersonation>, host: Option<Impersonation>) -> bool {
    match (alias, host) {
        (Some(a), Some(h)) => h.actor_id == a.actor_id && h.reason == a.reason,
        (None, None) => true,
        _ => false,
    }
}

/// Whether the context `host` holds what `alias` holds.
pub open spec fn same_context(alias: ClientTenantCtx, host: TenantCtx) -> bool {
    &&& host.env == alias.env
    &&& host.tenant == alias.tenant
    &&& host.tenant_id == alias.tenant_id
    &&& host.team == alias.team
    &&& host.team_id == alias.team_id
    &&& host.user == alias.user
    &&& host.user_id == alias.user_id
    &&& host.i18n_id == alias.i18n_id
    &&& host.trace_id == alias.trace_id
    &&& host.correlation_id == alias.correlation_id
    &&& host.attributes == alias.attributes
    &&& host.session_id == alias.session_id
    &&& host.flow_id == alias.flow_id
    &&& host.node_id == alias.node_id
    &&& host.provider_id == alias.provider_id
    &&& host.deadline_ms == alias.deadline_ms
    &&& host.attempt == alias.attempt
    &&& host.idempotency_key == alias.idempotency_key
    &&& same_impersonation(alias.impersonation, host.impersonation)
}

/// The request in the host's form.
pub fn alias_request_to_host(req: ClientRequest) -> (r: HttpRequest)
    ensures
        same_request(req, r),
{
    HttpRequest { method: req.method, url: req.url, headers: req.headers, body: req.body }
}

/// The tunables in the host's form.
pub fn alias_request_options_to_host(opts: ClientRequestOptions) -> (r: RequestOptions)
    ensures
        same_options(opts, r),
{
    RequestOptions {
        timeout_ms: opts.timeout_ms,
        allow_insecure: opts.allow_insecure,
        follow_redirects: opts.follow_redirects,
    }
}

/// The context in the host's form.
pub fn alias_tenant_ctx_to_host(ctx: ClientTenantCtx) -> (r: TenantCtx)
    ensures
        same_context(ctx, r),
{
    TenantCtx {
        env: ctx.env,
        tenant: ctx.tenant,
        tenant_id: ctx.tenant_id,
        team: ctx.team,
        team_id: ctx.team_id,
        user: ctx.user,
        user_id: ctx.user_id,
        i18n_id: ctx.i18n_id,
        trace_id: ctx.trace_id,
        correlation_id: ctx.correlation_id,
        attributes: ctx.attributes,
        session_id: ctx.session_id,
        flow_id: ctx.flow_id,
        node_id: ctx.node_id,
        provider_id: ctx.provider_id,
        deadline_ms: ctx.deadline_ms,
        attempt: ctx.attempt,
        idempotency_key: ctx.idempotency_key,
        impersonation: match ctx.impersonation {
            Some(i) => Some(Impersonation { actor_id: i.actor_id, reason: i.reason }),
            None => None,
        },
    }
}

/// The response in the caller's form.
pub fn alias_response_from_host(resp: HttpResponse) -> (r: ClientResponse)
    ensures
        same_response(resp, r),
{
    ClientResponse { status: resp.status, headers: resp.headers, body: resp.body }
}

/// The fault in the caller's form.
pub fn alias_error_from_host(err: HttpClientError) -> (r: ClientHostError)
    ensures
        r.code == err.code,
        r.message == err.message,
{
    ClientHostError { code: err.code, message: err.message }
}

/// The tunables in the host's form, where the caller gave any.
pub fn options_to_host(opts: Option<ClientRequestOptions>) -> (r: Option<RequestOptions>)
    ensures
        match (opts, r) {
            (Some(a), Some(h)) => same_options(a, h),
            (None, None) => true,
            _ => false,
        },
{
    match opts {
        Some(o) => Some(alias_request_options_to_host(o)),
        None => None,
    }
}

/// The context in the host's form, where the caller gave one.
pub fn context_to_host(ctx: Option<ClientTenantCtx>) -> (r: Option<TenantCtx>)
    ensures
        match (ctx, r) {
            (Some(a), Some(h)) => same_context(a, h),
            (None, None) => true,
            _ => false,
        },
{
    match ctx {
        Some(c) => Some(alias_tenant_ctx_to_host(c)),
        None => None,
    }
}

/// Transport in the host's revision: the tunables and the context are
/// accepted and play no part in the scripted answer.
pub fn host_send(
    host: &mut TestHostState,
    req: HttpRequest,
    opts: Option<RequestOptions>,
    ctx: Option<TenantCtx>,
) -> (r: Result<HttpResponse, HttpClientError>)
    ensures
        r matches Ok(resp) && resp@ == next_response(old(host)@.transport.queue),
        final(host)@ == after_send(old(host)@, req@),
{
    host.send(req)
}

/// Transport in the other revision: the call is translated, answered by the
/// host as any other call, recorded once, and its answer translated back.
pub fn client_send(
    host: &mut TestHostState,
    req: ClientRequest,
    opts: Option<ClientRequestOptions>,
    ctx: Option<ClientTenantCtx>,
) -> (r: Result<ClientResponse, ClientHostError>)
    ensures
        r matches Ok(resp) && (HttpResponse {
            status: resp.status,
            headers: resp.headers,
            body: resp.body,
        })@ == next_response(old(host)@.transport.queue),
        final(host)@ == after_send(
            old(host)@,
            (HttpRequest { method: req.method, url: req.url, headers: req.headers, body: req.body })@,
        ),
{
    let result = host_send(
        host,
        alias_request_to_host(req),
        options_to_host(opts),
        context_to_host(ctx),
    );
    match result {
        Ok(resp) => Ok(alias_response_from_host(resp)),
        Err(err) => Err(alias_error_from_host(err)),
    }
}

} // verus!
