//! The capabilities that a provider module may call while it runs: outbound
//! transport, secret lookup and keyed state. Transport is answered by the
//! scripted controller; state is not available here and says so.

use vstd::prelude::*;
use vstd::string::StringSliceAdditionalSpecFns;
use crate::assoc;
use crate::http_mock::{
    after_call, after_fault, next_response, HttpFaultV, HttpClientError, HttpRequest, HttpRequestV,
    HttpResponse, MockController, MockV,
};

verus! {

/// A fault of the secret store.
#[derive(Debug, Clone, Copy, PartialEq, Eq)]
pub enum SecretsError {
    NotFound,
    Denied,
    InvalidKey,
    Internal,
}

/// A fault of the state store.
#[derive(Debug)]
pub struct StateStoreError {
    pub code: String,
    pub message: String,
}

/// The acknowledgement of a state operation.
#[derive(Debug, Clone, Copy, PartialEq, Eq)]
pub enum OpAck {
    Acknowledged,
}

/// What a module can reach while it runs: its secrets and the transport.
#[derive(Debug)]
pub struct TestHostState {
    pub last_request: Option<HttpRequest>,
    secrets: Vec<(String, Vec<u8>)>,
    transport: MockController,
}

pub ghost struct HostV {
    pub last_request: Option<HttpRequestV>,
    pub secrets: Seq<(Seq<char>, Seq<u8>)>,
    pub transport: MockV,
}

/// The view of an optional request.
pub open spec fn opt_request(r: Option<HttpRequest>) -> Option<HttpRequestV> {
    match r {
        Some(q) => Some(q@),
        None => None,
    }
}

impl View for TestHostState {
    type V = HostV;

    closed spec fn view(&self) -> HostV {
        HostV {
            last_request: opt_request(self.last_request),
            secrets: assoc::entries_view(self.secrets@),
            transport: self.transport@,
        }
    }
}

/// The state of the host after the module has sent `request`.
pub open spec fn after_send(h: HostV, request: HttpRequestV) -> HostV {
    HostV {
        last_request: Some(request),
        secrets: h.secrets,
        transport: after_call(h.transport, request),
    }
}

/// The word for a fault of the secret store.
pub open spec fn secrets_error_name(e: SecretsError) -> Seq<char> {
    match e {
        SecretsError::NotFound => "NotFound"@,
        SecretsError::Denied => "Denied"@,
        SecretsError::InvalidKey => "InvalidKey"@,
        SecretsError::Internal => "Internal"@,
    }
}

impl SecretsError {
    /// The word for this fault.
    pub fn name(&self) -> (r: &'static str)
        ensures
            r@ == secrets_error_name(*self),
    {
        match self {
            SecretsError::NotFound => "NotFound",
            SecretsError::Denied => "Denied",
            SecretsError::InvalidKey => "InvalidKey",
            SecretsError::Internal => "Internal",
        }
    }
}

/// The state of the host after the module has sent `request` and the
/// transport met the fault `fault`.
pub open spec fn after_failed_send(h: HostV, request: HttpRequestV, fault: HttpFaultV) -> HostV {
    HostV {
        last_request: Some(request),
        secrets: h.secrets,
        transport: after_fault(h.transport, request, fault),
    }
}

/// The code of the fault that every state operation reports.
pub open spec fn state_fault_code() -> Seq<char> {
    "unimplemented"@
}

/// The message of the fault that every state operation reports.
pub open spec fn state_fault_message() -> Seq<char> {
    "state store not available in universal tests"@
}

/// A secret name and value as the store holds them.
pub open spec fn secret_entry(name: &str, value: &str) -> (Seq<char>, Seq<u8>) {
    (name@, value.spec_bytes())
}

/// The secrets that a host has when none are given.
pub open spec fn default_secrets() -> Seq<(Seq<char>, Seq<u8>)> {
    seq![
        secret_entry("SLACK_BOT_TOKEN", "slack-token"),
        secret_entry("SLACK_SIGNING_SECRET", "slack-signing"),
        secret_entry("TELEGRAM_BOT_TOKEN", "telegram-token"),
        secret_entry("MS_GRAPH_CLIENT_SECRET", "ms-graph-secret"),
        secret_entry("MS_GRAPH_REFRESH_TOKEN", "ms-graph-refresh"),
        secret_entry("WEBEX_BOT_TOKEN", "webex-token"),
        secret_entry("WHATSAPP_TOKEN", "whatsapp-token"),
        secret_entry("WHATSAPP_VERIFY_TOKEN", "whatsapp-verify"),
        secret_entry("EMAIL_PASSWORD", "email-secret"),
    ]
}

/// The names of the default secrets differ from each other.
pub proof fn lemma_default_secrets_distinct()
    ensures
        assoc::unique_keys(default_secrets()),
{
    reveal_strlit("SLACK_BOT_TOKEN");
    reveal_strlit("SLACK_SIGNING_SECRET");
    reveal_strlit("TELEGRAM_BOT_TOKEN");
    reveal_strlit("MS_GRAPH_CLIENT_SECRET");
    reveal_strlit("MS_GRAPH_REFRESH_TOKEN");
    reveal_strlit("WEBEX_BOT_TOKEN");
    reveal_strlit("WHATSAPP_TOKEN");
    reveal_strlit("WHATSAPP_VERIFY_TOKEN");
    reveal_strlit("EMAIL_PASSWORD");
    let s = default_secrets();
    assert(s[0].0.len() == 15 && s[0].0[0] == 'S');
    assert(s[1].0.len() == 20);
    assert(s[2].0.len() == 18);
    assert(s[3].0.len() == 22 && s[3].0[9] == 'C');
    assert(s[4].0.len() == 22 && s[4].0[9] == 'R');
    assert(s[5].0.len() == 15 && s[5].0[0] == 'W');
    assert(s[6].0.len() == 14 && s[6].0[0] == 'W');
    assert(s[7].0.len() == 21);
    assert(s[8].0.len() == 14 && s[8].0[0] == 'E');
}

fn push_secret(out: &mut Vec<(String, Vec<u8>)>, name: &str, value: &str)
    ensures
        assoc::entries_view(final(out)@) == assoc::entries_view(old(out)@).push(
            secret_entry(name, value),
        ),
{
    out.push((name.to_owned(), value.as_bytes_vec()));
    assert(assoc::entries_view(out@) =~= assoc::entries_view(old(out)@).push(
        secret_entry(name, value),
    ));
}

/// The secrets that a host has when none are given.
pub fn default_secret_values() -> (r: Vec<(String, Vec<u8>)>)
    ensures
        assoc::entries_view(r@) == default_secrets(),
{
    let mut r: Vec<(String, Vec<u8>)> = Vec::new();
    assert(assoc::entries_view(r@) =~= Seq::empty());
    push_secret(&mut r, "SLACK_BOT_TOKEN", "slack-token");
    push_secret(&mut r, "SLACK_SIGNING_SECRET", "slack-signing");
    push_secret(&mut r, "TELEGRAM_BOT_TOKEN", "telegram-token");
    push_secret(&mut r, "MS_GRAPH_CLIENT_SECRET", "ms-graph-secret");
    push_secret(&mut r, "MS_GRAPH_REFRESH_TOKEN", "ms-graph-refresh");
    push_secret(&mut r, "WEBEX_BOT_TOKEN", "webex-token");
    push_secret(&mut r, "WHATSAPP_TOKEN", "whatsapp-token");
    push_secret(&mut r, "WHATSAPP_VERIFY_TOKEN", "whatsapp-verify");
    push_secret(&mut r, "EMAIL_PASSWORD", "email-secret");
    assert(assoc::entries_view(r@) =~= default_secrets());
    r
}

/// The fault that every state operation reports.
fn state_unavailable() -> (r: StateStoreError)
    ensures
        r.code@ == state_fault_code(),
        r.message@ == state_fault_message(),
{
    StateStoreError {
        code: "unimplemented".to_owned(),
        message: "state store not available in universal tests".to_owned(),
    }
}

impl TestHostState {
    /// A host with the given secrets and transport, which has sent nothing
    /// yet. The store holds every name once: of the secrets given under one
    /// name the last counts.
    pub fn with_secrets(secrets: Vec<(String, Vec<u8>)>, transport: MockController) -> (r:
        TestHostState)
        ensures
            r@.secrets == assoc::collected(assoc::entries_view(secrets@)),
            assoc::unique_keys(r@.secrets),
            r@.transport == transport@,
            r@.last_request is None,
    {
        TestHostState { last_request: None, secrets: assoc::collect(secrets), transport }
    }

    /// A host with the default secrets and a transport with nothing queued.
    pub fn with_default_secrets() -> (r: TestHostState)
        ensures
            r@.secrets == default_secrets(),
            assoc::unique_keys(r@.secrets),
            r@.transport.queue.len() == 0,
            r@.transport.history.len() == 0,
            r@.last_request is None,
    {
        proof {
            lemma_default_secrets_distinct();
            assoc::lemma_collected(default_secrets());
        }
        TestHostState::with_secrets(default_secret_values(), MockController::new())
    }

    /// Outbound transport: the request is kept as the last one sent, answered
    /// by the scripted controller and recorded there. It never fails.
    pub fn send(&mut self, req: HttpRequest) -> (r: Result<HttpResponse, HttpClientError>)
        ensures
            r matches Ok(resp) && resp@ == next_response(old(self)@.transport.queue),
            final(self)@ == after_send(old(self)@, req@),
    {
        self.last_request = Some(req.duplicate());
        let resp = self.transport.respond(req);
        Ok(resp)
    }

    /// Outbound transport that met the fault `fault`: the request is kept as
    /// the last one sent, the call is recorded with its fault, and the fault
    /// is handed to the module.
    pub fn send_failed(&mut self, req: HttpRequest, fault: HttpClientError) -> (r: Result<
        HttpResponse,
        HttpClientError,
    >)
        ensures
            r matches Err(e) && e@ == fault@,
            final(self)@ == after_failed_send(old(self)@, req@, fault@),
    {
        self.last_request = Some(req.duplicate());
        Err(self.transport.record_fault(req, fault))
    }

    /// Secret lookup: the bytes held under `key`, or nothing. It never fails.
    pub fn get(&self, key: &str) -> (r: Result<Option<Vec<u8>>, SecretsError>)
        ensures
            r matches Ok(found) && crate::http_mock::opt_bytes(found) == assoc::lookup(
                self@.secrets,
                key@,
            ),
    {
        match assoc::get(&self.secrets, key) {
            Some(bytes) => Ok(Some(assoc::clone_bytes(bytes))),
            None => Ok(None),
        }
    }

    /// Stores a secret under `key`, in place of the one held there. A store
    /// that held every name once still does.
    pub fn put(&mut self, key: String, value: Vec<u8>)
        ensures
            final(self)@.secrets == assoc::put(old(self)@.secrets, key@, value@),
            assoc::unique_keys(old(self)@.secrets) ==> assoc::unique_keys(final(self)@.secrets),
            final(self)@.transport == old(self)@.transport,
            final(self)@.last_request == old(self)@.last_request,
    {
        assoc::insert(&mut self.secrets, key, value);
    }

    /// Keyed state, read: not available, whatever the key and context.
    pub fn read(&mut self, key: &str, ctx: Option<crate::bridge::TenantCtx>) -> (r: Result<
        Vec<u8>,
        StateStoreError,
    >)
        ensures
            r matches Err(e) && e.code@ == state_fault_code() && e.message@
                == state_fault_message(),
            final(self)@ == old(self)@,
    {
        Err(state_unavailable())
    }

    /// Keyed state, write: not available.
    pub fn write(
        &mut self,
        key: &str,
        bytes: Vec<u8>,
        ctx: Option<crate::bridge::TenantCtx>,
    ) -> (r: Result<OpAck, StateStoreError>)
        ensures
            r matches Err(e) && e.code@ == state_fault_code() && e.message@
                == state_fault_message(),
            final(self)@ == old(self)@,
    {
        Err(state_unavailable())
    }

    /// Keyed state, delete: not available.
    pub fn delete(&mut self, key: &str, ctx: Option<crate::bridge::TenantCtx>) -> (r: Result<
        OpAck,
        StateStoreError,
    >)
        ensures
            r matches Err(e) && e.code@ == state_fault_code() && e.message@
                == state_fault_message(),
            final(self)@ == old(self)@,
    {
        Err(state_unavailable())
    }

    /// The transport, to queue responses on.
    pub fn queue_response(&mut self, status: u16, body: Vec<u8>)
        ensures
            final(self)@.transport.queue == old(self)@.transport.queue.push((status, body@)),
            final(self)@.transport.history == old(self)@.transport.history,
            final(self)@.secrets == old(self)@.secrets,
            final(self)@.last_request == old(self)@.last_request,
    {
        self.transport.queue_response(status, body);
    }

    /// The calls that the module has made, in the order of issue.
    pub fn history(&self) -> (r: Vec<crate::http_mock::HttpCall>)
        ensures
            crate::http_mock::calls_view(r@) == self@.transport.history,
    {
        self.transport.history()
    }
}

impl Default for TestHostState {
    fn default() -> (r: TestHostState)
        ensures
            r@.secrets == default_secrets(),
            r@.transport.queue.len() == 0,
            r@.transport.history.len() == 0,
            r@.last_request is None,
    {
        TestHostState::with_default_secrets()
    }
}

/// The places, below the root of the workspace, where the compiled component `name` may lie.
pub open spec fn component_places(name: Seq<char>) -> Seq<Seq<char>> {
    seq![
        "target/components/"@ + name + ".wasm"@,
        "target/wasm32-wasip2/release/"@ + name + ".wasm"@,
        "target/wasm32-wasip2/debug/"@ + name + ".wasm"@,
        "target/wasm32-wasip2/wasm32-wasip2/release/"@ + name + ".wasm"@,
        "target/wasm32-wasip2/wasm32-wasip2/debug/"@ + name + ".wasm"@,
        "components/"@ + name + "/target/wasm32-wasip2/release/"@ + name + ".wasm"@,
        "components/"@ + name + "/target/wasm32-wasip2/debug/"@ + name + ".wasm"@,
    ]
}

fn place(out: &mut Vec<String>, before: &str, dir: &str, middle: &str, name: &str)
    ensures
        crate::text::strings_view(final(out)@) == crate::text::strings_view(old(out)@).push(
            before@ + dir@ + middle@ + name@ + ".wasm"@,
        ),
{
    let mut p = before.to_owned();
    p.append(dir);
    p.append(middle);
    p.append(name);
    p.append(".wasm");
    out.push(p);
    assert(crate::text::strings_view(out@) =~= crate::text::strings_view(old(out)@).push(
        before@ + dir@ + middle@ + name@ + ".wasm"@,
    ));
}

/// The places where the compiled component `name` may lie, in the order in which they are tried.
pub fn component_candidates(name: &str) -> (r: Vec<String>)
    ensures
        crate::text::strings_view(r@) == component_places(name@),
{
    let mut out: Vec<String> = Vec::new();
    assert(crate::text::strings_view(out@) =~= Seq::empty());
    proof {
        reveal_strlit("");
    }
    let empty = "";
    assert(empty@ =~= Seq::<char>::empty());
    place(&mut out, "target/components/", empty, empty, name);
    place(&mut out, "target/wasm32-wasip2/release/", empty, empty, name);
    place(&mut out, "target/wasm32-wasip2/debug/", empty, empty, name);
    place(&mut out, "target/wasm32-wasip2/wasm32-wasip2/release/", empty, empty, name);
    place(&mut out, "target/wasm32-wasip2/wasm32-wasip2/debug/", empty, empty, name);
    place(&mut out, "components/", name, "/target/wasm32-wasip2/release/", name);
    place(&mut out, "components/", name, "/target/wasm32-wasip2/debug/", name);
    assert(crate::text::strings_view(out@) =~= component_places(name@));
    out
}

} // verus!
