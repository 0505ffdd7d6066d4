//! Driving a provider module: the values are held against the requirements
//! first, and only values that meet them let the module be invoked. A run
//! hands back every call that the module made, also when it failed.

use vstd::prelude::*;
use crate::assoc;
use crate::card::{card_text, extract_card_text};
use crate::cli::CliError;
use crate::dto::{
    bool_at, decode_http_out, decode_payload, encode_in_json, http_in_json, EncodeInV, EncodeInV1,
    HttpOutV, HttpOutV1, ProviderPayloadV1, RenderPlanInV, RenderPlanInV1, SendPayloadResultV1,
};
use crate::envelope::{
    destinations_view, ChannelMessageEnvelope, Destination, EnvelopeV, PartyV, TenantCtx,
};
use crate::host::{HostV, TestHostState};
use crate::http_mock::{calls_view, HttpCall, HttpCallV, MockController, MockV};
use crate::ingress::{http_in_file_to_v1, http_in_of, HttpInFile, HttpInFileV};
use crate::json;
use crate::json::{Json, JsonV};
use crate::pipeline::{
    next, planning_input, step, ActionV, EncodeOutcome, EncodeOutcomeV, EventV, Fault, FaultV,
    PipelineAction, PipelineEvent, PipelineState, StateV,
};
use crate::requirements::{permitted, validation, Requirements, RequirementsV};
use crate::text;
use crate::values::{metadata_entries, secret_entries, Values, ValuesV};
use crate::webex::ops;

verus! {

/// A provider module: it names its type and answers operations on bytes,
/// calling the host as it goes. What it answers, and what it does to the
/// host, depends on the operation, the input and the host alone.
pub trait ProviderModule {
    /// The type that the module declares.
    spec fn declared_type(&self) -> Seq<char>;

    /// The bytes that the module answers.
    spec fn output(&self, op: Seq<char>, input: Seq<u8>, h: HostV) -> Seq<u8>;

    /// The host after the module has answered.
    spec fn host_after(&self, op: Seq<char>, input: Seq<u8>, h: HostV) -> HostV;

    fn provider_type(&self) -> (r: String)
        ensures
            r@ == self.declared_type(),
    ;

    fn invoke(&self, op: &str, input: &[u8], host: &mut TestHostState) -> (r: Vec<u8>)
        ensures
            r@ == self.output(op@, input@, old(host)@),
            final(host)@ == self.host_after(op@, input@, old(host)@),
    ;
}

/// The Webex provider as a module.
#[derive(Debug, Clone, Copy)]
pub struct WebexProvider;

impl ProviderModule for WebexProvider {
    open spec fn declared_type(&self) -> Seq<char> {
        crate::webex::provider_type()
    }

    open spec fn output(&self, op: Seq<char>, input: Seq<u8>, h: HostV) -> Seq<u8> {
        ops::invoke_output(op, input, h)
    }

    open spec fn host_after(&self, op: Seq<char>, input: Seq<u8>, h: HostV) -> HostV {
        ops::host_after_invoke(op, input, h)
    }

    fn provider_type(&self) -> (r: String) {
        "messaging.webex.bot".to_owned()
    }

    fn invoke(&self, op: &str, input: &[u8], host: &mut TestHostState) -> (r: Vec<u8>) {
        ops::invoke(op, input, host)
    }
}

/// What a send run gave when it went through.
#[derive(Debug)]
pub struct SendReport {
    pub plan: Json,
    pub payload: ProviderPayloadV1,
    pub result: SendPayloadResultV1,
}

/// A send run: how it ended, and the calls that the module made.
#[derive(Debug)]
pub struct SendRun {
    pub outcome: Result<SendReport, CliError>,
    pub http_calls: Vec<HttpCall>,
}

/// An ingress run: how it ended, and the calls that the module made.
#[derive(Debug)]
pub struct IngestRun {
    pub outcome: Result<HttpOutV1, CliError>,
    pub http_calls: Vec<HttpCall>,
}

/// The input that the module is asked to encode with.
pub open spec fn encode_input(message: EnvelopeV) -> Seq<u8> {
    json::encoding(
        encode_in_json(
            EncodeInV { message, plan: RenderPlanInV { message, metadata: Seq::empty() } },
        ),
    )
}

/// What the answer `bytes` of the module to encoding says.
pub open spec fn encode_outcome_of(bytes: Seq<u8>) -> EncodeOutcomeV {
    match json::parsed(bytes) {
        Err(e) => EncodeOutcomeV { ok: false, payload: None, error: Some(e) },
        Ok(v) => EncodeOutcomeV {
            ok: bool_at(v, "ok"@) == Some(true),
            payload: match v.get("payload"@) {
                Some(p) => decode_payload(p),
                None => None,
            },
            error: v.str_at("error"@),
        },
    }
}

/// Where a send run of `message` through the module `p` ends, and the host
/// at its end: planning, then encoding, then sending, each asked of the
/// module only where the step before went well.
pub open spec fn run_end<P: ProviderModule>(p: &P, message: EnvelopeV, h: HostV) -> (StateV, HostV) {
    let provider_type = p.declared_type();
    let s1 = next(StateV::Idle, EventV::Start { message, provider_type }).0;
    let in1 = planning_input(message);
    let h1 = p.host_after("render_plan"@, in1, h);
    let planned = next(s1, EventV::Answered(p.output("render_plan"@, in1, h)));
    match planned.1 {
        ActionV::Encode { plan_json, message: m, provider_type: pt } => {
            let in2 = encode_input(m);
            let h2 = p.host_after("encode"@, in2, h1);
            let encoded = next(
                planned.0,
                EventV::Encoded(encode_outcome_of(p.output("encode"@, in2, h1))),
            );
            match encoded.1 {
                ActionV::Invoke { op, input } => (
                    next(encoded.0, EventV::Answered(p.output(op, input, h2))).0,
                    p.host_after(op, input, h2),
                ),
                _ => (encoded.0, h2),
            }
        },
        _ => (planned.0, h1),
    }
}

/// Where the module does not answer planning with a plan that went well,
/// the run ends as failed at planning, and the module was asked for nothing
/// but the plan: the host is as planning left it.
pub proof fn lemma_failed_planning_stops_run<P: ProviderModule>(p: &P, message: EnvelopeV, h: HostV)
    requires
        json::parsed(p.output("render_plan"@, planning_input(message), h)) matches Ok(v)
            ==> bool_at(v, "ok"@) != Some(true),
    ensures
        run_end(p, message, h).0 matches StateV::Failed { stage, .. } && stage
            == crate::pipeline::Stage::RenderPlan,
        run_end(p, message, h).1 == p.host_after("render_plan"@, planning_input(message), h),
{
}

/// The envelope of a message that the tool sends for `provider`.
pub open spec fn message_envelope(
    provider: Seq<char>,
    text: Option<Seq<char>>,
    card: Option<JsonV>,
    metadata: Seq<(Seq<char>, Seq<char>)>,
    destinations: Seq<PartyV>,
) -> EnvelopeV {
    let channel = match assoc::lookup(metadata, "channel"@) {
        Some(c) => c,
        None => provider,
    };
    EnvelopeV {
        id: "tester-"@ + provider + "-"@ + channel,
        env: "manual"@,
        tenant: "manual"@,
        channel,
        session_id: channel,
        from: None,
        to: destinations,
        correlation_id: None,
        text,
        attachments: Seq::empty(),
        metadata: match card {
            Some(c) => match json::printed_text(c) {
                Some(t) => assoc::put(metadata, "adaptive_card"@, t),
                None => metadata,
            },
            None => metadata,
        },
    }
}

/// The text of a message: the given text unless blank, else the text of
/// the card, else a word for the card.
pub open spec fn final_text(text: Option<Seq<char>>, card: Option<JsonV>) -> Option<Seq<char>> {
    match crate::webex::ingest::unless_blank(text) {
        Some(t) => Some(t),
        None => match card {
            Some(c) => match card_text(c) {
                Some(t) => Some(t),
                None => Some("adaptive card"@),
            },
            None => None,
        },
    }
}

/// The message that the tool prepares, or why it prepares none: a text or
/// a card is needed, and a destination that is named must not be blank.
pub open spec fn prepared_message(
    provider: Seq<char>,
    values: ValuesV,
    text: Option<Seq<char>>,
    card: Option<JsonV>,
    to: Option<Seq<char>>,
    to_kind: Option<Seq<char>>,
) -> Result<EnvelopeV, Seq<char>> {
    if text is None && card is None {
        Err("send requires --text or --card"@)
    } else if to is Some && text::trimmed(to->0).len() == 0 {
        Err("--to cannot be empty"@)
    } else {
        Ok(
            message_envelope(
                provider,
                final_text(text, card),
                card,
                metadata_entries(values.to),
                match to {
                    Some(d) => seq![PartyV { id: text::trimmed(d), kind: to_kind }],
                    None => Seq::empty(),
                },
            ),
        )
    }
}

/// The host that a run starts on: the secrets of the values, each name
/// once, the given transport, and nothing sent yet.
pub open spec fn initial_host(values: ValuesV, transport: MockV) -> HostV {
    HostV {
        last_request: None,
        secrets: assoc::collected(secret_entries(values.secrets)),
        transport,
    }
}

/// The values with the public base URL in their configuration.
pub open spec fn with_public_base_url(values: ValuesV, url: Seq<char>) -> ValuesV {
    ValuesV {
        config: assoc::put(values.config, "public_base_url"@, JsonV::Str(url)),
        secrets: values.secrets,
        to: values.to,
        http: values.http,
        state: values.state,
    }
}

/// The input that the module is asked to ingest.
pub open spec fn ingest_input(request: HttpInFileV) -> Seq<u8> {
    json::encoding(http_in_json(http_in_of(request)))
}

/// What the answer `bytes` of the module to an inbound request says.
pub open spec fn ingest_outcome_of(bytes: Seq<u8>) -> Result<HttpOutV, Seq<char>> {
    match json::parsed(bytes) {
        Err(e) => Err(e),
        Ok(v) => match decode_http_out(v) {
            Some(o) => Ok(o),
            None => Err("ingest_http gave no answer"@),
        },
    }
}

/// Whether the failure `e` is the one that the fault `f` stands for.
pub open spec fn is_fault(e: CliError, f: FaultV) -> bool {
    match f {
        FaultV::Provider(m) => e matches CliError::ProviderOp(t) && t@ == m,
        FaultV::Network(m) => e matches CliError::Network(t) && t@ == m,
    }
}

/// The envelope of a message that the tool sends for `provider`.
pub fn build_message_envelope(
    provider: &str,
    text: Option<String>,
    card: Option<Json>,
    metadata: Vec<(String, String)>,
    destinations: Vec<Destination>,
) -> (r: ChannelMessageEnvelope)
    ensures
        r@ == message_envelope(
            provider@,
            json::opt_view(text),
            crate::webex::send::opt_json(card),
            assoc::entries_view(metadata@),
            destinations_view(destinations@),
        ),
        assoc::unique_keys(assoc::entries_view(metadata@)) ==> crate::envelope::well_formed(r@),
{
    let channel = match assoc::get(&metadata, "channel") {
        Some(c) => c.clone(),
        None => provider.to_owned(),
    };
    let mut message_metadata = metadata;
    match &card {
        Some(c) => match c.to_text() {
            Some(t) => {
                assoc::insert(&mut message_metadata, "adaptive_card".to_owned(), t);
            },
            None => {},
        },
        None => {},
    }
    let mut id = "tester-".to_owned();
    id.append(provider);
    id.push('-');
    id.append(channel.as_str());
    let attachments: Vec<crate::envelope::Attachment> = Vec::new();
    let r = ChannelMessageEnvelope {
        id,
        tenant: TenantCtx::new("manual", "manual"),
        channel: channel.clone(),
        session_id: channel,
        from: None,
        to: destinations,
        correlation_id: None,
        text,
        attachments,
        metadata: message_metadata,
    };
    proof {
        reveal_strlit("-");
        assert(r@.id =~= "tester-"@ + provider@ + "-"@ + r@.channel);
        assert(r@.attachments =~= Seq::empty());
    }
    r
}

/// Puts the public base URL into the configuration of the values. Values
/// whose maps held every key once still do.
pub fn inject_public_base_url(values: &mut Values, public_base_url: &str)
    ensures
        final(values)@ == with_public_base_url(old(values)@, public_base_url@),
        crate::values::well_formed(old(values)@) ==> crate::values::well_formed(final(values)@),
{
    assoc::insert(&mut values.config, "public_base_url".to_owned(), Json::string(public_base_url));
}

/// What the answer `bytes` of the module to encoding says.
pub fn read_encode_answer(bytes: &[u8]) -> (r: EncodeOutcome)
    ensures
        r@ == encode_outcome_of(bytes@),
{
    match Json::parse(bytes) {
        Err(e) => EncodeOutcome { ok: false, payload: None, error: Some(e) },
        Ok(v) => {
            let ok = match v.get("ok") {
                Some(b) => match b.as_bool() {
                    Some(true) => true,
                    _ => false,
                },
                None => false,
            };
            let payload = match v.get("payload") {
                Some(p) => ProviderPayloadV1::from_json(p),
                None => None,
            };
            EncodeOutcome { ok, payload, error: v.str_at("error") }
        },
    }
}

/// Runs the send pipeline on `message` through the module `provider`.
pub fn run_send_pipeline<P: ProviderModule>(
    provider: &P,
    message: ChannelMessageEnvelope,
    host: &mut TestHostState,
) -> (r: PipelineState)
    ensures
        r@ == run_end(provider, message@, old(host)@).0,
        final(host)@ == run_end(provider, message@, old(host)@).1,
{
    let provider_type = provider.provider_type();
    let (s1, a1) = step(PipelineState::Idle, PipelineEvent::Start { message, provider_type });
    let (s2, a2) = match a1 {
        PipelineAction::Invoke { op, input } => {
            let out = provider.invoke(op.as_str(), input.as_slice(), host);
            step(s1, PipelineEvent::Answered(out))
        },
        _ => {
            return s1;
        },
    };
    let (s3, a3) = match a2 {
        PipelineAction::Encode { plan_json, message, provider_type } => {
            let encode_in = EncodeInV1 {
                message: message.duplicate(),
                plan: RenderPlanInV1 { message, metadata: json::no_members() },
            };
            let input = encode_in.to_json().to_bytes();
            let out = provider.invoke("encode", input.as_slice(), host);
            step(s2, PipelineEvent::Encoded(read_encode_answer(out.as_slice())))
        },
        _ => {
            return s2;
        },
    };
    match a3 {
        PipelineAction::Invoke { op, input } => {
            let out = provider.invoke(op.as_str(), input.as_slice(), host);
            step(s3, PipelineEvent::Answered(out)).0
        },
        _ => s3,
    }
}

/// The message that the tool prepares from what it was given, or why it prepares none.
pub fn prepare_message(
    provider: &str,
    values: &Values,
    text: Option<String>,
    card: Option<Json>,
    to: Option<String>,
    to_kind: Option<String>,
) -> (r: Result<ChannelMessageEnvelope, String>)
    ensures
        crate::webex::direct::envelope_result(r) == prepared_message(
            provider@,
            values@,
            json::opt_view(text),
            crate::webex::send::opt_json(card),
            json::opt_view(to),
            json::opt_view(to_kind),
        ),
        crate::values::well_formed(values@) ==> (r matches Ok(e) ==> crate::envelope::well_formed(
            e@,
        )),
{
    if text.is_none() && card.is_none() {
        return Err("send requires --text or --card".to_owned());
    }
    let explicit_text = match text {
        Some(t) => if text::trim(t.as_str()).as_str().unicode_len() == 0 {
            None
        } else {
            Some(t)
        },
        None => None,
    };
    let final_text = match explicit_text {
        Some(t) => Some(t),
        None => match &card {
            Some(c) => match extract_card_text(c) {
                Some(t) => Some(t),
                None => Some("adaptive card".to_owned()),
            },
            None => None,
        },
    };
    let metadata = values.to_metadata();
    let mut destinations: Vec<Destination> = Vec::new();
    match to {
        Some(destination) => {
            let trimmed = text::trim(destination.as_str());
            if trimmed.as_str().unicode_len() == 0 {
                return Err("--to cannot be empty".to_owned());
            }
            let d = Destination { id: trimmed, kind: to_kind };
            destinations.push(d);
            assert(destinations_view(destinations@) =~= seq![d@]);
        },
        None => {
            assert(destinations_view(destinations@) =~= Seq::empty());
        },
    }
    Ok(build_message_envelope(provider, final_text, card, metadata, destinations))
}

/// The failure that the fault `f` stands for.
pub fn fault_error(f: Fault) -> (r: CliError)
    ensures
        is_fault(r, f@),
{
    match f {
        Fault::Provider(m) => CliError::ProviderOp(m),
        Fault::Network(m) => CliError::Network(m),
    }
}

/// Sends one message through the module `provider`. Values that lack a
/// required key end the run before the module is invoked; otherwise the
/// message is prepared and taken through planning, encoding and sending. The
/// calls that the module made are handed back however the run ended.
pub fn handle_send<P: ProviderModule>(
    provider_name: &str,
    provider: &P,
    requirements: &Requirements,
    values: &Values,
    text: Option<String>,
    card: Option<Json>,
    to: Option<String>,
    to_kind: Option<String>,
    transport: MockController,
) -> (r: SendRun)
    ensures
        !permitted(requirements@, values@) ==> {
            &&& r.outcome matches Err(CliError::Validation { report })
            &&& report@ == validation(requirements@, values@)
            &&& calls_view(r.http_calls@) == transport@.history
        },
        permitted(requirements@, values@) ==> match prepared_message(
            provider_name@,
            values@,
            json::opt_view(text),
            crate::webex::send::opt_json(card),
            json::opt_view(to),
            json::opt_view(to_kind),
        ) {
            Err(m) => {
                &&& r.outcome matches Err(CliError::ProviderOp(t))
                &&& t@ == m
                &&& calls_view(r.http_calls@) == transport@.history
            },
            Ok(message) => {
                let end = run_end(provider, message, initial_host(values@, transport@));
                &&& calls_view(r.http_calls@) == end.1.transport.history
                &&& match end.0 {
                    StateV::Done { plan, payload, result } => r.outcome matches Ok(report)
                        && report.plan@ == plan && report.payload@ == payload && report.result@
                        == result,
                    StateV::Failed { stage, fault } => r.outcome matches Err(e) && is_fault(
                        e,
                        fault,
                    ),
                    _ => r.outcome matches Err(CliError::ProviderOp(t)) && t@
                        == "pipeline did not finish"@,
                }
            },
        },
{
    let report = requirements.validate(values);
    if !report.is_empty() {
        return SendRun {
            outcome: Err(CliError::Validation { report }),
            http_calls: transport.history(),
        };
    }
    let message = match prepare_message(provider_name, values, text, card, to, to_kind) {
        Ok(m) => m,
        Err(m) => {
            return SendRun { outcome: Err(CliError::ProviderOp(m)), http_calls: transport.history() };
        },
    };
    let mut host = TestHostState::with_secrets(values.secret_bytes(), transport);
    let end = run_send_pipeline(provider, message, &mut host);
    let http_calls = host.history();
    let outcome = match end {
        PipelineState::Done { plan, payload, result } => Ok(SendReport { plan, payload, result }),
        PipelineState::Failed { stage, fault } => Err(fault_error(fault)),
        _ => Err(CliError::ProviderOp("pipeline did not finish".to_owned())),
    };
    SendRun { outcome, http_calls }
}

/// What the answer `bytes` of the module to an inbound request says.
pub fn read_ingest_answer(bytes: &[u8]) -> (r: Result<HttpOutV1, String>)
    ensures
        match r {
            Ok(o) => ingest_outcome_of(bytes@) == Ok::<HttpOutV, Seq<char>>(o@),
            Err(e) => ingest_outcome_of(bytes@) == Err::<HttpOutV, Seq<char>>(e@),
        },
{
    match Json::parse(bytes) {
        Err(e) => Err(e),
        Ok(v) => match HttpOutV1::from_json(&v) {
            Some(o) => Ok(o),
            None => Err("ingest_http gave no answer".to_owned()),
        },
    }
}

/// Hands one inbound request to the module `provider`, behind the same
/// gate as a send run: the values, with the public base URL in their
/// configuration, must meet the requirements.
pub fn handle_ingress<P: ProviderModule>(
    provider: &P,
    requirements: &Requirements,
    values: Values,
    http_in: HttpInFile,
    public_base_url: &str,
    transport: MockController,
) -> (r: IngestRun)
    ensures
        ({
            let v = with_public_base_url(values@, public_base_url@);
            let h = initial_host(v, transport@);
            let input = ingest_input(http_in@);
            &&& !permitted(requirements@, v) ==> {
                &&& r.outcome matches Err(CliError::Validation { report })
                &&& report@ == validation(requirements@, v)
                &&& calls_view(r.http_calls@) == transport@.history
            }
            &&& permitted(requirements@, v) ==> {
                &&& calls_view(r.http_calls@) == provider.host_after(
                    "ingest_http"@,
                    input,
                    h,
                ).transport.history
                &&& match ingest_outcome_of(provider.output("ingest_http"@, input, h)) {
                    Ok(o) => r.outcome matches Ok(out) && out@ == o,
                    Err(m) => r.outcome matches Err(CliError::ProviderOp(t)) && t@ == m,
                }
            }
        }),
{
    let mut values = values;
    inject_public_base_url(&mut values, public_base_url);
    let report = requirements.validate(&values);
    if !report.is_empty() {
        return IngestRun {
            outcome: Err(CliError::Validation { report }),
            http_calls: transport.history(),
        };
    }
    let mut host = TestHostState::with_secrets(values.secret_bytes(), transport);
    let input = http_in_file_to_v1(http_in).to_json().to_bytes();
    let out = provider.invoke("ingest_http", input.as_slice(), &mut host);
    let http_calls = host.history();
    let outcome = match read_ingest_answer(out.as_slice()) {
        Ok(o) => Ok(o),
        Err(m) => Err(CliError::ProviderOp(m)),
    };
    IngestRun { outcome, http_calls }
}

/// What the tool prints of requirements: the sample values that they
/// offer, else the requirements as they were read.
pub open spec fn requirements_shown(req: RequirementsV, raw: JsonV) -> JsonV {
    match req.values {
        Some(v) => crate::values::values_json(v),
        None => raw,
    }
}

/// What the tool prints of requirements.
pub fn requirements_output(req: &Requirements, raw: Json) -> (r: Json)
    ensures
        r@ == requirements_shown(req@, raw@),
{
    match &req.values {
        Some(v) => v.to_json(),
        None => raw,
    }
}

/// The fault that stands for a transport error with `code` and `message`.
pub fn network_fault(code: &str, message: &str) -> (r: Fault)
    ensures
        r@ == FaultV::Network(code@ + ": "@ + message@),
{
    let mut m = code.to_owned();
    m.append(": ");
    m.append(message);
    Fault::Network(m)
}

/// The line that tells of one call.
pub open spec fn history_line(op: Seq<char>, idx: nat, call: HttpCallV) -> Seq<char> {
    "http history ["@ + op + "] call #"@ + text::decimal(idx) + " "@ + call.request.method + " "@
        + call.request.url + (match call.result {
        crate::http_mock::CallResultV::Response(resp) => " status="@ + text::decimal(
            resp.status as nat,
        ),
        crate::http_mock::CallResultV::Fault(f) => " fault="@ + f.code,
    }) + " body="@ + (match call.request.body {
        Some(b) => crate::codec::base64_text(b),
        None => "<no body>"@,
    })
}

/// The lines that tell of the calls made during the operation `op`.
pub open spec fn history_lines(op: Seq<char>, calls: Seq<HttpCallV>) -> Seq<Seq<char>> {
    if calls.len() == 0 {
        seq!["http history ["@ + op + "]: <empty>"@]
    } else {
        Seq::new(calls.len(), |i: int| history_line(op, i as nat, calls[i]))
    }
}

/// The lines that tell of the calls made during the operation `op`.
pub fn log_http_history(op: &str, calls: &Vec<HttpCall>) -> (r: Vec<String>)
    ensures
        text::strings_view(r@) == history_lines(op@, calls_view(calls@)),
{
    let mut out: Vec<String> = Vec::new();
    if calls.len() == 0 {
        let mut line = "http history [".to_owned();
        line.append(op);
        line.append("]: <empty>");
        out.push(line);
        assert(text::strings_view(out@) =~= history_lines(op@, calls_view(calls@)));
        return out;
    }
    let mut i: usize = 0;
    while i < calls.len()
        invariant
            i <= calls.len(),
            out@.len() == i,
            forall|k: int| 0 <= k < i ==> out@[k]@ == history_line(op@, k as nat, calls@[k]@),
        decreases calls.len() - i,
    {
        let call = &calls[i];
        let mut line = "http history [".to_owned();
        line.append(op);
        line.append("] call #");
        line.append(text::u64_to_string(i as u64).as_str());
        line.append(" ");
        line.append(call.request.method.as_str());
        line.append(" ");
        line.append(call.request.url.as_str());
        match &call.result {
            crate::http_mock::CallResult::Response(resp) => {
                line.append(" status=");
                line.append(text::u64_to_string(resp.status as u64).as_str());
            },
            crate::http_mock::CallResult::Fault(f) => {
                line.append(" fault=");
                line.append(f.code.as_str());
            },
        }
        line.append(" body=");
        match &call.request.body {
            Some(b) => {
                line.append(crate::codec::base64_encode(b.as_slice()).as_str());
            },
            None => {
                line.append("<no body>");
            },
        }
        assert(line@ =~= history_line(op@, i as nat, call@));
        out.push(line);
        i += 1;
    }
    assert(text::strings_view(out@) =~= history_lines(op@, calls_view(calls@)));
    out
}

/// Hands the request that the listener took to the module `provider` and
/// gives the envelopes that the module made of it.
pub fn ingest_http_request<P: ProviderModule>(
    provider: &P,
    secrets: &Vec<(String, Vec<u8>)>,
    http_in: HttpInFile,
) -> (r: Result<Vec<ChannelMessageEnvelope>, String>)
    ensures
        ({
            let h = HostV {
                last_request: None,
                secrets: assoc::collected(assoc::entries_view(secrets@)),
                transport: MockV { queue: Seq::empty(), history: Seq::empty() },
            };
            match ingest_outcome_of(provider.output("ingest_http"@, ingest_input(http_in@), h)) {
                Ok(o) => r matches Ok(events) && crate::dto::envelopes_view(events@) == o.events,
                Err(m) => r matches Err(t) && t@ == m,
            }
        }),
{
    let transport = MockController::new();
    assert(transport@.queue =~= Seq::empty());
    assert(transport@.history =~= Seq::empty());
    let mut host = TestHostState::with_secrets(assoc::clone_secrets(secrets), transport);
    let input = http_in_file_to_v1(http_in).to_json().to_bytes();
    let out = provider.invoke("ingest_http", input.as_slice(), &mut host);
    match read_ingest_answer(out.as_slice()) {
        Ok(o) => Ok(o.events),
        Err(m) => Err(m),
    }
}

} // verus!
