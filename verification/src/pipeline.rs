//! The send pipeline as a state machine: planning, encoding and sending,
//! each step taken on the answer to the last. A failure at any step ends the
//! run; nothing is asked of the module after it.

use vstd::prelude::*;
use crate::dto::{
    bool_at, decode_send_result, render_plan_in_json, send_in_json, PayloadV, ProviderPayloadV1,
    RenderPlanInV, RenderPlanInV1, SendInV, SendPayloadInV1, SendPayloadResultV1, SendResultV,
};
use crate::envelope::{ChannelMessageEnvelope, EnvelopeV};
use crate::json;
use crate::json::{Json, JsonV};
use crate::text;

verus! {

/// The steps of the pipeline.
#[derive(Debug, Clone, Copy, PartialEq, Eq)]
pub enum Stage {
    RenderPlan,
    Encode,
    SendPayload,
}

/// Why a step failed: the module or the encoder said so, or the network did.
#[derive(Debug)]
pub enum Fault {
    Provider(String),
    Network(String),
}

/// What encoding gave.
#[derive(Debug)]
pub struct EncodeOutcome {
    pub ok: bool,
    pub payload: Option<ProviderPayloadV1>,
    pub error: Option<String>,
}

/// Where a run stands.
#[derive(Debug)]
pub enum PipelineState {
    Idle,
    Planning { message: ChannelMessageEnvelope, provider_type: String },
    Encoding { message: ChannelMessageEnvelope, provider_type: String, plan: Json },
    Sending { plan: Json, payload: ProviderPayloadV1 },
    Done { plan: Json, payload: ProviderPayloadV1, result: SendPayloadResultV1 },
    Failed { stage: Stage, fault: Fault },
}

/// What happened.
#[derive(Debug)]
pub enum PipelineEvent {
    Start { message: ChannelMessageEnvelope, provider_type: String },
    Answered(Vec<u8>),
    InvokeFailed(Fault),
    Encoded(EncodeOutcome),
}

/// What is to be done next.
#[derive(Debug)]
pub enum PipelineAction {
    Invoke { op: String, input: Vec<u8> },
    Encode { plan_json: String, message: ChannelMessageEnvelope, provider_type: String },
    Finish,
    Nothing,
}

pub ghost enum FaultV {
    Provider(Seq<char>),
    Network(Seq<char>),
}

pub ghost struct EncodeOutcomeV {
    pub ok: bool,
    pub payload: Option<PayloadV>,
    pub error: Option<Seq<char>>,
}

pub ghost enum StateV {
    Idle,
    Planning { message: EnvelopeV, provider_type: Seq<char> },
    Encoding { message: EnvelopeV, provider_type: Seq<char>, plan: JsonV },
    Sending { plan: JsonV, payload: PayloadV },
    Done { plan: JsonV, payload: PayloadV, result: SendResultV },
    Failed { stage: Stage, fault: FaultV },
}

pub ghost enum EventV {
    Start { message: EnvelopeV, provider_type: Seq<char> },
    Answered(Seq<u8>),
    InvokeFailed(FaultV),
    Encoded(EncodeOutcomeV),
}

pub ghost enum ActionV {
    Invoke { op: Seq<char>, input: Seq<u8> },
    Encode { plan_json: Seq<char>, message: EnvelopeV, provider_type: Seq<char> },
    Finish,
    Nothing,
}

impl View for Fault {
    type V = FaultV;

    open spec fn view(&self) -> FaultV {
        match self {
            Fault::Provider(m) => FaultV::Provider(m@),
            Fault::Network(m) => FaultV::Network(m@),
        }
    }
}

/// The view of an optional payload.
pub open spec fn opt_payload(p: Option<ProviderPayloadV1>) -> Option<PayloadV> {
    match p {
        Some(x) => Some(x@),
        None => None,
    }
}

impl View for EncodeOutcome {
    type V = EncodeOutcomeV;

    open spec fn view(&self) -> EncodeOutcomeV {
        EncodeOutcomeV {
            ok: self.ok,
            payload: opt_payload(self.payload),
            error: json::opt_view(self.error),
        }
    }
}

impl View for PipelineState {
    type V = StateV;

    open spec fn view(&self) -> StateV {
        match self {
            PipelineState::Idle => StateV::Idle,
            PipelineState::Planning { message, provider_type } => StateV::Planning {
                message: message@,
                provider_type: provider_type@,
            },
            PipelineState::Encoding { message, provider_type, plan } => StateV::Encoding {
                message: message@,
                provider_type: provider_type@,
                plan: plan@,
            },
            PipelineState::Sending { plan, payload } => StateV::Sending {
                plan: plan@,
                payload: payload@,
            },
            PipelineState::Done { plan, payload, result } => StateV::Done {
                plan: plan@,
                payload: payload@,
                result: result@,
            },
            PipelineState::Failed { stage, fault } => StateV::Failed {
                stage: *stage,
                fault: fault@,
            },
        }
    }
}

impl View for PipelineEvent {
    type V = EventV;

    open spec fn view(&self) -> EventV {
        match self {
            PipelineEvent::Start { message, provider_type } => EventV::Start {
                message: message@,
                provider_type: provider_type@,
            },
            PipelineEvent::Answered(bytes) => EventV::Answered(bytes@),
            PipelineEvent::InvokeFailed(f) => EventV::InvokeFailed(f@),
            PipelineEvent::Encoded(o) => EventV::Encoded(o@),
        }
    }
}

impl View for PipelineAction {
    type V = ActionV;

    open spec fn view(&self) -> ActionV {
        match self {
            PipelineAction::Invoke { op, input } => ActionV::Invoke { op: op@, input: input@ },
            PipelineAction::Encode { plan_json, message, provider_type } => ActionV::Encode {
                plan_json: plan_json@,
                message: message@,
                provider_type: provider_type@,
            },
            PipelineAction::Finish => ActionV::Finish,
            PipelineAction::Nothing => ActionV::Nothing,
        }
    }
}

/// A run that failed at `stage` because the module or encoder said `message`.
pub open spec fn failed(stage: Stage, message: Seq<char>) -> (StateV, ActionV) {
    (StateV::Failed { stage, fault: FaultV::Provider(message) }, ActionV::Nothing)
}

/// The input that planning is invoked with.
pub open spec fn planning_input(message: EnvelopeV) -> Seq<u8> {
    json::encoding(render_plan_in_json(RenderPlanInV { message, metadata: Seq::empty() }))
}

/// The input that sending is invoked with.
pub open spec fn sending_input(provider_type: Seq<char>, payload: PayloadV) -> Seq<u8> {
    json::encoding(send_in_json(SendInV { provider_type, tenant_id: None, payload }))
}

/// The serialized plan that the answer of planning holds.
pub open spec fn plan_json_of(v: JsonV) -> Option<Seq<char>> {
    match v.get("plan"@) {
        Some(p) => p.str_at("plan_json"@),
        None => None,
    }
}

/// The text, or `fallback` where there is none.
pub open spec fn text_or(t: Option<Seq<char>>, fallback: Seq<char>) -> Seq<char> {
    match t {
        Some(v) => v,
        None => fallback,
    }
}

/// The step after the answer `bytes` of planning: the answer must say that all
/// went well and hold a plan; else the run has failed at planning, with the
/// fault that the module reported.
pub open spec fn after_planning(
    message: EnvelopeV,
    provider_type: Seq<char>,
    bytes: Seq<u8>,
) -> (StateV, ActionV) {
    match json::parsed(bytes) {
        Err(e) => failed(Stage::RenderPlan, e),
        Ok(v) => if bool_at(v, "ok"@) != Some(true) {
            failed(
                Stage::RenderPlan,
                "render_plan reported failure: "@ + text_or(v.str_at("error"@), "unknown"@),
            )
        } else {
            match plan_json_of(v) {
                None => failed(Stage::RenderPlan, "render_plan missing plan_json"@),
                Some(plan_json) => (
                    StateV::Encoding { message, provider_type, plan: v },
                    ActionV::Encode { plan_json, message, provider_type },
                ),
            }
        },
    }
}

/// The step after encoding gave `o`: a failure carries the encoder's fault as it stands.
pub open spec fn after_encoding(plan: JsonV, provider_type: Seq<char>, o: EncodeOutcomeV) -> (
    StateV,
    ActionV,
) {
    if !o.ok {
        failed(Stage::Encode, "encode_from_render_plan failed: "@ + text_or(o.error, "unknown"@))
    } else {
        match o.payload {
            None => failed(Stage::Encode, "encode_from_render_plan missing payload"@),
            Some(payload) => (
                StateV::Sending { plan, payload },
                ActionV::Invoke {
                    op: "send_payload"@,
                    input: sending_input(provider_type, payload),
                },
            ),
        }
    }
}

/// The step after the answer `bytes` of sending: the run is done where the
/// result says so, and has failed otherwise.
pub open spec fn after_sending(plan: JsonV, payload: PayloadV, bytes: Seq<u8>) -> (StateV, ActionV) {
    match json::parsed(bytes) {
        Err(e) => failed(Stage::SendPayload, e),
        Ok(v) => match decode_send_result(v) {
            None => failed(Stage::SendPayload, "send_payload gave no result"@),
            Some(result) => if !result.ok {
                failed(
                    Stage::SendPayload,
                    "send_payload failed: "@ + text_or(result.message, "unknown error"@),
                )
            } else {
                (StateV::Done { plan, payload, result }, ActionV::Finish)
            },
        },
    }
}

/// The name of the operation that is asked of the module at `stage`.
pub open spec fn operation_name(stage: Stage) -> Seq<char> {
    match stage {
        Stage::RenderPlan => "render_plan"@,
        Stage::Encode => "encode"@,
        Stage::SendPayload => "send_payload"@,
    }
}

/// The step that the state `s` is working on.
pub open spec fn stage_of(s: StateV) -> Stage {
    match s {
        StateV::Idle => Stage::RenderPlan,
        StateV::Planning { .. } => Stage::RenderPlan,
        StateV::Encoding { .. } => Stage::Encode,
        StateV::Sending { .. } => Stage::SendPayload,
        StateV::Done { .. } => Stage::SendPayload,
        StateV::Failed { stage, .. } => stage,
    }
}

/// Whether a run in the state `s` is over.
pub open spec fn is_over(s: StateV) -> bool {
    s is Done || s is Failed
}

/// The state after the event `e` in the state `s`, and what is to be done
/// next. A run that is over stays as it is and asks for nothing; an
/// invocation that failed fails the run at the step it was made for, with
/// its fault; an event that the state does not wait for fails the run.
pub open spec fn next(s: StateV, e: EventV) -> (StateV, ActionV) {
    if is_over(s) {
        (s, ActionV::Nothing)
    } else {
        match (s, e) {
            (StateV::Idle, EventV::Start { message, provider_type }) => (
                StateV::Planning { message, provider_type },
                ActionV::Invoke { op: "render_plan"@, input: planning_input(message) },
            ),
            (StateV::Planning { message, provider_type }, EventV::Answered(bytes)) => after_planning(
                message,
                provider_type,
                bytes,
            ),
            (StateV::Encoding { message, provider_type, plan }, EventV::Encoded(o)) => after_encoding(
                plan,
                provider_type,
                o,
            ),
            (StateV::Sending { plan, payload }, EventV::Answered(bytes)) => after_sending(
                plan,
                payload,
                bytes,
            ),
            (StateV::Planning { .. }, EventV::InvokeFailed(f)) => (
                StateV::Failed { stage: Stage::RenderPlan, fault: f },
                ActionV::Nothing,
            ),
            (StateV::Encoding { .. }, EventV::InvokeFailed(f)) => (
                StateV::Failed { stage: Stage::Encode, fault: f },
                ActionV::Nothing,
            ),
            (StateV::Sending { .. }, EventV::InvokeFailed(f)) => (
                StateV::Failed { stage: Stage::SendPayload, fault: f },
                ActionV::Nothing,
            ),
            _ => failed(stage_of(s), "unexpected event"@),
        }
    }
}

/// The state after the events `events`, taken in order from the state `s`.
pub open spec fn state_after(s: StateV, events: Seq<EventV>) -> StateV
    decreases events.len(),
{
    if events.len() == 0 {
        s
    } else {
        next(state_after(s, events.drop_last()), events.last()).0
    }
}

/// What is asked for after the last of the events `events`, which is not empty.
pub open spec fn action_after(s: StateV, events: Seq<EventV>) -> ActionV {
    next(state_after(s, events.drop_last()), events.last()).1
}

/// A run that is over stays as it is, whatever happens, and asks for nothing more.
pub proof fn lemma_over_is_final(s: StateV, events: Seq<EventV>)
    requires
        is_over(s),
    ensures
        state_after(s, events) == s,
        events.len() > 0 ==> action_after(s, events) == ActionV::Nothing,
    decreases events.len(),
{
    if events.len() > 0 {
        lemma_over_is_final(s, events.drop_last());
    }
}

/// Where planning does not answer that all went well, the run fails at
/// planning, and neither encoding nor sending is ever asked for: not at that
/// step, and not after any events that follow.
pub proof fn lemma_render_failure_ends_run(
    message: EnvelopeV,
    provider_type: Seq<char>,
    bytes: Seq<u8>,
    later: Seq<EventV>,
)
    requires
        json::parsed(bytes) matches Ok(v) ==> bool_at(v, "ok"@) != Some(true),
    ensures
        ({
            let s = StateV::Planning { message, provider_type };
            let first = next(s, EventV::Answered(bytes));
            &&& first.0 matches StateV::Failed { stage, .. } && stage == Stage::RenderPlan
            &&& first.1 == ActionV::Nothing
            &&& state_after(first.0, later) == first.0
            &&& later.len() > 0 ==> action_after(first.0, later) == ActionV::Nothing
        }),
{
    let s = StateV::Planning { message, provider_type };
    let first = next(s, EventV::Answered(bytes));
    lemma_over_is_final(first.0, later);
}

/// A step asks the module for sending only out of encoding that went well,
/// and for encoding only out of planning that went well.
pub proof fn lemma_steps_in_order(s: StateV, e: EventV)
    ensures
        next(s, e).1 matches ActionV::Encode { .. } ==> s is Planning && next(s, e).0 is Encoding,
        (next(s, e).1 matches ActionV::Invoke { op, .. } && op == "send_payload"@) ==> s
            is Encoding && next(s, e).0 is Sending,
        next(s, e).1 == ActionV::Finish ==> s is Sending && next(s, e).0 is Done,
{
    reveal_strlit("send_payload");
    reveal_strlit("render_plan");
    assert("render_plan"@.len() == 11);
    assert("send_payload"@.len() == 12);
}

fn fail(stage: Stage, message: String) -> (r: (PipelineState, PipelineAction))
    ensures
        (r.0@, r.1@) == failed(stage, message@),
{
    (PipelineState::Failed { stage, fault: Fault::Provider(message) }, PipelineAction::Nothing)
}

fn text_or_of(t: &Option<String>, fallback: &str) -> (r: String)
    ensures
        r@ == text_or(json::opt_view(*t), fallback@),
{
    match t {
        Some(v) => v.clone(),
        None => fallback.to_owned(),
    }
}

fn step_after_planning(message: ChannelMessageEnvelope, provider_type: String, bytes: Vec<u8>) -> (r:
    (PipelineState, PipelineAction))
    ensures
        (r.0@, r.1@) == after_planning(message@, provider_type@, bytes@),
{
    let v = match Json::parse(bytes.as_slice()) {
        Ok(v) => v,
        Err(e) => {
            return fail(Stage::RenderPlan, e);
        },
    };
    let ok = match v.get("ok") {
        Some(b) => b.as_bool(),
        None => None,
    };
    match ok {
        Some(true) => {},
        _ => {
            let error = v.str_at("error");
            return fail(
                Stage::RenderPlan,
                text::concat(
                    "render_plan reported failure: ",
                    text_or_of(&error, "unknown").as_str(),
                ),
            );
        },
    }
    let plan_json = match v.get("plan") {
        Some(p) => p.str_at("plan_json"),
        None => None,
    };
    match plan_json {
        None => fail(Stage::RenderPlan, "render_plan missing plan_json".to_owned()),
        Some(plan_json) => {
            let m2 = message.duplicate();
            let pt2 = provider_type.clone();
            (
                PipelineState::Encoding { message, provider_type, plan: v },
                PipelineAction::Encode { plan_json, message: m2, provider_type: pt2 },
            )
        },
    }
}

fn step_after_encoding(plan: Json, provider_type: String, o: EncodeOutcome) -> (r: (
    PipelineState,
    PipelineAction,
))
    ensures
        (r.0@, r.1@) == after_encoding(plan@, provider_type@, o@),
{
    if !o.ok {
        return fail(
            Stage::Encode,
            text::concat(
                "encode_from_render_plan failed: ",
                text_or_of(&o.error, "unknown").as_str(),
            ),
        );
    }
    match o.payload {
        None => fail(Stage::Encode, "encode_from_render_plan missing payload".to_owned()),
        Some(payload) => {
            let send_in = SendPayloadInV1 {
                provider_type,
                tenant_id: None,
                payload: ProviderPayloadV1 {
                    content_type: payload.content_type.clone(),
                    body_b64: payload.body_b64.clone(),
                    metadata: json::clone_entries(&payload.metadata),
                },
            };
            let input = send_in.to_json().to_bytes();
            (
                PipelineState::Sending { plan, payload },
                PipelineAction::Invoke { op: "send_payload".to_owned(), input },
            )
        },
    }
}

fn step_after_sending(plan: Json, payload: ProviderPayloadV1, bytes: Vec<u8>) -> (r: (
    PipelineState,
    PipelineAction,
))
    ensures
        (r.0@, r.1@) == after_sending(plan@, payload@, bytes@),
{
    let v = match Json::parse(bytes.as_slice()) {
        Ok(v) => v,
        Err(e) => {
            return fail(Stage::SendPayload, e);
        },
    };
    let result = match SendPayloadResultV1::from_json(&v) {
        Some(r) => r,
        None => {
            return fail(Stage::SendPayload, "send_payload gave no result".to_owned());
        },
    };
    if !result.ok {
        return fail(
            Stage::SendPayload,
            text::concat(
                "send_payload failed: ",
                text_or_of(&result.message, "unknown error").as_str(),
            ),
        );
    }
    (PipelineState::Done { plan, payload, result }, PipelineAction::Finish)
}

impl Stage {
    /// The name of the operation that is asked of the module at this stage.
    pub fn operation(&self) -> (r: &'static str)
        ensures
            r@ == operation_name(*self),
    {
        match self {
            Stage::RenderPlan => "render_plan",
            Stage::Encode => "encode",
            Stage::SendPayload => "send_payload",
        }
    }
}

fn stage_now(s: &PipelineState) -> (r: Stage)
    ensures
        r == stage_of(s@),
{
    match s {
        PipelineState::Idle => Stage::RenderPlan,
        PipelineState::Planning { .. } => Stage::RenderPlan,
        PipelineState::Encoding { .. } => Stage::Encode,
        PipelineState::Sending { .. } => Stage::SendPayload,
        PipelineState::Done { .. } => Stage::SendPayload,
        PipelineState::Failed { stage, .. } => *stage,
    }
}

/// Takes one step: the state after `event`, and what is to be done next.
pub fn step(state: PipelineState, event: PipelineEvent) -> (r: (PipelineState, PipelineAction))
    ensures
        (r.0@, r.1@) == next(state@, event@),
{
    match state {
        PipelineState::Done { plan, payload, result } => (
            PipelineState::Done { plan, payload, result },
            PipelineAction::Nothing,
        ),
        PipelineState::Failed { stage, fault } => (
            PipelineState::Failed { stage, fault },
            PipelineAction::Nothing,
        ),
        PipelineState::Idle => match event {
            PipelineEvent::Start { message, provider_type } => {
                let plan_in = RenderPlanInV1 {
                    message: message.duplicate(),
                    metadata: json::no_members(),
                };
                let input = plan_in.to_json().to_bytes();
                (
                    PipelineState::Planning { message, provider_type },
                    PipelineAction::Invoke { op: "render_plan".to_owned(), input },
                )
            },
            _ => fail(Stage::RenderPlan, "unexpected event".to_owned()),
        },
        PipelineState::Planning { message, provider_type } => match event {
            PipelineEvent::Answered(bytes) => step_after_planning(message, provider_type, bytes),
            PipelineEvent::InvokeFailed(f) => (
                PipelineState::Failed { stage: Stage::RenderPlan, fault: f },
                PipelineAction::Nothing,
            ),
            _ => fail(Stage::RenderPlan, "unexpected event".to_owned()),
        },
        PipelineState::Encoding { message, provider_type, plan } => match event {
            PipelineEvent::Encoded(o) => step_after_encoding(plan, provider_type, o),
            PipelineEvent::InvokeFailed(f) => (
                PipelineState::Failed { stage: Stage::Encode, fault: f },
                PipelineAction::Nothing,
            ),
            _ => fail(Stage::Encode, "unexpected event".to_owned()),
        },
        PipelineState::Sending { plan, payload } => match event {
            PipelineEvent::Answered(bytes) => step_after_sending(plan, payload, bytes),
            PipelineEvent::InvokeFailed(f) => (
                PipelineState::Failed { stage: Stage::SendPayload, fault: f },
                PipelineAction::Nothing,
            ),
            _ => fail(Stage::SendPayload, "unexpected event".to_owned()),
        },
    }
}

} // verus!
