//! The commands that build a flow file step by step with the flow tool.

use vstd::prelude::*;
use crate::json;
use crate::json::Json;
use crate::text;

verus! {

/// Where a step hands on to.
#[derive(Debug, Clone, PartialEq, Eq)]
pub enum StepRouting {
    Out,
    Next(String),
}

/// One step of a flow.
#[derive(Debug)]
pub struct StepSpec {
    pub node_id: String,
    pub operation: String,
    pub payload: Json,
    pub manifest_path: String,
    pub local_wasm: String,
    pub routing: Option<StepRouting>,
    pub after: Option<String>,
}

/// The name of the file of the flow `flow_name`.
pub open spec fn flow_file(flow_name: Seq<char>) -> Seq<char> {
    flow_name + ".ygtc"@
}

/// The arguments that create the flow.
pub open spec fn new_flow_arguments(flow_path: Seq<char>, flow_name: Seq<char>) -> Seq<Seq<char>> {
    seq!["new"@, "--force"@, "--flow"@, flow_path, "--id"@, flow_name, "--type"@, "job"@]
}

/// The arguments that say where a step hands on to.
pub open spec fn routing_arguments(routing: Option<StepRouting>) -> Seq<Seq<char>> {
    match routing {
        Some(StepRouting::Out) => seq!["--routing-out"@],
        Some(StepRouting::Next(next)) => seq!["--routing-next"@, next@],
        None => Seq::empty(),
    }
}

/// The arguments that say which step a step follows.
pub open spec fn after_arguments(after: Option<Seq<char>>) -> Seq<Seq<char>> {
    match after {
        Some(a) => seq!["--after"@, a],
        None => Seq::empty(),
    }
}

/// The arguments that add `step` to the flow, where its payload can be printed.
pub open spec fn add_step_arguments(flow_path: Seq<char>, step: StepSpec) -> Option<Seq<Seq<char>>> {
    match json::printed_text(step.payload@) {
        Some(payload) => Some(
            seq![
                "add-step"@,
                "--flow"@,
                flow_path,
                "--node-id"@,
                step.node_id@,
                "--operation"@,
                step.operation@,
                "--payload"@,
                payload,
                "--manifest"@,
                step.manifest_path@,
                "--local-wasm"@,
                step.local_wasm@,
            ] + after_arguments(json::opt_view(step.after)) + routing_arguments(step.routing),
        ),
        None => None,
    }
}

/// What is reported of a command of the flow tool that failed.
pub open spec fn failure_text(
    label: Seq<char>,
    exit_code: Option<i32>,
    stdout: Seq<char>,
    stderr: Seq<char>,
) -> Seq<char> {
    label + " failed (exit="@ + (match exit_code {
        Some(c) => "Some("@ + text::int_text(c as int) + ")"@,
        None => "None"@,
    }) + ")\nstdout:\n"@ + stdout + "\nstderr:\n"@ + stderr
}

fn arg(out: &mut Vec<String>, value: &str)
    ensures
        text::strings_view(final(out)@) == text::strings_view(old(out)@).push(value@),
{
    out.push(value.to_owned());
    assert(text::strings_view(out@) =~= text::strings_view(old(out)@).push(value@));
}

/// The name of the file of the flow `flow_name`.
pub fn flow_file_name(flow_name: &str) -> (r: String)
    ensures
        r@ == flow_file(flow_name@),
{
    text::concat(flow_name, ".ygtc")
}

/// The arguments that create the flow `flow_name` in the file `flow_path`.
pub fn new_flow_args(flow_path: &str, flow_name: &str) -> (r: Vec<String>)
    ensures
        text::strings_view(r@) == new_flow_arguments(flow_path@, flow_name@),
{
    let mut out: Vec<String> = Vec::new();
    assert(text::strings_view(out@) =~= Seq::empty());
    arg(&mut out, "new");
    arg(&mut out, "--force");
    arg(&mut out, "--flow");
    arg(&mut out, flow_path);
    arg(&mut out, "--id");
    arg(&mut out, flow_name);
    arg(&mut out, "--type");
    arg(&mut out, "job");
    assert(text::strings_view(out@) =~= new_flow_arguments(flow_path@, flow_name@));
    out
}

/// The arguments that add `step` to the flow in `flow_path`, where its payload can be printed.
pub fn add_step_args(flow_path: &str, step: &StepSpec) -> (r: Option<Vec<String>>)
    ensures
        match r {
            Some(a) => add_step_arguments(flow_path@, *step) == Some(text::strings_view(a@)),
            None => add_step_arguments(flow_path@, *step) is None,
        },
{
    let payload_json = match step.payload.to_text() {
        Some(t) => t,
        None => {
            return None;
        },
    };
    let mut out: Vec<String> = Vec::new();
    assert(text::strings_view(out@) =~= Seq::empty());
    arg(&mut out, "add-step");
    arg(&mut out, "--flow");
    arg(&mut out, flow_path);
    arg(&mut out, "--node-id");
    arg(&mut out, step.node_id.as_str());
    arg(&mut out, "--operation");
    arg(&mut out, step.operation.as_str());
    arg(&mut out, "--payload");
    arg(&mut out, payload_json.as_str());
    arg(&mut out, "--manifest");
    arg(&mut out, step.manifest_path.as_str());
    arg(&mut out, "--local-wasm");
    arg(&mut out, step.local_wasm.as_str());
    match &step.after {
        Some(after) => {
            arg(&mut out, "--after");
            arg(&mut out, after.as_str());
        },
        None => {},
    }
    match &step.routing {
        Some(StepRouting::Out) => {
            arg(&mut out, "--routing-out");
        },
        Some(StepRouting::Next(next)) => {
            arg(&mut out, "--routing-next");
            arg(&mut out, next.as_str());
        },
        None => {},
    }
    assert(text::strings_view(out@) =~= add_step_arguments(flow_path@, *step)->0);
    Some(out)
}

/// What is reported of the command `label` of the flow tool that failed.
pub fn flow_failure_message(label: &str, exit_code: Option<i32>, stdout: &str, stderr: &str) -> (r:
    String)
    ensures
        r@ == failure_text(label@, exit_code, stdout@, stderr@),
{
    let mut r = label.to_owned();
    r.append(" failed (exit=");
    match exit_code {
        Some(c) => {
            r.append("Some(");
            r.append(text::i64_to_string(c as i64).as_str());
            r.append(")");
        },
        None => {
            r.append("None");
        },
    }
    r.append(")\nstdout:\n");
    r.append(stdout);
    r.append("\nstderr:\n");
    r.append(stderr);
    assert(r@ =~= failure_text(label@, exit_code, stdout@, stderr@));
    r
}

} // verus!
