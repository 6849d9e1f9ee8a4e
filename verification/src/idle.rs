//! Idle time: how long the user has been away, and whether that is long
//! enough.

use vstd::prelude::*;
use vstd::string::*;
use crate::catalog::{registry_of, tool_descriptors, Tool};
use crate::dispatch::{concluded, dispatch, planned, result_text, unknown_tool, PlanView, ToolOutcome};
use crate::registry::{has_tool, tool_names_distinct, Registry, ToolDescriptor};
use crate::schema::{required_field, unsigned_argument, Arguments, FieldSpec, FieldView, Primitive, Schema, RawArguments};
use crate::text::{decimal, push_decimal};
use crate::units::{duration_text, push_duration};

verus! {

/// Arguments of the idle check.
#[derive(Clone, Debug, PartialEq, Eq)]
pub struct IdleThresholdParams {
    /// The idle time, in seconds, from which the user counts as idle.
    pub threshold_seconds: u64,
}

/// The schema of [`IdleThresholdParams`].
pub open spec fn idle_threshold_schema() -> Seq<FieldView> {
    seq![
        required_field(
            "threshold_seconds"@,
            Primitive::Unsigned { max: u64::MAX },
            "Threshold in seconds to check against (default: 300)"@,
        ),
    ]
}

impl IdleThresholdParams {
    /// The fields that the idle check takes.
    pub fn schema() -> (schema: Schema)
        ensures
            schema@ == idle_threshold_schema(),
    {
        Schema::single(
            FieldSpec::required(
                "threshold_seconds",
                Primitive::Unsigned { max: u64::MAX },
                "Threshold in seconds to check against (default: 300)",
            ),
        )
    }

    /// Reads the parameters from typed arguments; there are none unless the
    /// threshold is given as a number.
    pub fn from_arguments(args: &Arguments) -> (params: Option<IdleThresholdParams>)
        ensures
            match unsigned_argument(args@, "threshold_seconds"@) {
                Some(n) => params is Some && params->0.threshold_seconds == n,
                None => params is None,
            },
    {
        match args.unsigned("threshold_seconds") {
            Some(n) => Some(IdleThresholdParams { threshold_seconds: n }),
            None => None,
        }
    }
}

/// Whether an idle time reaches a threshold. The threshold itself counts.
pub open spec fn idle_reached(idle_seconds: nat, threshold_seconds: nat) -> bool {
    idle_seconds >= threshold_seconds
}

/// The report of the idle time.
pub open spec fn idle_report(seconds: nat) -> Seq<char> {
    "User Idle Time:\n\n  Raw: "@ + decimal(seconds) + " seconds\n  Formatted: "@ + duration_text(
        seconds,
    ) + "\n"@
}

/// The report of the idle check.
pub open spec fn idle_check_report(seconds: nat, threshold: nat) -> Seq<char> {
    "Idle Check:\n\n  Current idle: "@ + decimal(seconds) + " ("@ + duration_text(seconds)
        + ")\n  Threshold: "@ + decimal(threshold) + " ("@ + duration_text(threshold)
        + ")\n  Is idle: "@ + (if idle_reached(seconds, threshold) {
        "YES"@
    } else {
        "NO"@
    }) + "\n"@
}

/// Computes [`idle_reached`].
pub fn is_idle(idle_seconds: u64, threshold_seconds: u64) -> (idle: bool)
    ensures
        idle == idle_reached(idle_seconds as nat, threshold_seconds as nat),
{
    idle_seconds >= threshold_seconds
}

/// The report of an idle time given in seconds.
pub fn build_idle_report(seconds: u64) -> (report: String)
    ensures
        report@ == idle_report(seconds as nat),
{
    let mut out = String::from_str("User Idle Time:\n\n  Raw: ");
    push_decimal(&mut out, seconds);
    out.append(" seconds\n  Formatted: ");
    push_duration(&mut out, seconds);
    out.append("\n");
    assert(out@ =~= idle_report(seconds as nat));
    out
}

/// The report of whether an idle time given in seconds reaches the
/// threshold asked for.
pub fn build_idle_check_report(params: &IdleThresholdParams, seconds: u64) -> (report: String)
    ensures
        report@ == idle_check_report(seconds as nat, params.threshold_seconds as nat),
{
    let threshold = params.threshold_seconds;
    let mut out = String::from_str("Idle Check:\n\n  Current idle: ");
    push_decimal(&mut out, seconds);
    out.append(" (");
    push_duration(&mut out, seconds);
    out.append(")\n  Threshold: ");
    push_decimal(&mut out, threshold);
    out.append(" (");
    push_duration(&mut out, threshold);
    out.append(")\n  Is idle: ");
    if is_idle(seconds, threshold) {
        out.append("YES");
    } else {
        out.append("NO");
    }
    out.append("\n");
    assert(out@ =~= idle_check_report(seconds as nat, threshold as nat));
    out
}

/// The tools of the idle server, in the order in which it lists them.
pub open spec fn idle_tools() -> Seq<Tool> {
    seq![Tool::IdleTime, Tool::IsIdleFor]
}

/// The server of the idle tools.
#[derive(Debug)]
pub struct IdleServer {
    /// The tools of this server.
    pub tool_router: Registry<Tool>,
}

impl Default for IdleServer {
    fn default() -> (server: IdleServer)
        ensures
            server.tool_router.handlers() == idle_tools(),
            server.tool_router.descriptors() == tool_descriptors(idle_tools()),
    {
        IdleServer::new()
    }
}

impl IdleServer {
    /// The server with its tools registered.
    pub fn new() -> (server: IdleServer)
        ensures
            server.tool_router.handlers() == idle_tools(),
            server.tool_router.descriptors() == tool_descriptors(idle_tools()),
    {
        let tools = vec![Tool::IdleTime, Tool::IsIdleFor];
        assert(tools@ =~= idle_tools());
        IdleServer { tool_router: registry_of(&tools).unwrap() }
    }

    /// What the server says of itself.
    pub fn instructions(&self) -> (text: &'static str)
        ensures
            text@ == "Cross-platform user idle time detection server"@,
    {
        "Cross-platform user idle time detection server"
    }

    /// The descriptors of the server's tools, in order.
    pub fn list_tools(&self) -> (listed: Vec<&ToolDescriptor>)
        ensures
            listed@.len() == self.tool_router.descriptors().len(),
            forall|i: int|
                0 <= i < listed@.len() ==> (#[trigger] listed@[i])@
                    == self.tool_router.descriptors()[i],
            tool_names_distinct(self.tool_router.descriptors()),
    {
        self.tool_router.list()
    }

    /// Handles a call of one of the server's tools by name, running the
    /// tool through `run`.
    pub fn call_tool<F>(&self, run: &F, name: &str, raw: &RawArguments) -> (outcome: ToolOutcome) where
        F: Fn(&Tool, &Arguments) -> Result<String, String>,

        requires
            forall|tool: &Tool, args: &Arguments|
                self.tool_router.handlers().contains(*tool) ==> call_requires(run, (tool, args)),
        ensures
            match planned(self.tool_router.descriptors(), name@, raw@) {
                PlanView::Reject(rejection) => outcome@ == rejection,
                PlanView::Invoke(at, typed) => exists|args: Arguments, result: Result<String, String>|
                    args@ == typed && call_ensures(
                        run,
                        (&self.tool_router.handlers()[at], &args),
                        result,
                    ) && outcome@ == concluded(result_text(result)),
            },
            !has_tool(self.tool_router.descriptors(), name@) ==> outcome@ == unknown_tool(name@),
    {
        dispatch(&self.tool_router, run, name, raw)
    }
}

impl IdleServer {
    /// A duration in its two largest units.
    pub fn format_duration(seconds: u64) -> (out: String)
        ensures
            out@ == duration_text(seconds as nat),
    {
        crate::units::format_duration(seconds)
    }

    /// The report of an idle time given in seconds.
    pub fn get_idle_time(&self, seconds: u64) -> (report: String)
        ensures
            report@ == idle_report(seconds as nat),
    {
        build_idle_report(seconds)
    }

    /// The report of whether an idle time given in seconds reaches the
    /// threshold asked for.
    pub fn is_idle_for(&self, params: &IdleThresholdParams, seconds: u64) -> (report: String)
        ensures
            report@ == idle_check_report(seconds as nat, params.threshold_seconds as nat),
    {
        build_idle_check_report(params, seconds)
    }
}

} // verus!
