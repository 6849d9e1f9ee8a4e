//! The request dispatcher: looks a tool up by name, checks the raw
//! arguments against its schema, runs it, and turns whatever comes of it
//! into a uniform outcome.

use vstd::prelude::*;
use vstd::string::*;
use crate::registry::{has_tool, lemma_has_tool_position, position, DescriptorView, Registry};
use crate::schema::{lemma_missing_field_rejected, resolved, error_message, validate, validated, Arguments, RawArguments, RawView, Reason, ValidationError, ValueView};

verus! {

/// The kinds of failure a call can end in.
#[derive(Clone, Copy, PartialEq, Eq, Debug, Structural)]
pub enum ErrorKind {
    /// No tool of the name that was called.
    NotFound,
    /// The arguments do not fit the tool's schema.
    InvalidArgument,
    /// The tool itself failed.
    Internal,
}

/// The kinds of content a tool produces.
#[derive(Clone, Copy, PartialEq, Eq, Debug, Structural)]
pub enum ContentKind {
    Text,
}

/// One unit of a tool's output.
#[derive(Clone, Debug, PartialEq, Eq)]
pub struct ContentBlock {
    pub kind: ContentKind,
    pub value: String,
}

/// The mathematical content of a [`ContentBlock`].
pub struct BlockView {
    pub kind: ContentKind,
    pub value: Seq<char>,
}

impl View for ContentBlock {
    type V = BlockView;

    open spec fn view(&self) -> BlockView {
        BlockView { kind: self.kind, value: self.value@ }
    }
}

/// What a call ends in: content, or a failure with its kind and a message.
#[derive(Clone, Debug, PartialEq, Eq)]
pub enum ToolOutcome {
    Success(Vec<ContentBlock>),
    Failure(ErrorKind, String),
}

/// The mathematical content of a [`ToolOutcome`].
pub enum OutcomeView {
    Success(Seq<BlockView>),
    Failure(ErrorKind, Seq<char>),
}

impl View for ToolOutcome {
    type V = OutcomeView;

    open spec fn view(&self) -> OutcomeView {
        match self {
            ToolOutcome::Success(blocks) => OutcomeView::Success(
                blocks@.map_values(|b: ContentBlock| b@),
            ),
            ToolOutcome::Failure(kind, message) => OutcomeView::Failure(*kind, message@),
        }
    }
}

/// The outcome of calling a name that no tool has.
pub open spec fn unknown_tool(name: Seq<char>) -> OutcomeView {
    OutcomeView::Failure(ErrorKind::NotFound, "unknown tool: "@ + name)
}

/// The outcome of calling a tool with arguments that its schema refuses.
pub open spec fn refused(field: Seq<char>, reason: Reason) -> OutcomeView {
    OutcomeView::Failure(ErrorKind::InvalidArgument, error_message(field, reason))
}

/// The outcome of a tool that ran: its text as a single block of content,
/// or its failure as an internal error with the tool's own message.
pub open spec fn concluded(result: Result<Seq<char>, Seq<char>>) -> OutcomeView {
    match result {
        Ok(text) => OutcomeView::Success(seq![BlockView { kind: ContentKind::Text, value: text }]),
        Err(message) => OutcomeView::Failure(ErrorKind::Internal, message),
    }
}

/// The view of what a tool returns.
pub open spec fn result_text(result: Result<String, String>) -> Result<Seq<char>, Seq<char>> {
    match result {
        Ok(text) => Ok(text@),
        Err(message) => Err(message@),
    }
}

/// What is decided before a tool runs.
pub enum PlanView {
    /// The call ends here, in this outcome.
    Reject(OutcomeView),
    /// The tool at this position runs, with these arguments.
    Invoke(int, Seq<(Seq<char>, Option<ValueView>)>),
}

/// The decision on a call: a name that no tool has is rejected as not
/// found; arguments that the tool's schema refuses are rejected as invalid,
/// with the validation's message; otherwise the tool runs with the typed
/// arguments.
pub open spec fn planned(
    descs: Seq<DescriptorView>,
    name: Seq<char>,
    raw: Map<Seq<char>, RawView>,
) -> PlanView {
    let at = position(descs, name);
    if at >= descs.len() {
        PlanView::Reject(unknown_tool(name))
    } else {
        match validated(descs[at].schema, raw) {
            Err((field, reason)) => PlanView::Reject(refused(field, reason)),
            Ok(args) => PlanView::Invoke(at, args),
        }
    }
}

/// A call of a name that no tool has is rejected as not found, whatever
/// the arguments.
pub proof fn lemma_unknown_name_not_found(
    descs: Seq<DescriptorView>,
    name: Seq<char>,
    raw: Map<Seq<char>, RawView>,
)
    requires
        !has_tool(descs, name),
    ensures
        planned(descs, name, raw) == PlanView::Reject(unknown_tool(name)),
{
    lemma_has_tool_position(descs, name);
}

/// A call that leaves out a required field of the tool's schema is rejected
/// as an invalid argument. Where the fields before it are satisfied, the
/// message names it as missing.
pub proof fn lemma_missing_field_invalid(
    descs: Seq<DescriptorView>,
    name: Seq<char>,
    raw: Map<Seq<char>, RawView>,
    i: int,
)
    requires
        has_tool(descs, name),
        0 <= i < descs[position(descs, name)].schema.len(),
        !descs[position(descs, name)].schema[i].optional,
        !raw.contains_key(descs[position(descs, name)].schema[i].name),
    ensures
        planned(descs, name, raw) is Reject,
        planned(descs, name, raw)->Reject_0 is Failure,
        planned(descs, name, raw)->Reject_0->Failure_0 == ErrorKind::InvalidArgument,
        (forall|j: int|
            0 <= j < i ==> resolved(#[trigger] descs[position(descs, name)].schema[j], raw) is Ok)
            ==> planned(descs, name, raw) == PlanView::Reject(
            OutcomeView::Failure(
                ErrorKind::InvalidArgument,
                "missing field: "@ + descs[position(descs, name)].schema[i].name,
            ),
        ),
{
    lemma_has_tool_position(descs, name);
    lemma_missing_field_rejected(descs[position(descs, name)].schema, raw, i);
}

/// What is decided before a tool runs.
pub enum Plan<'a, H> {
    /// The call ends here, in this outcome.
    Reject(ToolOutcome),
    /// This handler runs, with these arguments.
    Invoke(&'a H, Arguments),
}

/// The failure for a name that no tool has.
pub fn not_found(name: &str) -> (outcome: ToolOutcome)
    ensures
        outcome@ == unknown_tool(name@),
{
    let mut message = String::from_str("unknown tool: ");
    message.append(name);
    ToolOutcome::Failure(ErrorKind::NotFound, message)
}

/// The failure for arguments that a schema refuses.
pub fn invalid_argument(error: &ValidationError) -> (outcome: ToolOutcome)
    ensures
        outcome@ == refused(error.field@, error.reason),
{
    ToolOutcome::Failure(ErrorKind::InvalidArgument, error.message())
}

/// Turns what a tool returned into the outcome of the call.
pub fn conclude(result: Result<String, String>) -> (outcome: ToolOutcome)
    ensures
        outcome@ == concluded(result_text(result)),
{
    match result {
        Ok(text) => {
            let mut blocks: Vec<ContentBlock> = Vec::new();
            blocks.push(ContentBlock { kind: ContentKind::Text, value: text });
            let outcome = ToolOutcome::Success(blocks);
            assert(outcome@->Success_0 =~= seq![
                BlockView { kind: ContentKind::Text, value: text@ },
            ]);
            outcome
        },
        Err(message) => ToolOutcome::Failure(ErrorKind::Internal, message),
    }
}

/// Decides on a call: rejects it, or names the handler to run and the typed
/// arguments to run it with.
pub fn plan<'a, H>(registry: &'a Registry<H>, name: &str, raw: &RawArguments) -> (decision: Plan<
    'a,
    H,
>)
    ensures
        match planned(registry.descriptors(), name@, raw@) {
            PlanView::Reject(outcome) => decision is Reject && decision->Reject_0@ == outcome,
            PlanView::Invoke(at, args) => decision is Invoke && 0 <= at
                < registry.handlers().len() && *decision->Invoke_0 == registry.handlers()[at]
                && decision->Invoke_1@ == args,
        },
        !has_tool(registry.descriptors(), name@) ==> decision is Reject && decision->Reject_0@
            == unknown_tool(name@),
{
    proof {
        lemma_has_tool_position(registry.descriptors(), name@);
    }
    match registry.get(name) {
        Err(_) => Plan::Reject(not_found(name)),
        Ok((descriptor, handler)) => match validate(descriptor.parameter_schema(), raw) {
            Err(error) => Plan::Reject(invalid_argument(&error)),
            Ok(args) => Plan::Invoke(handler, args),
        },
    }
}

/// Handles a call from the name to the outcome: looks the tool up, checks
/// the arguments, runs the tool through `run`, and wraps what it returns.
/// Every call ends in an outcome.
pub fn dispatch<H, F>(registry: &Registry<H>, run: &F, name: &str, raw: &RawArguments) -> (outcome:
    ToolOutcome) where F: Fn(&H, &Arguments) -> Result<String, String>
    requires
        forall|handler: &H, args: &Arguments|
            registry.handlers().contains(*handler) ==> call_requires(run, (handler, args)),
    ensures
        match planned(registry.descriptors(), name@, raw@) {
            PlanView::Reject(rejection) => outcome@ == rejection,
            PlanView::Invoke(at, typed) => exists|args: Arguments, result: Result<String, String>|
                args@ == typed && call_ensures(run, (&registry.handlers()[at], &args), result)
                    && outcome@ == concluded(result_text(result)),
        },
        !has_tool(registry.descriptors(), name@) ==> outcome@ == unknown_tool(name@),
{
    match plan(registry, name, raw) {
        Plan::Reject(outcome) => outcome,
        Plan::Invoke(handler, args) => {
            let ghost at = position(registry.descriptors(), name@);
            assert(registry.handlers().contains(*handler)) by {
                assert(registry.handlers()[at] == *handler);
            }
            let result = run(handler, &args);
            conclude(result)
        },
    }
}

} // verus!
