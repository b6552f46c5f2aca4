//! The confirmation gate: what is decided once the enumeration tool has
//! answered, and once the user has.
//!
//! Nothing here runs a tool or reads input. The caller does both,
//! and hands in what came back.

use vstd::prelude::*;
use crate::answer::{answer_accepts, process_answer};
use crate::device::{
    resolution, resolve_error_text, DeviceInfo, DeviceView, ResolveError, NOT_A_BLOCK_DEVICE,
};
use crate::warning::{confirmation_prompt, prompt_text};

verus! {

/// Why no decision was reached.
#[derive(Debug, Clone, Copy, PartialEq, Eq, Structural)]
pub enum GateError {
    /// The target could not be resolved, and not because it is no device.
    Resolve(ResolveError),
    /// The prompt could not be shown, or the reply could not be read.
    Io,
}

/// What is said to the user about each error.
pub open spec fn gate_error_text(error: GateError) -> Seq<char> {
    match error {
        GateError::Resolve(reason) => resolve_error_text(reason),
        GateError::Io => "the confirmation could not be read"@,
    }
}

impl GateError {
    /// A short description of the error, for a message to the user.
    pub fn message(&self) -> (text: &'static str)
        ensures
            text@ == gate_error_text(*self),
    {
        match self {
            GateError::Resolve(reason) => reason.message(),
            GateError::Io => "the confirmation could not be read",
        }
    }
}

/// How the query of the enumeration tool ended.
#[derive(Debug, Clone, PartialEq, Eq)]
pub enum QueryOutcome {
    /// The tool ran: its exit status (`None` where it ended without one)
    /// and what it wrote.
    Finished { status: Option<i32>, output: Vec<u8> },
    /// The tool could not be run.
    Unavailable,
}

/// What came of reading the user's reply.
#[derive(Debug, Clone, PartialEq, Eq)]
pub enum Reply {
    /// One line of input; empty at the end of input.
    Line(String),
    /// Showing the prompt or reading the line failed.
    Unreadable,
}

/// Where the confirmation stands once the query has ended.
#[derive(Debug, Clone, PartialEq, Eq)]
pub enum GateStep {
    /// Nothing to ask: the write may proceed.
    Proceed,
    /// Nothing to ask: the write must not proceed, for this reason.
    Abort { error: GateError },
    /// The user has to be asked, with this prompt.
    Ask { prompt: String },
}

/// The mathematical content of a `GateStep`.
pub ghost enum GateStepView {
    Proceed,
    Abort { error: GateError },
    Ask { prompt: Seq<char> },
}

impl View for GateStep {
    type V = GateStepView;

    open spec fn view(&self) -> GateStepView {
        match self {
            GateStep::Proceed => GateStepView::Proceed,
            GateStep::Abort { error } => GateStepView::Abort { error: *error },
            GateStep::Ask { prompt } => GateStepView::Ask { prompt: prompt@ },
        }
    }
}

/// What a query resolves to. A tool that could not be run is a failed
/// query.
pub open spec fn query_resolution(outcome: QueryOutcome) -> Result<DeviceView, ResolveError> {
    match outcome {
        QueryOutcome::Finished { status, output } => resolution(status, output@),
        QueryOutcome::Unavailable => Err(ResolveError::QueryFailed),
    }
}

/// Where the confirmation stands after a query. A target that is no block device
/// passes without a prompt; any other failure stops the run; a device is
/// shown to the user.
pub open spec fn step_after(outcome: QueryOutcome) -> GateStepView {
    match query_resolution(outcome) {
        Ok(device) => GateStepView::Ask { prompt: prompt_text(device) },
        Err(ResolveError::NotABlockDevice) => GateStepView::Proceed,
        Err(error) => GateStepView::Abort { error: GateError::Resolve(error) },
    }
}

/// What a reply decides: consent or refusal for a line, an error where
/// none could be read.
pub open spec fn decision_of(reply: Reply) -> Result<bool, GateError> {
    match reply {
        Reply::Line(line) => Ok(answer_accepts(line@)),
        Reply::Unreadable => Err(GateError::Io),
    }
}

/// Whether a reply is there and is consent.
pub open spec fn consents(reply: Reply) -> bool {
    match reply {
        Reply::Line(line) => answer_accepts(line@),
        Reply::Unreadable => false,
    }
}

/// The decision as a whole, for a query and the reply that
/// would be given if the user were asked.
pub open spec fn confirmation(outcome: QueryOutcome, reply: Reply) -> Result<bool, GateError> {
    match step_after(outcome) {
        GateStepView::Proceed => Ok(true),
        GateStepView::Abort { error } => Err(error),
        GateStepView::Ask { prompt } => decision_of(reply),
    }
}

/// Resolves the query's outcome to a snapshot or to the reason why there
/// is none.
pub fn resolve(outcome: &QueryOutcome) -> (snapshot: Result<DeviceInfo, ResolveError>)
    ensures
        match query_resolution(*outcome) {
            Ok(expected) => snapshot is Ok && snapshot.unwrap()@ == expected,
            Err(error) => snapshot == Err::<DeviceInfo, ResolveError>(error),
        },
{
    match outcome {
        QueryOutcome::Finished { status, output } => DeviceInfo::new(*status, output.as_slice()),
        QueryOutcome::Unavailable => Err(ResolveError::QueryFailed),
    }
}

/// Goes one step on, from the outcome of the query.
pub fn after_query(outcome: &QueryOutcome) -> (step: GateStep)
    ensures
        step@ == step_after(*outcome),
{
    match resolve(outcome) {
        Ok(device) => GateStep::Ask { prompt: confirmation_prompt(device) },
        Err(ResolveError::NotABlockDevice) => GateStep::Proceed,
        Err(error) => GateStep::Abort { error: GateError::Resolve(error) },
    }
}

/// Decides on the user's reply.
pub fn after_reply(reply: &Reply) -> (decision: Result<bool, GateError>)
    ensures
        decision == decision_of(*reply),
{
    match reply {
        Reply::Line(line) => Ok(process_answer(line.as_str())),
        Reply::Unreadable => Err(GateError::Io),
    }
}

/// A target that the tool reports as no block device passes
/// unasked: the step after the query is to proceed, not to ask, and the
/// decision is to go on, whatever the user would have replied.
pub proof fn law_non_device_passes_unasked(output: Vec<u8>, reply: Reply)
    ensures
        step_after(QueryOutcome::Finished { status: Some(NOT_A_BLOCK_DEVICE), output }) == GateStepView::Proceed,
        confirmation(QueryOutcome::Finished { status: Some(NOT_A_BLOCK_DEVICE), output }, reply) == Ok::<
            bool,
            GateError,
        >(true),
{
}

/// A query that failed for any other reason stops the run unasked: the
/// tool could not be run, ended without a status, or ended with a status
/// that is neither success nor "no block device".
pub proof fn law_failed_query_stops_unasked(outcome: QueryOutcome, reply: Reply)
    requires
        outcome matches QueryOutcome::Finished { status, .. } ==> status != Some(0i32) && status
            != Some(NOT_A_BLOCK_DEVICE),
    ensures
        step_after(outcome) == (GateStepView::Abort {
            error: GateError::Resolve(ResolveError::QueryFailed),
        }),
        confirmation(outcome, reply) == Err::<bool, GateError>(
            GateError::Resolve(ResolveError::QueryFailed),
        ),
{
}

/// A write may proceed in two cases only: the target is no
/// block device, or a device was resolved, shown, and the reply to the
/// prompt is consent.
pub proof fn law_proceeds_only_unasked_or_on_consent(outcome: QueryOutcome, reply: Reply)
    ensures
        confirmation(outcome, reply) == Ok::<bool, GateError>(true) <==> (query_resolution(outcome)
            == Err::<DeviceView, ResolveError>(ResolveError::NotABlockDevice) || (query_resolution(
            outcome,
        ) is Ok && consents(reply))),
        step_after(outcome) is Ask <==> query_resolution(outcome) is Ok,
{
}

} // verus!
