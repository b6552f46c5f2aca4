//! The whole run as a sequence of commands: what the caller is to do
//! first, and what it is to do next once a command has been carried out.
//!
//! Nothing here runs a tool, prints or reads. The caller carries out each
//! command and comes back with what it brought: `Query` with the outcome
//! of the query, `Ask` with the reply. `Copy`, `Refuse` and `Fail` end the
//! run.

use vstd::prelude::*;
use crate::args::{
    first_flag, flag_of, flag_text, law_override_flag_wins, parse_arguments, parsed, plan_for,
    plan_of, tool_tokens, ActionPlan, PlanView,
};
use crate::device::{DeviceView, ResolveError};
use crate::gate::{
    after_query, after_reply, consents, decision_of, query_resolution, step_after, GateError,
    GateStep, GateStepView, QueryOutcome, Reply,
};
use crate::text::texts;
use crate::warning::{refusal_note, refusal_text};

verus! {

/// What the caller is to do next.
#[derive(Debug, Clone, PartialEq, Eq)]
pub enum Command {
    /// Run the enumeration tool on this target.
    Query { target: String },
    /// Show this prompt and read one line.
    Ask { prompt: String },
    /// Run the wrapped tool with these arguments, one token each.
    Copy { arguments: Vec<String> },
    /// Show this note and end normally: the user refused.
    Refuse { note: String },
    /// End with a failure.
    Fail { error: GateError },
}

/// The mathematical content of a `Command`.
pub ghost enum CommandView {
    Query { target: Seq<char> },
    Ask { prompt: Seq<char> },
    Copy { arguments: Seq<Seq<char>> },
    Refuse { note: Seq<char> },
    Fail { error: GateError },
}

impl View for Command {
    type V = CommandView;

    open spec fn view(&self) -> CommandView {
        match self {
            Command::Query { target } => CommandView::Query { target: target@ },
            Command::Ask { prompt } => CommandView::Ask { prompt: prompt@ },
            Command::Copy { arguments } => CommandView::Copy { arguments: texts(arguments@) },
            Command::Refuse { note } => CommandView::Refuse { note: note@ },
            Command::Fail { error } => CommandView::Fail { error: *error },
        }
    }
}

/// The command to run the wrapped tool with what the tokens add up to.
pub open spec fn copy_of(tokens: Seq<Seq<char>>) -> CommandView {
    CommandView::Copy { arguments: tool_tokens(parsed(tokens)) }
}

/// The first command: the query where the plan is gated, else the copy.
pub open spec fn first_command(tokens: Seq<Seq<char>>) -> CommandView {
    match plan_of(parsed(tokens)) {
        PlanView::Gated { target, passthrough } => CommandView::Query { target },
        PlanView::Unconditional { passthrough } => copy_of(tokens),
    }
}

/// The command that follows the query.
pub open spec fn command_after_query(tokens: Seq<Seq<char>>, outcome: QueryOutcome) -> CommandView {
    match step_after(outcome) {
        GateStepView::Proceed => copy_of(tokens),
        GateStepView::Abort { error } => CommandView::Fail { error },
        GateStepView::Ask { prompt } => CommandView::Ask { prompt },
    }
}

/// The command that follows the reply.
pub open spec fn command_after_reply(tokens: Seq<Seq<char>>, reply: Reply) -> CommandView {
    match decision_of(reply) {
        Ok(true) => copy_of(tokens),
        Ok(false) => CommandView::Refuse { note: refusal_text() },
        Err(error) => CommandView::Fail { error },
    }
}

/// How the enumeration tool is asked about one target: for structured
/// output with every column, of that target alone.
pub open spec fn query_tokens(target: Seq<char>) -> Seq<Seq<char>> {
    seq!["-JO"@, target]
}

/// The arguments for the enumeration tool when it is asked about `target`.
pub fn query_arguments(target: &str) -> (arguments: Vec<String>)
    ensures
        texts(arguments@) == query_tokens(target@),
{
    let mut arguments: Vec<String> = Vec::new();
    arguments.push("-JO".to_owned());
    arguments.push(target.to_owned());
    assert(texts(arguments@) =~= query_tokens(target@));
    arguments
}

/// The command to run the wrapped tool with what the raw arguments add
/// up to.
fn copy_command(raw_args: &Vec<String>) -> (command: Command)
    ensures
        command@ == copy_of(texts(raw_args@)),
{
    Command::Copy { arguments: parse_arguments(raw_args).tokens() }
}

/// Opens the run: says what is to be done first for these raw arguments.
pub fn begin(raw_args: &Vec<String>) -> (command: Command)
    ensures
        command@ == first_command(texts(raw_args@)),
{
    let arguments = parse_arguments(raw_args);
    match plan_for(&arguments) {
        ActionPlan::GatedExecution { target, passthrough } => Command::Query { target },
        ActionPlan::UnconditionalExecution { passthrough } => Command::Copy {
            arguments: arguments.tokens(),
        },
    }
}

/// Goes on after the query that `begin` asked for.
pub fn query_finished(raw_args: &Vec<String>, outcome: &QueryOutcome) -> (command: Command)
    ensures
        command@ == command_after_query(texts(raw_args@), *outcome),
{
    match after_query(outcome) {
        GateStep::Proceed => copy_command(raw_args),
        GateStep::Abort { error } => Command::Fail { error },
        GateStep::Ask { prompt } => Command::Ask { prompt },
    }
}

/// Goes on after the reply to the prompt.
pub fn reply_given(raw_args: &Vec<String>, reply: &Reply) -> (command: Command)
    ensures
        command@ == command_after_reply(texts(raw_args@), *reply),
{
    match after_reply(reply) {
        Ok(true) => copy_command(raw_args),
        Ok(false) => Command::Refuse { note: refusal_note() },
        Err(error) => Command::Fail { error },
    }
}

/// The wrapped tool is run in three cases only: at once where the plan
/// is not gated; after the query where the target is no block device; and
/// after the reply where the reply is consent. The user is asked only
/// about a device that was resolved. Whenever the tool is run, it gets the
/// tokens that the raw arguments add up to.
pub proof fn law_copy_only_ungated_unasked_or_on_consent(
    tokens: Seq<Seq<char>>,
    outcome: QueryOutcome,
    reply: Reply,
)
    ensures
        first_command(tokens) is Copy <==> plan_of(parsed(tokens)) is Unconditional,
        first_command(tokens) is Query <==> plan_of(parsed(tokens)) is Gated,
        command_after_query(tokens, outcome) is Copy <==> query_resolution(outcome) == Err::<
            DeviceView,
            ResolveError,
        >(ResolveError::NotABlockDevice),
        command_after_query(tokens, outcome) is Ask <==> query_resolution(outcome) is Ok,
        command_after_reply(tokens, reply) is Copy <==> consents(reply),
        first_command(tokens) is Copy ==> first_command(tokens) == copy_of(tokens),
        command_after_query(tokens, outcome) is Copy ==> command_after_query(tokens, outcome)
            == copy_of(tokens),
        command_after_reply(tokens, reply) is Copy ==> command_after_reply(tokens, reply)
            == copy_of(tokens),
{
}

/// With an override flag among the raw arguments the run opens with the
/// copy, handing the first such flag on alone: nothing is queried and
/// nobody is asked.
pub proof fn law_override_flag_runs_unasked(tokens: Seq<Seq<char>>)
    requires
        exists|i: int| 0 <= i < tokens.len() && (#[trigger] flag_of(tokens[i])) is Some,
    ensures
        first_flag(tokens) is Some,
        first_command(tokens) == (CommandView::Copy {
            arguments: seq![flag_text(first_flag(tokens).unwrap())],
        }),
{
    law_override_flag_wins(tokens);
    assert(tool_tokens(parsed(tokens)) =~= seq![flag_text(first_flag(tokens).unwrap())]);
}

} // verus!
