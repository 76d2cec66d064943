//! The bounds of a run, proved of the state machine: turns stay within the
//! step budget, a failing request is retried a bounded number of times, and
//! a tool call that fails does not end the run.

use crate::agent::event::EventView;
use crate::agent::laws::{events_after, opens_turn, state_after, turns_after};
use crate::agent::machine::{
    backoff_ms, call_event, functions_of, result_event, result_message, retry_notice,
    seed_history, start, tool_failure, transport_failure, turn_notice, verdict, ActionView,
    InputView, Outcome, Phase, RunView,
};
use crate::agent::registry::has_tool;
use crate::api::deepseek::{MessageView, ToolView};
use crate::json::json_syntax_error;
use vstd::prelude::*;

verus! {

/// An outcome keeps pace with the state `run` it came from: the budget is
/// the same, the step count has not fallen and is within the budget, and it
/// has risen by one if the outcome opens a turn.
pub open spec fn paced(run: RunView, outcome: Outcome) -> bool {
    &&& outcome.state.max_steps == run.max_steps
    &&& run.steps <= outcome.state.steps <= run.max_steps
    &&& opens_turn(outcome.action) ==> outcome.state.steps == run.steps + 1
}

/// Beginning a turn keeps pace.
pub proof fn lemma_begin_turn_is_paced(run: RunView)
    requires
        run.steps <= run.max_steps,
    ensures
        paced(run, run.begin_turn()),
{
}

/// Dispatching keeps pace.
pub proof fn lemma_dispatch_is_paced(run: RunView)
    requires
        run.steps <= run.max_steps,
    ensures
        paced(run, run.dispatch()),
    decreases run.calls.len() - run.cursor,
{
    if run.cursor < run.calls.len() {
        match verdict(run.tools, run.calls[run.cursor as int]) {
            Some(result) => {
                lemma_dispatch_is_paced(run.settle(result));
            },
            None => {},
        }
    }
}

/// Completing a reply keeps pace.
pub proof fn lemma_finalize_is_paced(run: RunView)
    requires
        run.steps <= run.max_steps,
    ensures
        paced(run, run.finalize()),
{
    let message = run.reply.message();
    match message.tool_calls {
        Some(calls) => {
            if calls.len() > 0 {
                lemma_dispatch_is_paced(
                    RunView {
                        phase: Phase::Dispatching,
                        calls,
                        cursor: 0,
                        history: run.history.push(message),
                        reply: crate::agent::aggregator::AggregatorView::empty(),
                        ..run
                    },
                );
            }
        },
        None => {},
    }
}

/// Every step keeps pace: no step takes the count of turns beyond the
/// budget, and a step opens a turn only by counting it.
pub proof fn lemma_step_is_paced(run: RunView, input: InputView)
    requires
        run.steps <= run.max_steps,
    ensures
        paced(run, run.step(input)),
{
    match run.phase {
        Phase::Streaming => {
            match input {
                InputView::Chunk(chunk) => {
                    lemma_finalize_is_paced(RunView { reply: run.reply.absorb(chunk), ..run });
                },
                InputView::StreamClosed => {
                    lemma_finalize_is_paced(run);
                },
                _ => {},
            }
        },
        Phase::Dispatching => {
            match input {
                InputView::ToolFinished(finished) => {
                    let result = match finished {
                        Ok(output) => output,
                        Err(reason) => tool_failure(reason),
                    };
                    lemma_dispatch_is_paced(run.settle(result));
                },
                _ => {},
            }
        },
        _ => {},
    }
}

/// Over any inputs, the turns that a run opens are counted in its steps,
/// and its steps stay within the budget.
pub proof fn lemma_turns_are_counted(run: RunView, inputs: Seq<InputView>)
    requires
        run.steps <= run.max_steps,
    ensures
        state_after(run, inputs).max_steps == run.max_steps,
        run.steps + turns_after(run, inputs) <= state_after(run, inputs).steps <= run.max_steps,
    decreases inputs.len(),
{
    if inputs.len() > 0 {
        lemma_turns_are_counted(run, inputs.drop_last());
        lemma_step_is_paced(state_after(run, inputs.drop_last()), inputs.last());
    }
}

/// A run never asks for more turns than its step budget: whatever the model
/// and the tools deliver, the requests that open a turn, the first one
/// included, number at most `max_steps`.
pub proof fn lemma_turns_within_budget(
    model: Seq<char>,
    tools: Seq<ToolView>,
    max_steps: nat,
    max_retries: nat,
    prompt: Seq<char>,
    task: Seq<char>,
    history: Seq<MessageView>,
    inputs: Seq<InputView>,
)
    ensures
        ({
            let begun = start(model, tools, max_steps, max_retries, prompt, task, history);
            let first: nat = if opens_turn(begun.action) {
                1
            } else {
                0
            };
            first + turns_after(begun.state, inputs) <= max_steps
        }),
{
    let idle = RunView::idle(
        model,
        tools,
        max_steps,
        max_retries,
        seed_history(prompt, task, history),
    );
    lemma_begin_turn_is_paced(idle);
    lemma_turns_are_counted(idle.begin_turn().state, inputs);
}

/// The inputs that report the failure of one attempt after another, for the
/// given reasons.
pub open spec fn failures(reasons: Seq<Seq<char>>) -> Seq<InputView> {
    Seq::new(reasons.len(), |i: int| InputView::ConnectFailed(reasons[i]))
}

/// The notes that announce the first `count` retries of a request that gets
/// `limit` attempts.
pub open spec fn retry_notes(count: nat, limit: nat) -> Seq<EventView> {
    Seq::new(count, |i: int| EventView::Thinking(retry_notice((i + 1) as nat, limit)))
}

/// While attempts remain, each failure of a request is answered by one
/// retry note and a retry after a growing pause: after `k` failures in a
/// row, with `k` below the number of attempts, exactly `k` notes have been
/// emitted, numbered from 1, the run is still waiting for its request, and
/// the last failure was answered by a retry after `1000 * k` milliseconds.
pub proof fn lemma_failures_are_retried(run: RunView, reasons: Seq<Seq<char>>)
    requires
        run.phase == Phase::RequestIssued,
        run.failures == 0,
        reasons.len() < run.max_retries,
    ensures
        state_after(run, failures(reasons)) == (RunView { failures: reasons.len(), ..run }),
        events_after(run, failures(reasons)) == retry_notes(reasons.len(), run.max_retries),
        reasons.len() > 0 ==> state_after(run, failures(reasons.drop_last())).step(
            InputView::ConnectFailed(reasons.last()),
        ).action == (RunView { failures: reasons.len(), ..run }).request(
            backoff_ms(reasons.len()),
        ),
    decreases reasons.len(),
{
    if reasons.len() == 0 {
        assert(retry_notes(0, run.max_retries) =~= Seq::<EventView>::empty());
    } else {
        let earlier = reasons.drop_last();
        lemma_failures_are_retried(run, earlier);
        assert(failures(reasons).drop_last() =~= failures(earlier));
        assert(failures(reasons).last() == InputView::ConnectFailed(reasons.last()));
        assert(events_after(run, failures(reasons)) =~= retry_notes(
            reasons.len(),
            run.max_retries,
        ));
    }
}

/// When the last attempt fails, the run ends: after as many failures in a
/// row as a request gets attempts, all retry notes but one for the last
/// attempt have been emitted, then one `Error` that gives the last reason,
/// then `Done`.
pub proof fn lemma_retries_are_bounded(run: RunView, reasons: Seq<Seq<char>>)
    requires
        run.phase == Phase::RequestIssued,
        run.failures == 0,
        run.max_retries > 0,
        reasons.len() == run.max_retries,
    ensures
        state_after(run, failures(reasons)).phase == Phase::Terminated,
        events_after(run, failures(reasons)) == retry_notes(
            (reasons.len() - 1) as nat,
            run.max_retries,
        ) + seq![EventView::Error(transport_failure(reasons.last())), EventView::Done],
{
    let earlier = reasons.drop_last();
    lemma_failures_are_retried(run, earlier);
    assert(failures(reasons).drop_last() =~= failures(earlier));
    assert(failures(reasons).last() == InputView::ConnectFailed(reasons.last()));
}

/// A request that succeeds after failures is taken up as if nothing had
/// happened: the run goes on to read the reply.
pub proof fn lemma_success_after_failures(run: RunView, reasons: Seq<Seq<char>>)
    requires
        run.phase == Phase::RequestIssued,
        run.failures == 0,
        reasons.len() < run.max_retries,
    ensures
        state_after(run, failures(reasons).push(InputView::Connected)).phase == Phase::Streaming,
        state_after(run, failures(reasons).push(InputView::Connected)).history == run.history,
        events_after(run, failures(reasons).push(InputView::Connected)) == retry_notes(
            reasons.len(),
            run.max_retries,
        ),
        run.step(InputView::Connected).action == ActionView::ReadChunk,
{
    lemma_failures_are_retried(run, reasons);
    let inputs = failures(reasons).push(InputView::Connected);
    assert(inputs.drop_last() =~= failures(reasons));
    assert(inputs.last() == InputView::Connected);
    assert(events_after(run, inputs) =~= retry_notes(reasons.len(), run.max_retries));
}

/// A call to a tool that is not registered, with well-formed arguments, is
/// answered with a text that says that the tool was not found and names it.
pub proof fn lemma_unknown_tool_is_reported(
    tools: Seq<ToolView>,
    call: crate::api::deepseek::ToolCallView,
)
    requires
        json_syntax_error(call.function.arguments) is None,
        !has_tool(functions_of(tools), call.function.name),
    ensures
        verdict(tools, call) == Some("Error: "@ + ("Tool not found: "@ + call.function.name)),
{
}

/// A call whose arguments are not well-formed JSON is answered with the
/// parser's complaint, whether or not its tool is registered.
pub proof fn lemma_malformed_arguments_are_reported(
    tools: Seq<ToolView>,
    call: crate::api::deepseek::ToolCallView,
)
    requires
        json_syntax_error(call.function.arguments) is Some,
    ensures
        verdict(tools, call) == Some(
            "Error: "@ + ("Invalid JSON args: "@ + json_syntax_error(
                call.function.arguments,
            ).unwrap()),
        ),
{
}

/// A tool call that fails before its tool runs does not end the run: where
/// it is the last call of the reply and the budget allows another turn, its
/// failure is recorded as a tool message and the model is asked again, with
/// that message in the conversation.
pub proof fn lemma_failed_call_is_recovered(run: RunView, result: Seq<char>)
    requires
        run.cursor + 1 == run.calls.len(),
        verdict(run.tools, run.calls[run.cursor as int]) == Some(result),
        run.steps < run.max_steps,
        run.max_retries > 0,
    ensures
        ({
            let call = run.calls[run.cursor as int];
            let outcome = run.dispatch();
            &&& outcome.state.phase == Phase::RequestIssued
            &&& outcome.state.history == run.history.push(result_message(call, result))
            &&& outcome.events == seq![
                call_event(call),
                result_event(call, result),
                EventView::Thinking(turn_notice()),
            ]
            &&& outcome.action == outcome.state.request(0)
        }),
{
    let call = run.calls[run.cursor as int];
    let settled = run.settle(result);
    assert(settled.dispatch() == settled.begin_turn());
    assert(run.dispatch().events =~= seq![
        call_event(call),
        result_event(call, result),
        EventView::Thinking(turn_notice()),
    ]);
}

/// The result of a tool that ran is its output, or its failure behind
/// `"Error: "`; either way it is recorded and the run goes on.
pub proof fn lemma_tool_failure_is_recovered(run: RunView, finished: Result<Seq<char>, Seq<char>>)
    requires
        run.phase == Phase::Dispatching,
        run.cursor + 1 == run.calls.len(),
        run.steps < run.max_steps,
        run.max_retries > 0,
    ensures
        ({
            let call = run.calls[run.cursor as int];
            let result = match finished {
                Ok(output) => output,
                Err(reason) => "Error: "@ + reason,
            };
            let outcome = run.step(InputView::ToolFinished(finished));
            &&& outcome.state.phase == Phase::RequestIssued
            &&& outcome.state.history == run.history.push(result_message(call, result))
            &&& outcome.events == seq![
                result_event(call, result),
                EventView::Thinking(turn_notice()),
            ]
            &&& outcome.action == outcome.state.request(0)
        }),
{
    let call = run.calls[run.cursor as int];
    let result = match finished {
        Ok(output) => output,
        Err(reason) => tool_failure(reason),
    };
    let settled = run.settle(result);
    assert(settled.dispatch() == settled.begin_turn());
    assert(run.step(InputView::ToolFinished(finished)).events =~= seq![
        result_event(call, result),
        EventView::Thinking(turn_notice()),
    ]);
}

/// Whether `later` is `earlier` with messages appended, or `earlier` itself.
pub open spec fn continues(later: Seq<MessageView>, earlier: Seq<MessageView>) -> bool {
    earlier.len() <= later.len() && later.take(earlier.len() as int) == earlier
}

/// Continuation is transitive.
pub proof fn lemma_continues_on(
    last: Seq<MessageView>,
    middle: Seq<MessageView>,
    first: Seq<MessageView>,
)
    requires
        continues(last, middle),
        continues(middle, first),
    ensures
        continues(last, first),
{
    assert(last.take(first.len() as int) =~= last.take(middle.len() as int).take(
        first.len() as int,
    ));
}

/// Appending a message continues a conversation.
pub proof fn lemma_push_continues(history: Seq<MessageView>, message: MessageView)
    ensures
        continues(history.push(message), history),
{
    assert(history.push(message).take(history.len() as int) =~= history);
}

/// A conversation continues itself.
pub proof fn lemma_continues_itself(history: Seq<MessageView>)
    ensures
        continues(history, history),
{
    assert(history.take(history.len() as int) =~= history);
}

/// Dispatching only appends to the conversation.
pub proof fn lemma_dispatch_appends(run: RunView)
    ensures
        continues(run.dispatch().state.history, run.history),
    decreases run.calls.len() - run.cursor,
{
    lemma_continues_itself(run.history);
    if run.cursor < run.calls.len() {
        let call = run.calls[run.cursor as int];
        match verdict(run.tools, call) {
            Some(result) => {
                let settled = run.settle(result);
                lemma_dispatch_appends(settled);
                lemma_push_continues(run.history, result_message(call, result));
                lemma_continues_on(settled.dispatch().state.history, settled.history, run.history);
            },
            None => {},
        }
    }
}

/// Completing a reply only appends to the conversation.
pub proof fn lemma_finalize_appends(run: RunView)
    ensures
        continues(run.finalize().state.history, run.history),
{
    let message = run.reply.message();
    let recorded = run.history.push(message);
    lemma_push_continues(run.history, message);
    match message.tool_calls {
        Some(calls) => {
            if calls.len() > 0 {
                let entering = RunView {
                    phase: Phase::Dispatching,
                    calls,
                    cursor: 0,
                    history: recorded,
                    reply: crate::agent::aggregator::AggregatorView::empty(),
                    ..run
                };
                lemma_dispatch_appends(entering);
                lemma_continues_on(entering.dispatch().state.history, recorded, run.history);
            }
        },
        None => {},
    }
}

/// The conversation of a run is append-only: no step removes or changes a
/// message that is in it, and tool results enter it in the order in which
/// the model issued the calls.
pub proof fn lemma_history_is_append_only(run: RunView, input: InputView)
    ensures
        continues(run.step(input).state.history, run.history),
{
    lemma_continues_itself(run.history);
    match run.phase {
        Phase::Streaming => {
            match input {
                InputView::Chunk(chunk) => {
                    lemma_finalize_appends(RunView { reply: run.reply.absorb(chunk), ..run });
                },
                InputView::StreamClosed => {
                    lemma_finalize_appends(run);
                },
                _ => {},
            }
        },
        Phase::Dispatching => {
            match input {
                InputView::ToolFinished(finished) => {
                    let call = run.calls[run.cursor as int];
                    let result = match finished {
                        Ok(output) => output,
                        Err(reason) => tool_failure(reason),
                    };
                    let settled = run.settle(result);
                    lemma_dispatch_appends(settled);
                    lemma_push_continues(run.history, result_message(call, result));
                    lemma_continues_on(
                        settled.dispatch().state.history,
                        settled.history,
                        run.history,
                    );
                },
                _ => {},
            }
        },
        _ => {},
    }
}

} // verus!
