//! What holds of every run, proved of the state machine.

use crate::agent::aggregator::{chunk_events, chunk_finishes, AggregatorView};
use crate::agent::event::{done_count, EventView};
use crate::agent::machine::{
    call_event, result_event, seed_history, start, tool_failure, verdict, ActionView, InputView,
    Outcome, Phase, RunView,
};
use crate::api::deepseek::{MessageView, ToolView};
use vstd::prelude::*;

verus! {

/// What a state needs so that beginning a turn or dispatching from it leads
/// to a well-formed state: limits that fit the machine, and a step count
/// within the budget.
pub open spec fn within_limits(run: RunView) -> bool {
    &&& run.steps <= run.max_steps <= u32::MAX
    &&& run.max_retries <= u32::MAX
}

/// Beginning a turn leads to a well-formed state.
pub proof fn lemma_begin_turn_keeps_wf(run: RunView)
    requires
        within_limits(run),
    ensures
        run.begin_turn().state.wf(),
{
}

/// Dispatching leads to a well-formed state.
pub proof fn lemma_dispatch_keeps_wf(run: RunView)
    requires
        within_limits(run),
    ensures
        run.dispatch().state.wf(),
    decreases run.calls.len() - run.cursor,
{
    if run.cursor >= run.calls.len() {
        lemma_begin_turn_keeps_wf(run);
    } else {
        let call = run.calls[run.cursor as int];
        match verdict(run.tools, call) {
            Some(result) => {
                lemma_dispatch_keeps_wf(run.settle(result));
            },
            None => {},
        }
    }
}

/// Completing a reply leads to a well-formed state.
pub proof fn lemma_finalize_keeps_wf(run: RunView)
    requires
        within_limits(run),
    ensures
        run.finalize().state.wf(),
{
    let message = run.reply.message();
    match message.tool_calls {
        Some(calls) => {
            if calls.len() > 0 {
                lemma_dispatch_keeps_wf(
                    RunView {
                        phase: Phase::Dispatching,
                        calls,
                        cursor: 0,
                        history: run.history.push(message),
                        reply: crate::agent::aggregator::AggregatorView::empty(),
                        ..run
                    },
                );
            }
        },
        None => {},
    }
}

/// Every step of a well-formed run leads to a well-formed run.
pub proof fn lemma_step_keeps_wf(run: RunView, input: InputView)
    requires
        run.wf(),
    ensures
        run.step(input).state.wf(),
{
    match run.phase {
        Phase::Streaming => {
            match input {
                InputView::Chunk(chunk) => {
                    lemma_finalize_keeps_wf(RunView { reply: run.reply.absorb(chunk), ..run });
                },
                InputView::StreamClosed => {
                    lemma_finalize_keeps_wf(run);
                },
                _ => {},
            }
        },
        Phase::Dispatching => {
            match input {
                InputView::ToolFinished(finished) => {
                    let result = match finished {
                        Ok(output) => output,
                        Err(reason) => crate::agent::machine::tool_failure(reason),
                    };
                    lemma_dispatch_keeps_wf(run.settle(result));
                },
                _ => {},
            }
        },
        _ => {},
    }
}

/// Whether `history` begins with a system message.
pub open spec fn leads_with_system(history: Seq<MessageView>) -> bool {
    history.len() > 0 && history[0].role == "system"@
}

/// Whether `history` ends in a user message.
pub open spec fn ends_with_user(history: Seq<MessageView>) -> bool {
    history.len() > 0 && history.last().role == "user"@
}

/// How many messages of `history` have the role `role`.
pub open spec fn role_count(history: Seq<MessageView>, role: Seq<char>) -> nat
    decreases history.len(),
{
    if history.len() == 0 {
        0
    } else {
        role_count(history.drop_last(), role) + if history.last().role == role {
            1nat
        } else {
            0nat
        }
    }
}

/// Counting a role in two conversations joined is counting it in each.
pub proof fn lemma_role_count_concat(a: Seq<MessageView>, b: Seq<MessageView>, role: Seq<char>)
    ensures
        role_count(a + b, role) == role_count(a, role) + role_count(b, role),
    decreases b.len(),
{
    if b.len() == 0 {
        assert(a + b =~= a);
    } else {
        assert((a + b).drop_last() =~= a + b.drop_last());
        assert((a + b).last() == b.last());
        lemma_role_count_concat(a, b.drop_last(), role);
    }
}

/// The role names differ from one another.
pub proof fn lemma_roles_differ()
    ensures
        "system"@ != "user"@,
        "system"@ != "assistant"@,
        "system"@ != "tool"@,
        "user"@ != "assistant"@,
        "user"@ != "tool"@,
        "assistant"@ != "tool"@,
{
    reveal_strlit("system");
    reveal_strlit("user");
    reveal_strlit("assistant");
    reveal_strlit("tool");
    assert("system"@.len() == 6);
    assert("user"@.len() == 4);
    assert("assistant"@.len() == 9);
    assert("tool"@.len() == 4);
    assert("user"@[0] == 'u');
    assert("tool"@[0] == 't');
}

/// What seeding does to a conversation, in one equation: only a leading
/// system message and a trailing user message are ever added, each only
/// where it was missing, and nothing else changes.
pub proof fn lemma_seed_history(prompt: Seq<char>, task: Seq<char>, history: Seq<MessageView>)
    ensures
        seed_history(prompt, task, history) == (if leads_with_system(history) {
            Seq::<MessageView>::empty()
        } else {
            seq![MessageView::system(prompt)]
        }) + history + (if ends_with_user(history) {
            Seq::<MessageView>::empty()
        } else {
            seq![MessageView::user(task)]
        }),
{
    lemma_roles_differ();
    let lead = if leads_with_system(history) {
        Seq::<MessageView>::empty()
    } else {
        seq![MessageView::system(prompt)]
    };
    let tail = if ends_with_user(history) {
        Seq::<MessageView>::empty()
    } else {
        seq![MessageView::user(task)]
    };
    let led = lead + history;
    assert(led =~= if leads_with_system(history) {
        history
    } else {
        seq![MessageView::system(prompt)] + history
    });
    if history.len() > 0 {
        assert(led.last() == history.last());
    }
    assert(seed_history(prompt, task, history) =~= lead + history + tail);
}

/// A run always starts from a conversation whose first message is a system
/// message. Where the given conversation already began with one, that
/// message stays first and no second system message is added; otherwise
/// exactly one is added.
pub proof fn lemma_system_message_leads(
    prompt: Seq<char>,
    task: Seq<char>,
    history: Seq<MessageView>,
)
    ensures
        seed_history(prompt, task, history).len() > 0,
        seed_history(prompt, task, history)[0].role == "system"@,
        leads_with_system(history) ==> seed_history(prompt, task, history)[0] == history[0],
        role_count(seed_history(prompt, task, history), "system"@) == role_count(
            history,
            "system"@,
        ) + if leads_with_system(history) {
            0nat
        } else {
            1nat
        },
{
    lemma_roles_differ();
    lemma_seed_history(prompt, task, history);
    let lead = if leads_with_system(history) {
        Seq::<MessageView>::empty()
    } else {
        seq![MessageView::system(prompt)]
    };
    let tail = if ends_with_user(history) {
        Seq::<MessageView>::empty()
    } else {
        seq![MessageView::user(task)]
    };
    lemma_role_count_concat(lead + history, tail, "system"@);
    lemma_role_count_concat(lead, history, "system"@);
    lemma_role_count_single(MessageView::system(prompt), "system"@);
    lemma_role_count_single(MessageView::user(task), "system"@);
    assert(role_count(Seq::<MessageView>::empty(), "system"@) == 0);
}

/// Counting a role in a conversation of one message.
pub proof fn lemma_role_count_single(message: MessageView, role: Seq<char>)
    ensures
        role_count(seq![message], role) == if message.role == role {
            1nat
        } else {
            0nat
        },
{
    assert(seq![message].drop_last() =~= Seq::<MessageView>::empty());
    assert(seq![message].last() == message);
    assert(role_count(Seq::<MessageView>::empty(), role) == 0);
}

/// A run always starts from a conversation whose last message is a user
/// message. Where the given conversation already ended in one, nothing is
/// appended; otherwise the task is appended as a user message.
pub proof fn lemma_task_is_last(prompt: Seq<char>, task: Seq<char>, history: Seq<MessageView>)
    ensures
        seed_history(prompt, task, history).last().role == "user"@,
        ends_with_user(history) ==> seed_history(prompt, task, history).last() == history.last()
            && role_count(seed_history(prompt, task, history), "user"@) == role_count(
            history,
            "user"@,
        ),
        !ends_with_user(history) ==> seed_history(prompt, task, history).last()
            == MessageView::user(task) && seed_history(prompt, task, history).drop_last().len()
            >= history.len(),
{
    lemma_roles_differ();
    lemma_seed_history(prompt, task, history);
    let lead = if leads_with_system(history) {
        Seq::<MessageView>::empty()
    } else {
        seq![MessageView::system(prompt)]
    };
    let tail = if ends_with_user(history) {
        Seq::<MessageView>::empty()
    } else {
        seq![MessageView::user(task)]
    };
    if ends_with_user(history) {
        assert(lead + history + tail =~= lead + history);
        lemma_role_count_concat(lead, history, "user"@);
        lemma_role_count_single(MessageView::system(prompt), "user"@);
        assert(role_count(Seq::<MessageView>::empty(), "user"@) == 0);
    }
}

/// How often `Error` occurs among `events`.
pub open spec fn error_count(events: Seq<EventView>) -> nat
    decreases events.len(),
{
    if events.len() == 0 {
        0
    } else {
        error_count(events.drop_last()) + if events.last() is Error {
            1nat
        } else {
            0nat
        }
    }
}

/// Counting `Done` and `Error` in two event sequences joined is counting
/// them in each.
pub proof fn lemma_counts_concat(a: Seq<EventView>, b: Seq<EventView>)
    ensures
        done_count(a + b) == done_count(a) + done_count(b),
        error_count(a + b) == error_count(a) + error_count(b),
    decreases b.len(),
{
    if b.len() == 0 {
        assert(a + b =~= a);
    } else {
        assert((a + b).drop_last() =~= a + b.drop_last());
        assert((a + b).last() == b.last());
        lemma_counts_concat(a, b.drop_last());
    }
}

/// Counting `Done` and `Error` in a single event.
pub proof fn lemma_counts_single(event: EventView)
    ensures
        done_count(seq![event]) == if event is Done {
            1nat
        } else {
            0nat
        },
        error_count(seq![event]) == if event is Error {
            1nat
        } else {
            0nat
        },
{
    assert(seq![event].drop_last() =~= Seq::<EventView>::empty());
    assert(seq![event].last() == event);
    assert(done_count(Seq::<EventView>::empty()) == 0);
    assert(error_count(Seq::<EventView>::empty()) == 0);
}

/// Counting `Done` and `Error` in two events.
pub proof fn lemma_counts_pair(first: EventView, second: EventView)
    ensures
        done_count(seq![first, second]) == done_count(seq![first]) + done_count(seq![second]),
        error_count(seq![first, second]) == error_count(seq![first]) + error_count(seq![second]),
{
    assert(seq![first, second] =~= seq![first] + seq![second]);
    lemma_counts_concat(seq![first], seq![second]);
}

/// An outcome is orderly when it reports the end of the run in one way
/// only: the run is terminated exactly if the action is `Stop`, exactly if
/// `Done` was emitted; `Done` is then emitted once and last; and an `Error`
/// is emitted at most once, and only where the run ends.
pub open spec fn orderly(outcome: Outcome) -> bool {
    let over = outcome.state.phase == Phase::Terminated;
    &&& over <==> outcome.action is Stop
    &&& done_count(outcome.events) == if over {
        1nat
    } else {
        0nat
    }
    &&& error_count(outcome.events) <= done_count(outcome.events)
    &&& over ==> outcome.events.len() > 0 && outcome.events.last() is Done
}

/// An orderly outcome stays orderly behind events that hold neither `Done`
/// nor `Error`.
pub proof fn lemma_orderly_after(outcome: Outcome, events: Seq<EventView>)
    requires
        orderly(outcome),
        done_count(events) == 0,
        error_count(events) == 0,
    ensures
        orderly(outcome.after(events)),
{
    lemma_counts_concat(events, outcome.events);
    if outcome.events.len() > 0 {
        assert((events + outcome.events).last() == outcome.events.last());
    }
}

/// Ending a run with an error is orderly.
pub proof fn lemma_fail_is_orderly(run: RunView, error: Seq<char>)
    ensures
        orderly(run.fail(error)),
{
    lemma_counts_pair(EventView::Error(error), EventView::Done);
    lemma_counts_single(EventView::Error(error));
    lemma_counts_single(EventView::Done);
}

/// Beginning a turn is orderly.
pub proof fn lemma_begin_turn_is_orderly(run: RunView)
    ensures
        orderly(run.begin_turn()),
{
    let note = EventView::Thinking(crate::agent::machine::turn_notice());
    lemma_counts_single(note);
    if run.steps >= run.max_steps {
        lemma_fail_is_orderly(run, crate::agent::machine::budget_exceeded());
    } else {
        let turn = RunView {
            phase: Phase::RequestIssued,
            steps: run.steps + 1,
            failures: 0,
            ..run
        };
        if run.max_retries == 0 {
            let error = crate::agent::machine::transport_failure(
                crate::agent::machine::never_attempted(),
            );
            lemma_fail_is_orderly(turn, error);
            lemma_orderly_after(turn.fail(error), seq![note]);
        }
    }
}

/// Dispatching is orderly.
pub proof fn lemma_dispatch_is_orderly(run: RunView)
    ensures
        orderly(run.dispatch()),
    decreases run.calls.len() - run.cursor,
{
    if run.cursor >= run.calls.len() {
        lemma_begin_turn_is_orderly(run);
    } else {
        let call = run.calls[run.cursor as int];
        lemma_counts_single(call_event(call));
        match verdict(run.tools, call) {
            Some(result) => {
                lemma_dispatch_is_orderly(run.settle(result));
                lemma_counts_single(result_event(call, result));
                lemma_counts_pair(call_event(call), result_event(call, result));
                lemma_orderly_after(
                    run.settle(result).dispatch(),
                    seq![call_event(call), result_event(call, result)],
                );
            },
            None => {},
        }
    }
}

/// Completing a reply is orderly.
pub proof fn lemma_finalize_is_orderly(run: RunView)
    ensures
        orderly(run.finalize()),
{
    let message = run.reply.message();
    let recorded = RunView {
        history: run.history.push(message),
        reply: AggregatorView::empty(),
        ..run
    };
    let events = seq![EventView::StreamEnd, EventView::NewMessage(message)];
    lemma_counts_pair(EventView::StreamEnd, EventView::NewMessage(message));
    lemma_counts_single(EventView::StreamEnd);
    lemma_counts_single(EventView::NewMessage(message));
    lemma_counts_single(EventView::Done);
    let dispatched = match message.tool_calls {
        Some(calls) => calls.len() > 0,
        None => false,
    };
    if dispatched {
        let entering = RunView {
            phase: Phase::Dispatching,
            calls: message.tool_calls->0,
            cursor: 0,
            ..recorded
        };
        lemma_dispatch_is_orderly(entering);
        lemma_orderly_after(entering.dispatch(), events);
    } else {
        assert(events.push(EventView::Done) =~= events + seq![EventView::Done]);
        lemma_counts_concat(events, seq![EventView::Done]);
    }
}

/// Every step of a run that is not over is orderly: it emits `Done` exactly
/// if it ends the run, then once and last, and it stops exactly then.
pub proof fn lemma_step_is_orderly(run: RunView, input: InputView)
    requires
        run.phase != Phase::Terminated,
    ensures
        orderly(run.step(input)),
{
    let misuse = crate::agent::machine::unexpected_input();
    lemma_fail_is_orderly(run, misuse);
    match run.phase {
        Phase::RequestIssued => {
            match input {
                InputView::Connected => {
                    assert(done_count(Seq::<EventView>::empty()) == 0);
                    assert(error_count(Seq::<EventView>::empty()) == 0);
                },
                InputView::ConnectFailed(reason) => {
                    let attempt = run.failures + 1;
                    let counted = RunView { failures: attempt, ..run };
                    lemma_counts_single(
                        EventView::Thinking(
                            crate::agent::machine::retry_notice(attempt, run.max_retries),
                        ),
                    );
                    lemma_fail_is_orderly(
                        counted,
                        crate::agent::machine::transport_failure(reason),
                    );
                },
                _ => {},
            }
        },
        Phase::Streaming => {
            match input {
                InputView::Chunk(chunk) => {
                    lemma_chunk_events_are_quiet(chunk);
                    let taken = RunView { reply: run.reply.absorb(chunk), ..run };
                    if chunk_finishes(chunk) {
                        lemma_finalize_is_orderly(taken);
                        lemma_orderly_after(taken.finalize(), chunk_events(chunk));
                    }
                },
                InputView::ChunkError(reason) => {
                    lemma_fail_is_orderly(run, crate::agent::machine::stream_failure(reason));
                },
                InputView::StreamClosed => {
                    lemma_finalize_is_orderly(run);
                },
                _ => {},
            }
        },
        Phase::Dispatching => {
            match input {
                InputView::ToolFinished(finished) => {
                    let call = run.calls[run.cursor as int];
                    let result = match finished {
                        Ok(output) => output,
                        Err(reason) => tool_failure(reason),
                    };
                    lemma_counts_single(result_event(call, result));
                    lemma_dispatch_is_orderly(run.settle(result));
                    lemma_orderly_after(
                        run.settle(result).dispatch(),
                        seq![result_event(call, result)],
                    );
                },
                _ => {},
            }
        },
        _ => {},
    }
}

/// The live events of a chunk hold neither `Done` nor `Error`.
pub proof fn lemma_chunk_events_are_quiet(chunk: crate::api::deepseek::StreamChunkView)
    ensures
        done_count(chunk_events(chunk)) == 0,
        error_count(chunk_events(chunk)) == 0,
{
    match crate::agent::aggregator::chunk_text(chunk) {
        Some(text) => {
            lemma_counts_single(EventView::StreamChunk(text));
        },
        None => {
            assert(done_count(Seq::<EventView>::empty()) == 0);
            assert(error_count(Seq::<EventView>::empty()) == 0);
        },
    }
}

/// The state of `run` after the inputs `inputs`, taken in order.
pub open spec fn state_after(run: RunView, inputs: Seq<InputView>) -> RunView
    decreases inputs.len(),
{
    if inputs.len() == 0 {
        run
    } else {
        state_after(run, inputs.drop_last()).step(inputs.last()).state
    }
}

/// The events that `run` emits while it takes the inputs `inputs`.
pub open spec fn events_after(run: RunView, inputs: Seq<InputView>) -> Seq<EventView>
    decreases inputs.len(),
{
    if inputs.len() == 0 {
        Seq::empty()
    } else {
        events_after(run, inputs.drop_last()) + state_after(run, inputs.drop_last()).step(
            inputs.last(),
        ).events
    }
}

/// How many of the steps that `run` takes on `inputs` ask for the first
/// attempt at a new request, that is, open a turn.
pub open spec fn turns_after(run: RunView, inputs: Seq<InputView>) -> nat
    decreases inputs.len(),
{
    if inputs.len() == 0 {
        0
    } else {
        turns_after(run, inputs.drop_last()) + if opens_turn(
            state_after(run, inputs.drop_last()).step(inputs.last()).action,
        ) {
            1nat
        } else {
            0nat
        }
    }
}

/// Whether `action` asks for the first attempt at a request.
pub open spec fn opens_turn(action: ActionView) -> bool {
    action matches ActionView::Request { delay_ms, .. } && delay_ms == 0
}

/// Whatever the outside world delivers, and in whatever order, a run that
/// has emitted events `emitted` and stands at `run` in an orderly way stays
/// orderly: `Done` is emitted exactly once if the run is over and not at
/// all before, nothing follows it, and at most one `Error` is emitted.
pub proof fn lemma_run_stays_orderly(first: Outcome, inputs: Seq<InputView>)
    requires
        orderly(first),
    ensures
        done_count(first.events + events_after(first.state, inputs)) == if state_after(
            first.state,
            inputs,
        ).phase == Phase::Terminated {
            1nat
        } else {
            0nat
        },
        error_count(first.events + events_after(first.state, inputs)) <= done_count(
            first.events + events_after(first.state, inputs),
        ),
        state_after(first.state, inputs).phase == Phase::Terminated ==> (first.events
            + events_after(first.state, inputs)).last() is Done,
    decreases inputs.len(),
{
    if inputs.len() == 0 {
        assert(first.events + events_after(first.state, inputs) =~= first.events);
    } else {
        let earlier = inputs.drop_last();
        lemma_run_stays_orderly(first, earlier);
        let before = state_after(first.state, earlier);
        let so_far = first.events + events_after(first.state, earlier);
        let step = before.step(inputs.last());
        assert(first.events + events_after(first.state, inputs) =~= so_far + step.events);
        lemma_counts_concat(so_far, step.events);
        if before.phase == Phase::Terminated {
            assert(so_far + step.events =~= so_far);
        } else {
            lemma_step_is_orderly(before, inputs.last());
            if step.events.len() > 0 {
                assert((so_far + step.events).last() == step.events.last());
            }
        }
    }
}

/// Every run emits `Done` exactly once, as its final event, on every path:
/// for every conversation and task it starts from and everything the
/// outside world may deliver, the events of the run hold no `Done` while
/// the run is going, and exactly one, in last place, once it is over. At
/// most one `Error` is ever emitted.
pub proof fn lemma_done_exactly_once_and_last(
    model: Seq<char>,
    tools: Seq<ToolView>,
    max_steps: nat,
    max_retries: nat,
    prompt: Seq<char>,
    task: Seq<char>,
    history: Seq<MessageView>,
    inputs: Seq<InputView>,
)
    ensures
        ({
            let begun = start(model, tools, max_steps, max_retries, prompt, task, history);
            let events = begun.events + events_after(begun.state, inputs);
            let over = state_after(begun.state, inputs).phase == Phase::Terminated;
            &&& done_count(events) == if over {
                1nat
            } else {
                0nat
            }
            &&& over ==> events.last() is Done
            &&& error_count(events) <= 1
        }),
{
    let begun = start(model, tools, max_steps, max_retries, prompt, task, history);
    lemma_begin_turn_is_orderly(
        RunView::idle(model, tools, max_steps, max_retries, seed_history(prompt, task, history)),
    );
    lemma_run_stays_orderly(begun, inputs);
}

/// Nothing follows `Done`: a run that is over emits nothing more and stays
/// as it is, whatever it is handed.
pub proof fn lemma_nothing_after_the_end(run: RunView, inputs: Seq<InputView>)
    requires
        run.phase == Phase::Terminated,
    ensures
        state_after(run, inputs) == run,
        events_after(run, inputs) == Seq::<EventView>::empty(),
    decreases inputs.len(),
{
    if inputs.len() > 0 {
        lemma_nothing_after_the_end(run, inputs.drop_last());
        assert(events_after(run, inputs) =~= Seq::<EventView>::empty());
    }
}

} // verus!
