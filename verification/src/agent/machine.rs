//! The agent loop as a state machine, in mathematical form.
//!
//! A run is a sequence of steps. Each step takes what the outside world just
//! delivered (the outcome of a request, a chunk of the reply, the result of a
//! tool) and yields the next state, the events to emit and the next thing to
//! ask of the outside world. The states are those of the loop: a request
//! has been issued, a reply is streaming in, a tool call is being
//! dispatched, or the run has terminated; between two turns the loop is idle
//! for a moment that no step ends in.

use crate::agent::aggregator::{chunk_events, chunk_finishes, AggregatorView};
use crate::agent::event::EventView;
use crate::agent::registry::has_tool;
use crate::api::deepseek::{
    ChatRequestView, MessageView, StreamChunkView, ToolCallView, ToolFunctionView, ToolView,
};
use crate::json::json_syntax_error;
use crate::text::decimal_text;
use vstd::prelude::*;

verus! {

/// Where a run stands.
#[derive(Clone, Copy, Debug, PartialEq, Eq, Structural)]
pub enum Phase {
    /// Between turns: nothing is outstanding.
    Idle,
    /// A request is on its way to the model.
    RequestIssued,
    /// The reply is arriving chunk by chunk.
    Streaming,
    /// A tool is working on a call of the last reply.
    Dispatching,
    /// The run is over.
    Terminated,
}

/// What the outside world delivers to a run.
pub ghost enum InputView {
    /// The request was accepted and the reply starts to stream.
    Connected,
    /// The request failed, for the given reason.
    ConnectFailed(Seq<char>),
    /// The next chunk of the reply.
    Chunk(StreamChunkView),
    /// A piece of the reply that could not be read, and why.
    ChunkError(Seq<char>),
    /// The reply ended.
    StreamClosed,
    /// The tool finished, with its output or the reason of its failure.
    ToolFinished(Result<Seq<char>, Seq<char>>),
}

/// What a run asks of the outside world next.
pub ghost enum ActionView {
    /// Wait `delay_ms` milliseconds, then send `request`.
    Request { delay_ms: nat, request: ChatRequestView },
    /// Read the next chunk of the reply.
    ReadChunk,
    /// Run the tool that `call` names, on the arguments of `call`.
    Invoke { call: ToolCallView },
    /// Nothing: the run is over.
    Stop,
}

/// The result of one step.
pub ghost struct Outcome {
    pub state: RunView,
    pub events: Seq<EventView>,
    pub action: ActionView,
}

impl Outcome {
    /// The same outcome, reached after `events` were emitted first.
    pub open spec fn after(self, events: Seq<EventView>) -> Outcome {
        Outcome { events: events + self.events, ..self }
    }
}

/// The note that opens every turn.
pub open spec fn turn_notice() -> Seq<char> {
    "Thinking..."@
}

/// The note that announces the retry after the failed attempt `attempt` of `limit`.
pub open spec fn retry_notice(attempt: nat, limit: nat) -> Seq<char> {
    "Network error, retrying ("@ + decimal_text(attempt) + "/"@ + decimal_text(limit) + ")..."@
}

/// How long to wait before the retry after the failed attempt `attempt`.
pub open spec fn backoff_ms(attempt: nat) -> nat {
    1000 * attempt
}

/// The error reported when the step budget is used up.
pub open spec fn budget_exceeded() -> Seq<char> {
    "Max steps reached"@
}

/// The error reported when the last attempt at a request failed for `reason`.
pub open spec fn transport_failure(reason: Seq<char>) -> Seq<char> {
    "API Error after retries: "@ + reason
}

/// The reason reported when a request is given up before any attempt.
pub open spec fn never_attempted() -> Seq<char> {
    "Initial error"@
}

/// The error reported when a piece of the reply could not be read.
pub open spec fn stream_failure(reason: Seq<char>) -> Seq<char> {
    "Stream Error: "@ + reason
}

/// The error reported when a run is handed something it did not ask for.
pub open spec fn unexpected_input() -> Seq<char> {
    "Unexpected input"@
}

/// The result text of a tool call that failed for `reason`.
pub open spec fn tool_failure(reason: Seq<char>) -> Seq<char> {
    "Error: "@ + reason
}

/// Why a call whose arguments are not JSON failed.
pub open spec fn invalid_arguments(reason: Seq<char>) -> Seq<char> {
    "Invalid JSON args: "@ + reason
}

/// Why a call to a tool that is not registered failed.
pub open spec fn tool_not_found(name: Seq<char>) -> Seq<char> {
    "Tool not found: "@ + name
}

/// What the advertised `tools` are, without their wrapping.
pub open spec fn functions_of(tools: Seq<ToolView>) -> Seq<ToolFunctionView> {
    Seq::new(tools.len(), |i: int| tools[i].function)
}

/// The result text of `call` where it is settled without running a tool:
/// its arguments are not well-formed JSON, or else no tool has its name.
/// `None` where the tool is to be run.
pub open spec fn verdict(tools: Seq<ToolView>, call: ToolCallView) -> Option<Seq<char>> {
    match json_syntax_error(call.function.arguments) {
        Some(reason) => Some(tool_failure(invalid_arguments(reason))),
        None => if has_tool(functions_of(tools), call.function.name) {
            None
        } else {
            Some(tool_failure(tool_not_found(call.function.name)))
        },
    }
}

/// The event that announces `call`.
pub open spec fn call_event(call: ToolCallView) -> EventView {
    EventView::ToolCall { name: call.function.name, args: call.function.arguments, id: call.id }
}

/// The event that reports `result` as the result of `call`.
pub open spec fn result_event(call: ToolCallView, result: Seq<char>) -> EventView {
    EventView::ToolResult { name: call.function.name, result, id: call.id }
}

/// The message that records `result` as the result of `call`.
pub open spec fn result_message(call: ToolCallView, result: Seq<char>) -> MessageView {
    MessageView::tool(result, call.id, call.function.name)
}

/// The conversation a run starts from: `history`, led by a system message
/// (the `prompt`, unless `history` already begins with one) and ending in a
/// user message (the `task`, unless the last message already is one).
pub open spec fn seed_history(
    prompt: Seq<char>,
    task: Seq<char>,
    history: Seq<MessageView>,
) -> Seq<MessageView> {
    let led = if history.len() > 0 && history[0].role == "system"@ {
        history
    } else {
        seq![MessageView::system(prompt)] + history
    };
    if led.last().role == "user"@ {
        led
    } else {
        led.push(MessageView::user(task))
    }
}

/// Mathematical value of a run: its fixed settings and its moving parts.
pub ghost struct RunView {
    /// The model that requests are addressed to.
    pub model: Seq<char>,
    /// The tools on offer, as requests advertise them.
    pub tools: Seq<ToolView>,
    /// How many turns the run may take.
    pub max_steps: nat,
    /// How many attempts a request gets.
    pub max_retries: nat,
    pub phase: Phase,
    /// The conversation so far.
    pub history: Seq<MessageView>,
    /// How many turns have begun.
    pub steps: nat,
    /// How many attempts at the current request have failed.
    pub failures: nat,
    /// The reply under construction.
    pub reply: AggregatorView,
    /// The tool calls of the last reply.
    pub calls: Seq<ToolCallView>,
    /// Which of `calls` is being dispatched.
    pub cursor: nat,
}

impl RunView {
    /// A run that has not begun its first turn.
    pub open spec fn idle(
        model: Seq<char>,
        tools: Seq<ToolView>,
        max_steps: nat,
        max_retries: nat,
        history: Seq<MessageView>,
    ) -> RunView {
        RunView {
            model,
            tools,
            max_steps,
            max_retries,
            phase: Phase::Idle,
            history,
            steps: 0,
            failures: 0,
            reply: AggregatorView::empty(),
            calls: Seq::empty(),
            cursor: 0,
        }
    }

    /// What holds of every run that is waiting for input.
    pub open spec fn wf(self) -> bool {
        &&& self.steps <= self.max_steps <= u32::MAX
        &&& self.max_retries <= u32::MAX
        &&& self.phase != Phase::Idle
        &&& self.phase == Phase::RequestIssued ==> self.failures < self.max_retries
        &&& self.phase == Phase::Dispatching ==> self.cursor < self.calls.len() && verdict(
            self.tools,
            self.calls[self.cursor as int],
        ) is None
    }

    /// The run, over.
    pub open spec fn ended(self) -> RunView {
        RunView { phase: Phase::Terminated, ..self }
    }

    /// The end of the run for the reason `error`.
    pub open spec fn fail(self, error: Seq<char>) -> Outcome {
        Outcome {
            state: self.ended(),
            events: seq![EventView::Error(error), EventView::Done],
            action: ActionView::Stop,
        }
    }

    /// The request of the current turn, to be sent after `delay_ms` milliseconds.
    pub open spec fn request(self, delay_ms: nat) -> ActionView {
        ActionView::Request {
            delay_ms,
            request: ChatRequestView::build(self.model, self.history, self.tools, true),
        }
    }

    /// Idle to RequestIssued: the next turn begins, unless the step budget
    /// is used up, which ends the run.
    pub open spec fn begin_turn(self) -> Outcome {
        if self.steps >= self.max_steps {
            self.fail(budget_exceeded())
        } else {
            let turn = RunView {
                phase: Phase::RequestIssued,
                steps: self.steps + 1,
                failures: 0,
                ..self
            };
            if self.max_retries == 0 {
                turn.fail(transport_failure(never_attempted())).after(
                    seq![EventView::Thinking(turn_notice())],
                )
            } else {
                Outcome {
                    state: turn,
                    events: seq![EventView::Thinking(turn_notice())],
                    action: turn.request(0),
                }
            }
        }
    }

    /// RequestIssued, the request failed: it is retried after a pause that
    /// grows with every failure, until the attempts are used up, which ends
    /// the run.
    pub open spec fn on_connect_failed(self, reason: Seq<char>) -> Outcome {
        let attempt = self.failures + 1;
        let counted = RunView { failures: attempt, ..self };
        if attempt < self.max_retries {
            Outcome {
                state: counted,
                events: seq![EventView::Thinking(retry_notice(attempt, self.max_retries))],
                action: counted.request(backoff_ms(attempt)),
            }
        } else {
            counted.fail(transport_failure(reason))
        }
    }

    /// RequestIssued to Streaming: the reply begins, with nothing received yet.
    pub open spec fn on_connected(self) -> Outcome {
        Outcome {
            state: RunView { phase: Phase::Streaming, reply: AggregatorView::empty(), ..self },
            events: Seq::empty(),
            action: ActionView::ReadChunk,
        }
    }

    /// Streaming, a chunk arrived: it is taken in and its text forwarded; a
    /// chunk with the finish marker completes the reply.
    pub open spec fn on_chunk(self, chunk: StreamChunkView) -> Outcome {
        let taken = RunView { reply: self.reply.absorb(chunk), ..self };
        if chunk_finishes(chunk) {
            taken.finalize().after(chunk_events(chunk))
        } else {
            Outcome { state: taken, events: chunk_events(chunk), action: ActionView::ReadChunk }
        }
    }

    /// Streaming, the reply is complete: the finalized message joins the
    /// conversation and the reply under construction is cleared; the tool
    /// calls of the message are dispatched, and without any the run has
    /// reached its end.
    pub open spec fn finalize(self) -> Outcome {
        let message = self.reply.message();
        let recorded = RunView {
            history: self.history.push(message),
            reply: AggregatorView::empty(),
            ..self
        };
        let events = seq![EventView::StreamEnd, EventView::NewMessage(message)];
        match message.tool_calls {
            Some(calls) if calls.len() > 0 => RunView {
                phase: Phase::Dispatching,
                calls,
                cursor: 0,
                ..recorded
            }.dispatch().after(events),
            _ => Outcome {
                state: recorded.ended(),
                events: events.push(EventView::Done),
                action: ActionView::Stop,
            },
        }
    }

    /// The conversation and the cursor once the call under the cursor has
    /// `result`.
    pub open spec fn settle(self, result: Seq<char>) -> RunView {
        RunView {
            history: self.history.push(result_message(self.calls[self.cursor as int], result)),
            cursor: self.cursor + 1,
            ..self
        }
    }

    /// Dispatching: the calls from the cursor on are taken strictly in list
    /// order. Each is announced; one that is settled without running a tool
    /// gets its result at once, and the first that needs its tool is handed
    /// out. After the last call the next turn begins.
    pub open spec fn dispatch(self) -> Outcome
        decreases self.calls.len() - self.cursor,
    {
        if self.cursor >= self.calls.len() {
            self.begin_turn()
        } else {
            let call = self.calls[self.cursor as int];
            match verdict(self.tools, call) {
                Some(result) => self.settle(result).dispatch().after(
                    seq![call_event(call), result_event(call, result)],
                ),
                None => Outcome {
                    state: RunView { phase: Phase::Dispatching, ..self },
                    events: seq![call_event(call)],
                    action: ActionView::Invoke { call },
                },
            }
        }
    }

    /// Dispatching, the tool finished: its output, or its failure as an
    /// error text, is the result of the call, and dispatch goes on.
    pub open spec fn on_tool_finished(self, finished: Result<Seq<char>, Seq<char>>) -> Outcome {
        let call = self.calls[self.cursor as int];
        let result = match finished {
            Ok(output) => output,
            Err(reason) => tool_failure(reason),
        };
        self.settle(result).dispatch().after(seq![result_event(call, result)])
    }

    /// One step of the run. A terminated run takes no step: it emits
    /// nothing and stays as it is. An input that the run did not ask for
    /// ends it with an error.
    pub open spec fn step(self, input: InputView) -> Outcome {
        match self.phase {
            Phase::Terminated => Outcome {
                state: self,
                events: Seq::empty(),
                action: ActionView::Stop,
            },
            Phase::RequestIssued => match input {
                InputView::Connected => self.on_connected(),
                InputView::ConnectFailed(reason) => self.on_connect_failed(reason),
                _ => self.fail(unexpected_input()),
            },
            Phase::Streaming => match input {
                InputView::Chunk(chunk) => self.on_chunk(chunk),
                InputView::ChunkError(reason) => self.fail(stream_failure(reason)),
                InputView::StreamClosed => self.finalize(),
                _ => self.fail(unexpected_input()),
            },
            Phase::Dispatching => match input {
                InputView::ToolFinished(finished) => self.on_tool_finished(finished),
                _ => self.fail(unexpected_input()),
            },
            Phase::Idle => self.fail(unexpected_input()),
        }
    }
}

/// The first step of a run on `task`: the conversation is seeded and the
/// first turn begins.
pub open spec fn start(
    model: Seq<char>,
    tools: Seq<ToolView>,
    max_steps: nat,
    max_retries: nat,
    prompt: Seq<char>,
    task: Seq<char>,
    history: Seq<MessageView>,
) -> Outcome {
    RunView::idle(
        model,
        tools,
        max_steps,
        max_retries,
        seed_history(prompt, task, history),
    ).begin_turn()
}

} // verus!
