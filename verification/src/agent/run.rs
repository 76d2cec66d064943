//! The agent loop in executable form: an [`Agent`] starts a [`Run`], and the
//! run advances one step for each thing the outside world delivers. The
//! caller sends the requests, reads the chunks and runs the tools; every
//! decision is taken here, and each step is proved to be the step of the
//! state machine in [`crate::agent::machine`].

use crate::agent::aggregator::{AggregatorView, StreamAggregator};
use crate::agent::event::{emit, AgentEvent, EventView};
use crate::agent::machine::{
    call_event, functions_of, invalid_arguments, never_attempted, result_event, retry_notice,
    seed_history, start, tool_failure, tool_not_found, transport_failure, turn_notice, verdict,
    ActionView, InputView, Outcome, Phase, RunView,
};
use crate::agent::laws::{lemma_begin_turn_keeps_wf, lemma_step_keeps_wf};
use crate::agent::registry::{
    advertised, has_tool, lemma_position_is, ToolRegistry, ToolResult,
};
use crate::api::deepseek::{
    clone_calls, deepseek_model, ChatRequest, DeepSeekClient, Message, MessageView,
    StreamChunk, Tool, ToolCall,
};
use crate::json::parse_json;
use crate::text::{decimal, join, same_text};
use serde_json::Value;
use std::sync::Arc;
use vstd::prelude::*;

verus! {

/// The instructions that open a conversation which does not bring its own.
pub const SYSTEM_PROMPT: &'static str =
    "你是 CodeMaster，一个专业的 AI 编码助手，专为中国开发者设计。\n\n## 核心能力\n你拥有以下工具来帮助用户完成编码任务：\n- **read_file**: 读取文件内容，支持指定行范围\n- **write_file**: 创建或覆盖文件\n- **edit_file**: 精确替换文件中的字符串\n- **grep**: 使用正则表达式搜索代码\n- **glob**: 查找匹配模式的文件\n- **bash**: 执行 Shell/PowerShell 命令\n- **project_structure**: 获取项目目录结构\n\n## 工作原则\n1. **先理解后行动**: 在修改代码前，先阅读相关文件了解上下文\n2. **最小改动原则**: 只修改必要的代码，不要过度重构\n3. **安全第一**: 执行命令前考虑潜在风险，避免破坏性操作\n4. **清晰沟通**: 用中文解释你的思路和操作\n\n## 响应风格\n- 简洁专业，避免冗余\n- 代码修改时展示关键改动\n- 遇到错误时分析原因并提供解决方案\n- 支持中英文双语交流\n\n当前工作环境: Windows + PowerShell\n";

/// How many turns a run may take unless told otherwise.
pub const DEFAULT_MAX_STEPS: u32 = 20;

/// How many attempts a request gets unless told otherwise.
pub const DEFAULT_MAX_RETRIES: u32 = 3;

/// Mathematical value of what a tool hands back.
pub open spec fn delivered(finished: ToolResult) -> Result<Seq<char>, Seq<char>> {
    match finished {
        Ok(output) => Ok(output@),
        Err(reason) => Err(reason@),
    }
}

/// What the outside world delivers to a run.
#[derive(Debug, PartialEq, Eq)]
pub enum Input {
    /// The request was accepted and the reply starts to stream.
    Connected,
    /// The request failed, for the given reason.
    ConnectFailed(String),
    /// The next chunk of the reply.
    Chunk(StreamChunk),
    /// A piece of the reply that could not be read, and why.
    ChunkError(String),
    /// The reply ended.
    StreamClosed,
    /// The tool finished, with its output or the reason of its failure.
    ToolFinished(ToolResult),
}

impl View for Input {
    type V = InputView;

    open spec fn view(&self) -> InputView {
        match self {
            Input::Connected => InputView::Connected,
            Input::ConnectFailed(reason) => InputView::ConnectFailed(reason@),
            Input::Chunk(chunk) => InputView::Chunk(chunk@),
            Input::ChunkError(reason) => InputView::ChunkError(reason@),
            Input::StreamClosed => InputView::StreamClosed,
            Input::ToolFinished(finished) => InputView::ToolFinished(delivered(*finished)),
        }
    }
}

/// What a run asks of the outside world next.
#[derive(Debug, PartialEq, Eq)]
pub enum Action {
    /// Wait `delay_ms` milliseconds, then send `request`; answer with
    /// `Connected` or `ConnectFailed`.
    Request { delay_ms: u64, request: ChatRequest },
    /// Read the next chunk of the reply; answer with `Chunk`, `ChunkError`
    /// or `StreamClosed`.
    ReadChunk,
    /// Run the tool that `call` names on `arguments`, the parsed arguments
    /// of `call`; answer with `ToolFinished`.
    Invoke { call: ToolCall, arguments: Value },
    /// Nothing: the run is over.
    Stop,
}

impl View for Action {
    type V = ActionView;

    open spec fn view(&self) -> ActionView {
        match self {
            Action::Request { delay_ms, request } => ActionView::Request {
                delay_ms: *delay_ms as nat,
                request: request@,
            },
            Action::ReadChunk => ActionView::ReadChunk,
            Action::Invoke { call, .. } => ActionView::Invoke { call: call@ },
            Action::Stop => ActionView::Stop,
        }
    }
}

/// What one step of a run produced: the events to emit, in order, and what
/// to do next.
#[derive(Debug, PartialEq, Eq)]
pub struct Step {
    pub events: Vec<AgentEvent>,
    pub action: Action,
}

/// Decides what becomes of a tool call once its arguments have been through
/// the JSON parser and its name through the registry: `Ok` with the parsed
/// arguments where the tool is to be run, `Err` with the result text where
/// the call fails before any tool runs. Malformed arguments are reported
/// before an unknown name.
pub fn settle_call(parsed: Result<Value, String>, registered: bool, name: &str) -> (settled:
    Result<Value, String>)
    ensures
        match parsed {
            Err(reason) => settled matches Err(text) && text@ == tool_failure(
                invalid_arguments(reason@),
            ),
            Ok(arguments) => if registered {
                settled == Ok::<Value, String>(arguments)
            } else {
                settled matches Err(text) && text@ == tool_failure(tool_not_found(name@))
            },
        },
{
    match parsed {
        Err(reason) => Err(join("Error: ", join("Invalid JSON args: ", reason.as_str()).as_str())),
        Ok(arguments) => {
            if registered {
                Ok(arguments)
            } else {
                Err(join("Error: ", join("Tool not found: ", name).as_str()))
            }
        },
    }
}

/// The result text of a tool call whose tool has finished: the output as it
/// is, a failure behind `"Error: "`.
pub fn result_text(finished: ToolResult) -> (text: String)
    ensures
        text@ == match delivered(finished) {
            Ok(output) => output,
            Err(reason) => tool_failure(reason),
        },
{
    match finished {
        Ok(output) => output,
        Err(reason) => join("Error: ", reason.as_str()),
    }
}

/// The note that announces the retry after the failed attempt `attempt` of `limit`.
pub fn retry_text(attempt: u32, limit: u32) -> (text: String)
    ensures
        text@ == retry_notice(attempt as nat, limit as nat),
{
    let mut text = join("Network error, retrying (", decimal(attempt as u64).as_str());
    text.append("/");
    text.append(decimal(limit as u64).as_str());
    text.append(")...");
    text
}

/// Whether one of `tools` is named `name`.
pub fn offers(tools: &Vec<Tool>, name: &str) -> (yes: bool)
    ensures
        yes == has_tool(functions_of(tools.deep_view()), name@),
{
    let ghost functions = functions_of(tools.deep_view());
    let mut at: usize = 0;
    while at < tools.len()
        invariant
            at <= tools.len(),
            functions == functions_of(tools.deep_view()),
            forall|k: int| 0 <= k < at ==> (#[trigger] functions[k]).name != name@,
        ensures
            at <= tools.len(),
            forall|k: int| 0 <= k < at ==> (#[trigger] functions[k]).name != name@,
            at < tools.len() ==> functions[at as int].name == name@,
        decreases tools.len() - at,
    {
        if same_text(tools[at].function.name.as_str(), name) {
            break;
        }
        at += 1;
    }
    proof {
        lemma_position_is(functions, name@, at as int);
    }
    at < tools.len()
}

/// Seeds the conversation of a run: a system message takes the lead unless
/// `history` already begins with one, and `task` is appended as a user
/// message unless the last message already is one.
pub fn prepare_history(task: String, history: Vec<Message>) -> (seeded: Vec<Message>)
    ensures
        seeded.deep_view() == seed_history(SYSTEM_PROMPT@, task@, history.deep_view()),
{
    let mut seeded = history;
    let ghost given = seeded.deep_view();
    let has_system = seeded.len() > 0 && seeded[0].has_role("system");
    if !has_system {
        seeded.insert(0, Message::system(SYSTEM_PROMPT.to_owned()));
        assert(seeded.deep_view() =~= seq![MessageView::system(SYSTEM_PROMPT@)] + given);
    }
    let ghost led = seeded.deep_view();
    assert(led.len() > 0);
    let last = seeded.len() - 1;
    assert(seeded[last as int]@ == led.last());
    if !seeded[last].has_role("user") {
        seeded.push(Message::user(task));
        assert(seeded.deep_view() =~= led.push(MessageView::user(task@)));
    }
    seeded
}

/// One run of the agent loop: the conversation it owns and where it stands.
pub struct Run {
    model: String,
    tools: Vec<Tool>,
    max_steps: u32,
    max_retries: u32,
    phase: Phase,
    history: Vec<Message>,
    steps: u32,
    failures: u32,
    reply: StreamAggregator,
    calls: Vec<ToolCall>,
    cursor: usize,
}

impl View for Run {
    type V = RunView;

    closed spec fn view(&self) -> RunView {
        RunView {
            model: self.model@,
            tools: self.tools.deep_view(),
            max_steps: self.max_steps as nat,
            max_retries: self.max_retries as nat,
            phase: self.phase,
            history: self.history.deep_view(),
            steps: self.steps as nat,
            failures: self.failures as nat,
            reply: self.reply@,
            calls: self.calls.deep_view(),
            cursor: self.cursor as nat,
        }
    }
}

/// The outcome that a step has reached: the state of `run`, the events
/// emitted and the action chosen.
pub open spec fn reached(run: &Run, events: &Vec<AgentEvent>, action: &Action) -> Outcome {
    Outcome { state: run@, events: events.deep_view(), action: action@ }
}

impl Run {
    /// Where the run stands.
    pub fn phase(&self) -> (phase: Phase)
        ensures
            phase == self@.phase,
    {
        self.phase
    }

    /// Whether the run is over.
    pub fn is_terminated(&self) -> (over: bool)
        ensures
            over == (self@.phase == Phase::Terminated),
    {
        match self.phase {
            Phase::Terminated => true,
            _ => false,
        }
    }

    /// The conversation so far.
    pub fn history(&self) -> (history: &Vec<Message>)
        ensures
            history.deep_view() == self@.history,
    {
        &self.history
    }

    /// How many turns have begun.
    pub fn steps(&self) -> (steps: u32)
        ensures
            steps == self@.steps,
    {
        self.steps
    }

    /// Gives up the run for its conversation.
    pub fn into_history(self) -> (history: Vec<Message>)
        ensures
            history.deep_view() == self@.history,
    {
        self.history
    }

    fn record(&mut self, message: Message)
        ensures
            final(self)@ == (RunView { history: old(self)@.history.push(message@), ..old(self)@ }),
    {
        self.history.push(message);
        assert(self.history.deep_view() =~= old(self).history.deep_view().push(message@));
    }

    fn fail(&mut self, events: &mut Vec<AgentEvent>, error: String) -> (action: Action)
        ensures
            reached(final(self), final(events), &action) == old(self)@.fail(error@).after(
                old(events).deep_view(),
            ),
    {
        self.phase = Phase::Terminated;
        emit(events, AgentEvent::Error(error));
        emit(events, AgentEvent::Done);
        assert(events.deep_view() =~= old(events).deep_view() + old(self)@.fail(error@).events);
        Action::Stop
    }

    fn request(&self, delay_ms: u64) -> (action: Action)
        ensures
            action@ == self@.request(delay_ms as nat),
    {
        Action::Request {
            delay_ms,
            request: ChatRequest::build(self.model.as_str(), &self.history, &self.tools, true),
        }
    }

    fn begin_turn(&mut self, events: &mut Vec<AgentEvent>) -> (action: Action)
        ensures
            reached(final(self), final(events), &action) == old(self)@.begin_turn().after(
                old(events).deep_view(),
            ),
    {
        if self.steps >= self.max_steps {
            return self.fail(events, "Max steps reached".to_owned());
        }
        self.phase = Phase::RequestIssued;
        self.steps = self.steps + 1;
        self.failures = 0;
        emit(events, AgentEvent::Thinking("Thinking...".to_owned()));
        if self.max_retries == 0 {
            let ghost turn = self@;
            let action = self.fail(
                events,
                join("API Error after retries: ", "Initial error"),
            );
            assert(events.deep_view() =~= old(events).deep_view() + turn.fail(
                transport_failure(never_attempted()),
            ).after(seq![EventView::Thinking(turn_notice())]).events);
            return action;
        }
        assert(events.deep_view() =~= old(events).deep_view() + old(self)@.begin_turn().events);
        self.request(0)
    }

    fn on_connected(&mut self, events: &mut Vec<AgentEvent>) -> (action: Action)
        ensures
            reached(final(self), final(events), &action) == old(self)@.on_connected().after(
                old(events).deep_view(),
            ),
    {
        self.phase = Phase::Streaming;
        self.reply = StreamAggregator::new();
        assert(events.deep_view() =~= old(events).deep_view() + old(self)@.on_connected().events);
        Action::ReadChunk
    }

    fn on_connect_failed(&mut self, events: &mut Vec<AgentEvent>, reason: String) -> (action:
        Action)
        requires
            old(self)@.failures < u32::MAX,
        ensures
            reached(final(self), final(events), &action) == old(self)@.on_connect_failed(
                reason@,
            ).after(old(events).deep_view()),
    {
        let attempt = self.failures + 1;
        self.failures = attempt;
        if attempt < self.max_retries {
            emit(events, AgentEvent::Thinking(retry_text(attempt, self.max_retries)));
            assert(events.deep_view() =~= old(events).deep_view() + old(self)@.on_connect_failed(
                reason@,
            ).events);
            assert(1000 * attempt <= u64::MAX);
            let delay_ms: u64 = 1000 * (attempt as u64);
            self.request(delay_ms)
        } else {
            self.fail(events, join("API Error after retries: ", reason.as_str()))
        }
    }

    fn dispatch(&mut self, events: &mut Vec<AgentEvent>) -> (action: Action)
        ensures
            reached(final(self), final(events), &action) == old(self)@.dispatch().after(
                old(events).deep_view(),
            ),
    {
        let ghost goal = self@.dispatch().after(events.deep_view());
        while self.cursor < self.calls.len()
            invariant
                self@.dispatch().after(events.deep_view()) == goal,
                goal == old(self)@.dispatch().after(old(events).deep_view()),
            decreases self.calls.len() - self.cursor,
        {
            let ghost before = self@;
            let ghost emitted = events.deep_view();
            let call = self.calls[self.cursor].clone();
            assert(call@ == before.calls[before.cursor as int]);
            emit(
                events,
                AgentEvent::ToolCall {
                    name: call.function.name.clone(),
                    args: call.function.arguments.clone(),
                    id: call.id.clone(),
                },
            );
            let parsed = parse_json(call.function.arguments.as_str());
            let registered = offers(&self.tools, call.function.name.as_str());
            match settle_call(parsed, registered, call.function.name.as_str()) {
                Ok(arguments) => {
                    self.phase = Phase::Dispatching;
                    assert(verdict(before.tools, call@) is None);
                    assert(events.deep_view() =~= emitted + before.dispatch().events);
                    return Action::Invoke { call, arguments };
                },
                Err(result) => {
                    assert(verdict(before.tools, call@) == Some(result@));
                    emit(
                        events,
                        AgentEvent::ToolResult {
                            name: call.function.name.clone(),
                            result: result.clone(),
                            id: call.id.clone(),
                        },
                    );
                    self.record(Message::tool(result, call.id, call.function.name));
                    self.cursor = self.cursor + 1;
                    proof {
                        assert(self@ == before.settle(result@));
                        let rest = self@.dispatch();
                        assert(before.dispatch() == rest.after(
                            seq![call_event(call@), result_event(call@, result@)],
                        ));
                        assert(events.deep_view() + rest.events =~= emitted
                            + before.dispatch().events);
                    }
                },
            }
        }
        self.begin_turn(events)
    }

    fn finalize(&mut self, events: &mut Vec<AgentEvent>) -> (action: Action)
        ensures
            reached(final(self), final(events), &action) == old(self)@.finalize().after(
                old(events).deep_view(),
            ),
    {
        let ghost before = self@;
        let ghost emitted = events.deep_view();
        let mut reply = StreamAggregator::new();
        core::mem::swap(&mut self.reply, &mut reply);
        let message = reply.finish();
        assert(message@ == before.reply.message());
        emit(events, AgentEvent::StreamEnd);
        emit(events, AgentEvent::NewMessage(message.clone()));
        let calls = match &message.tool_calls {
            Some(calls) => clone_calls(calls),
            None => Vec::new(),
        };
        let ghost listed = message@.tool_calls;
        assert(listed matches Some(found) ==> found == calls.deep_view());
        assert(listed is None ==> calls.len() == 0);
        self.record(message);
        let ghost recorded = self@;
        assert(recorded == (RunView {
            history: before.history.push(before.reply.message()),
            reply: AggregatorView::empty(),
            ..before
        }));
        if calls.len() > 0 {
            self.phase = Phase::Dispatching;
            self.calls = calls;
            self.cursor = 0;
            let ghost entering = self@;
            assert(entering == (RunView {
                phase: Phase::Dispatching,
                calls: listed->0,
                cursor: 0,
                ..recorded
            }));
            let action = self.dispatch(events);
            assert(before.finalize() == entering.dispatch().after(
                seq![
                    EventView::StreamEnd,
                    EventView::NewMessage(before.reply.message()),
                ],
            ));
            assert(events.deep_view() =~= emitted + before.finalize().events);
            action
        } else {
            self.phase = Phase::Terminated;
            emit(events, AgentEvent::Done);
            assert(events.deep_view() =~= emitted + before.finalize().events);
            Action::Stop
        }
    }
}

impl Run {
    fn on_chunk(&mut self, events: &mut Vec<AgentEvent>, chunk: &StreamChunk) -> (action: Action)
        ensures
            reached(final(self), final(events), &action) == old(self)@.on_chunk(chunk@).after(
                old(events).deep_view(),
            ),
    {
        let ghost before = self@;
        let ghost emitted = events.deep_view();
        let finished = self.reply.push(chunk, events);
        let ghost taken = self@;
        assert(taken == (RunView { reply: before.reply.absorb(chunk@), ..before }));
        if finished {
            let action = self.finalize(events);
            assert(events.deep_view() =~= emitted + before.on_chunk(chunk@).events);
            action
        } else {
            Action::ReadChunk
        }
    }

    fn on_tool_finished(&mut self, events: &mut Vec<AgentEvent>, finished: ToolResult) -> (action:
        Action)
        requires
            old(self)@.cursor < old(self)@.calls.len(),
        ensures
            reached(final(self), final(events), &action) == old(self)@.on_tool_finished(
                delivered(finished),
            ).after(old(events).deep_view()),
    {
        let ghost before = self@;
        let ghost emitted = events.deep_view();
        let ghost handed = delivered(finished);
        assert(self.calls.deep_view().len() == self.calls.len());
        let call = self.calls[self.cursor].clone();
        let next = self.cursor + 1;
        assert(call@ == before.calls[before.cursor as int]);
        let result = result_text(finished);
        emit(
            events,
            AgentEvent::ToolResult {
                name: call.function.name.clone(),
                result: result.clone(),
                id: call.id.clone(),
            },
        );
        self.record(Message::tool(result, call.id, call.function.name));
        self.cursor = next;
        assert(self@ == before.settle(result@));
        let action = self.dispatch(events);
        assert(events.deep_view() =~= emitted + before.on_tool_finished(handed).events);
        action
    }

    /// Whether the run may be advanced: it is in a state that a step of a
    /// run ends in.
    pub closed spec fn wf(&self) -> bool {
        self@.wf()
    }

    /// Advances the run by one step: takes what the outside world delivered
    /// and says what to emit and what to do next. The step is exactly the
    /// step of the state machine.
    pub fn advance(&mut self, input: Input) -> (step: Step)
        requires
            old(self).wf(),
        ensures
            final(self).wf(),
            reached(final(self), &step.events, &step.action) == old(self)@.step(input@),
    {
        let ghost before = self@;
        let mut events: Vec<AgentEvent> = Vec::new();
        assert(events.deep_view() =~= Seq::empty());
        let action = match self.phase {
            Phase::Terminated => Action::Stop,
            Phase::RequestIssued => match input {
                Input::Connected => self.on_connected(&mut events),
                Input::ConnectFailed(reason) => self.on_connect_failed(&mut events, reason),
                _ => self.fail(&mut events, "Unexpected input".to_owned()),
            },
            Phase::Streaming => match input {
                Input::Chunk(chunk) => self.on_chunk(&mut events, &chunk),
                Input::ChunkError(reason) => self.fail(
                    &mut events,
                    join("Stream Error: ", reason.as_str()),
                ),
                Input::StreamClosed => self.finalize(&mut events),
                _ => self.fail(&mut events, "Unexpected input".to_owned()),
            },
            Phase::Dispatching => match input {
                Input::ToolFinished(finished) => self.on_tool_finished(&mut events, finished),
                _ => self.fail(&mut events, "Unexpected input".to_owned()),
            },
            Phase::Idle => self.fail(&mut events, "Unexpected input".to_owned()),
        };
        proof {
            assert(events.deep_view() =~= before.step(input@).events);
            lemma_step_keeps_wf(before, input@);
        }
        Step { events, action }
    }
}

/// An agent: where requests go, which tools are on offer, and the limits of
/// a run. `H` is the type of the tool handlers, which the agent never calls.
pub struct Agent<H> {
    client: DeepSeekClient,
    registry: Arc<ToolRegistry<H>>,
    max_steps: u32,
    max_retries: u32,
}

impl<H> Agent<H> {
    /// The connection settings.
    pub closed spec fn client_view(&self) -> DeepSeekClient {
        self.client
    }

    /// The tools on offer.
    pub closed spec fn registry_view(&self) -> ToolRegistry<H> {
        *self.registry
    }

    /// How many turns a run may take.
    pub closed spec fn max_steps(&self) -> nat {
        self.max_steps as nat
    }

    /// How many attempts a request gets.
    pub closed spec fn max_retries(&self) -> nat {
        self.max_retries as nat
    }

    /// An agent with the default limits: 20 turns, 3 attempts per request.
    pub fn new(client: DeepSeekClient, registry: Arc<ToolRegistry<H>>) -> (agent: Self)
        ensures
            agent.client_view() == client,
            agent.registry_view() == *registry,
            agent.max_steps() == DEFAULT_MAX_STEPS,
            agent.max_retries() == DEFAULT_MAX_RETRIES,
    {
        Agent { client, registry, max_steps: DEFAULT_MAX_STEPS, max_retries: DEFAULT_MAX_RETRIES }
    }

    /// The same agent with other limits.
    pub fn with_limits(self, max_steps: u32, max_retries: u32) -> (agent: Self)
        ensures
            agent.client_view() == self.client_view(),
            agent.registry_view() == self.registry_view(),
            agent.max_steps() == max_steps,
            agent.max_retries() == max_retries,
    {
        Agent { client: self.client, registry: self.registry, max_steps, max_retries }
    }

    /// The connection settings.
    pub fn client(&self) -> (client: &DeepSeekClient)
        ensures
            *client == self.client_view(),
    {
        &self.client
    }

    /// The tools on offer.
    pub fn registry(&self) -> (registry: &ToolRegistry<H>)
        ensures
            *registry == self.registry_view(),
    {
        &self.registry
    }

    /// Starts a run on `task`, continuing `history`: seeds the conversation
    /// and begins the first turn. The tools on offer are fixed here for the
    /// whole run.
    pub fn start(&self, task: String, history: Vec<Message>) -> (begun: (Run, Step))
        ensures
            begun.0.wf(),
            reached(&begun.0, &begun.1.events, &begun.1.action) == start(
                deepseek_model(),
                advertised(self.registry_view().functions()),
                self.max_steps(),
                self.max_retries(),
                SYSTEM_PROMPT@,
                task@,
                history.deep_view(),
            ),
    {
        let tools = self.registry.to_api_tools();
        let seeded = prepare_history(task, history);
        let mut run = Run {
            model: "deepseek-chat".to_owned(),
            tools,
            max_steps: self.max_steps,
            max_retries: self.max_retries,
            phase: Phase::Idle,
            history: seeded,
            steps: 0,
            failures: 0,
            reply: StreamAggregator::new(),
            calls: Vec::new(),
            cursor: 0,
        };
        assert(run.calls.deep_view() =~= Seq::empty());
        let mut events: Vec<AgentEvent> = Vec::new();
        assert(events.deep_view() =~= Seq::empty());
        let ghost idle = run@;
        let action = run.begin_turn(&mut events);
        proof {
            assert(events.deep_view() =~= idle.begin_turn().events);
            lemma_begin_turn_keeps_wf(idle);
        }
        (run, Step { events, action })
    }
}

} // verus!
