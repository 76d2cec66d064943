//! Chat messages, tool calls and the request and response shapes of the
//! provider's chat-completion API, with the mathematical value of each.

use crate::text::{join, same_text};
use serde_json::Value;
use vstd::prelude::*;

verus! {

/// The function half of a tool call: which tool, and its arguments as JSON text.
#[derive(Debug, PartialEq, Eq)]
pub struct FunctionCall {
    pub name: String,
    pub arguments: String,
}

/// Mathematical value of a [`FunctionCall`].
pub ghost struct FunctionCallView {
    pub name: Seq<char>,
    pub arguments: Seq<char>,
}

impl View for FunctionCall {
    type V = FunctionCallView;

    open spec fn view(&self) -> FunctionCallView {
        FunctionCallView { name: self.name@, arguments: self.arguments@ }
    }
}

impl DeepView for FunctionCall {
    type V = FunctionCallView;

    open spec fn deep_view(&self) -> FunctionCallView {
        self@
    }
}

impl Clone for FunctionCall {
    fn clone(&self) -> (copy: Self)
        ensures
            copy@ == self@,
    {
        FunctionCall { name: self.name.clone(), arguments: self.arguments.clone() }
    }
}

/// A tool invocation requested by the model. `kind` is the wire field `type`
/// and is always `"function"` for calls the library assembles.
#[derive(Debug, PartialEq, Eq)]
pub struct ToolCall {
    pub id: String,
    pub kind: String,
    pub function: FunctionCall,
}

/// Mathematical value of a [`ToolCall`].
pub ghost struct ToolCallView {
    pub id: Seq<char>,
    pub kind: Seq<char>,
    pub function: FunctionCallView,
}

impl View for ToolCall {
    type V = ToolCallView;

    open spec fn view(&self) -> ToolCallView {
        ToolCallView { id: self.id@, kind: self.kind@, function: self.function@ }
    }
}

impl DeepView for ToolCall {
    type V = ToolCallView;

    open spec fn deep_view(&self) -> ToolCallView {
        self@
    }
}

impl Clone for ToolCall {
    fn clone(&self) -> (copy: Self)
        ensures
            copy@ == self@,
    {
        ToolCall { id: self.id.clone(), kind: self.kind.clone(), function: self.function.clone() }
    }
}

/// One entry of a conversation.
///
/// `role` is one of `"system"`, `"user"`, `"assistant"` and `"tool"`;
/// `tool_call_id` and `name` are set only on tool messages.
#[derive(Debug, PartialEq, Eq)]
pub struct Message {
    pub role: String,
    pub content: Option<String>,
    pub tool_calls: Option<Vec<ToolCall>>,
    pub tool_call_id: Option<String>,
    pub name: Option<String>,
}

/// Mathematical value of a [`Message`].
pub ghost struct MessageView {
    pub role: Seq<char>,
    pub content: Option<Seq<char>>,
    pub tool_calls: Option<Seq<ToolCallView>>,
    pub tool_call_id: Option<Seq<char>>,
    pub name: Option<Seq<char>>,
}

impl View for Message {
    type V = MessageView;

    open spec fn view(&self) -> MessageView {
        MessageView {
            role: self.role@,
            content: self.content.deep_view(),
            tool_calls: self.tool_calls.deep_view(),
            tool_call_id: self.tool_call_id.deep_view(),
            name: self.name.deep_view(),
        }
    }
}

impl DeepView for Message {
    type V = MessageView;

    open spec fn deep_view(&self) -> MessageView {
        self@
    }
}

impl MessageView {
    /// A message that carries only a role and a text.
    pub open spec fn plain(role: Seq<char>, content: Seq<char>) -> MessageView {
        MessageView {
            role,
            content: Some(content),
            tool_calls: None,
            tool_call_id: None,
            name: None,
        }
    }

    /// The system message that opens a conversation.
    pub open spec fn system(content: Seq<char>) -> MessageView {
        MessageView::plain("system"@, content)
    }

    /// A message written by the user.
    pub open spec fn user(content: Seq<char>) -> MessageView {
        MessageView::plain("user"@, content)
    }

    /// The assistant's reply of one turn: its text, and its tool calls if it made any.
    pub open spec fn assistant(
        content: Seq<char>,
        tool_calls: Option<Seq<ToolCallView>>,
    ) -> MessageView {
        MessageView {
            role: "assistant"@,
            content: Some(content),
            tool_calls,
            tool_call_id: None,
            name: None,
        }
    }

    /// The result of the tool call `id` to the tool `name`.
    pub open spec fn tool(content: Seq<char>, id: Seq<char>, name: Seq<char>) -> MessageView {
        MessageView {
            role: "tool"@,
            content: Some(content),
            tool_calls: None,
            tool_call_id: Some(id),
            name: Some(name),
        }
    }

    /// The message as it goes on the wire: an absent content becomes the empty text.
    pub open spec fn on_wire(self) -> MessageView {
        MessageView {
            content: Some(
                match self.content {
                    Some(text) => text,
                    None => Seq::empty(),
                },
            ),
            ..self
        }
    }
}

/// Copies an optional text.
pub fn clone_text(text: &Option<String>) -> (copy: Option<String>)
    ensures
        copy.deep_view() == text.deep_view(),
{
    match text {
        Some(t) => Some(t.clone()),
        None => None,
    }
}

/// Copies a list of tool calls.
pub fn clone_calls(calls: &Vec<ToolCall>) -> (copy: Vec<ToolCall>)
    ensures
        copy.deep_view() == calls.deep_view(),
{
    let copy = calls.clone();
    assert(copy.deep_view() =~= calls.deep_view());
    copy
}

impl Clone for Message {
    fn clone(&self) -> (copy: Self)
        ensures
            copy@ == self@,
    {
        let tool_calls = match &self.tool_calls {
            Some(calls) => Some(clone_calls(calls)),
            None => None,
        };
        Message {
            role: self.role.clone(),
            content: clone_text(&self.content),
            tool_calls,
            tool_call_id: clone_text(&self.tool_call_id),
            name: clone_text(&self.name),
        }
    }
}

impl Message {
    /// The system message that opens a conversation.
    pub fn system(content: String) -> (message: Message)
        ensures
            message@ == MessageView::system(content@),
    {
        Message {
            role: "system".to_owned(),
            content: Some(content),
            tool_calls: None,
            tool_call_id: None,
            name: None,
        }
    }

    /// A message written by the user.
    pub fn user(content: String) -> (message: Message)
        ensures
            message@ == MessageView::user(content@),
    {
        Message {
            role: "user".to_owned(),
            content: Some(content),
            tool_calls: None,
            tool_call_id: None,
            name: None,
        }
    }

    /// The assistant's reply of one turn. The content is always present, as
    /// an empty text where the turn produced tool calls only.
    pub fn assistant(content: String, tool_calls: Option<Vec<ToolCall>>) -> (message: Message)
        ensures
            message@ == MessageView::assistant(content@, tool_calls.deep_view()),
    {
        Message {
            role: "assistant".to_owned(),
            content: Some(content),
            tool_calls,
            tool_call_id: None,
            name: None,
        }
    }

    /// The result of the tool call `id` to the tool `name`.
    pub fn tool(content: String, id: String, name: String) -> (message: Message)
        ensures
            message@ == MessageView::tool(content@, id@, name@),
    {
        Message {
            role: "tool".to_owned(),
            content: Some(content),
            tool_calls: None,
            tool_call_id: Some(id),
            name: Some(name),
        }
    }

    /// Whether the message has the given role.
    pub fn has_role(&self, role: &str) -> (yes: bool)
        ensures
            yes == (self@.role == role@),
    {
        same_text(self.role.as_str(), role)
    }

    /// The message as it goes on the wire: the content is never absent there,
    /// an absent one is sent as the empty text.
    pub fn on_wire(&self) -> (sent: Message)
        ensures
            sent@ == self@.on_wire(),
    {
        let content = match &self.content {
            Some(text) => text.clone(),
            None => String::new(),
        };
        let tool_calls = match &self.tool_calls {
            Some(calls) => Some(clone_calls(calls)),
            None => None,
        };
        Message {
            role: self.role.clone(),
            content: Some(content),
            tool_calls,
            tool_call_id: clone_text(&self.tool_call_id),
            name: clone_text(&self.name),
        }
    }
}

/// What a tool is advertised as: its name, what it does, and the JSON schema
/// of its arguments.
#[derive(Debug, PartialEq, Eq)]
pub struct ToolFunction {
    pub name: String,
    pub description: String,
    pub parameters: Value,
}

/// Mathematical value of a [`ToolFunction`]. The schema is carried as it is.
pub ghost struct ToolFunctionView {
    pub name: Seq<char>,
    pub description: Seq<char>,
    pub parameters: Value,
}

impl View for ToolFunction {
    type V = ToolFunctionView;

    open spec fn view(&self) -> ToolFunctionView {
        ToolFunctionView {
            name: self.name@,
            description: self.description@,
            parameters: self.parameters,
        }
    }
}

impl DeepView for ToolFunction {
    type V = ToolFunctionView;

    open spec fn deep_view(&self) -> ToolFunctionView {
        self@
    }
}

impl Clone for ToolFunction {
    fn clone(&self) -> (copy: Self)
        ensures
            copy@ == self@,
    {
        ToolFunction {
            name: self.name.clone(),
            description: self.description.clone(),
            parameters: self.parameters.clone(),
        }
    }
}

/// A tool as the request advertises it. `kind` is the wire field `type`.
#[derive(Debug, PartialEq, Eq)]
pub struct Tool {
    pub kind: String,
    pub function: ToolFunction,
}

/// Mathematical value of a [`Tool`].
pub ghost struct ToolView {
    pub kind: Seq<char>,
    pub function: ToolFunctionView,
}

impl ToolView {
    /// The advertisement of `function` as a callable function.
    pub open spec fn of(function: ToolFunctionView) -> ToolView {
        ToolView { kind: "function"@, function }
    }
}

impl View for Tool {
    type V = ToolView;

    open spec fn view(&self) -> ToolView {
        ToolView { kind: self.kind@, function: self.function@ }
    }
}

impl DeepView for Tool {
    type V = ToolView;

    open spec fn deep_view(&self) -> ToolView {
        self@
    }
}

impl Clone for Tool {
    fn clone(&self) -> (copy: Self)
        ensures
            copy@ == self@,
    {
        Tool { kind: self.kind.clone(), function: self.function.clone() }
    }
}

/// Copies a list of advertised tools.
pub fn clone_tools(tools: &Vec<Tool>) -> (copy: Vec<Tool>)
    ensures
        copy.deep_view() == tools.deep_view(),
{
    let copy = tools.clone();
    assert(copy.deep_view() =~= tools.deep_view());
    copy
}

/// Body of a chat-completion request. `tools` is left out of the request
/// altogether when it is `None`.
#[derive(Debug, PartialEq, Eq)]
pub struct ChatRequest {
    pub model: String,
    pub messages: Vec<Message>,
    pub tools: Option<Vec<Tool>>,
    pub stream: bool,
}

/// Mathematical value of a [`ChatRequest`].
pub ghost struct ChatRequestView {
    pub model: Seq<char>,
    pub messages: Seq<MessageView>,
    pub tools: Option<Seq<ToolView>>,
    pub stream: bool,
}

impl View for ChatRequest {
    type V = ChatRequestView;

    open spec fn view(&self) -> ChatRequestView {
        ChatRequestView {
            model: self.model@,
            messages: self.messages.deep_view(),
            tools: self.tools.deep_view(),
            stream: self.stream,
        }
    }
}

impl DeepView for ChatRequest {
    type V = ChatRequestView;

    open spec fn deep_view(&self) -> ChatRequestView {
        self@
    }
}

/// A conversation as it goes on the wire: every message with its content present.
pub open spec fn wire_messages(history: Seq<MessageView>) -> Seq<MessageView> {
    Seq::new(history.len(), |i: int| history[i].on_wire())
}

/// The tools field of a request: absent when no tool is offered, so that the
/// provider can tell "no tools" from "an empty list of tools".
pub open spec fn offered_tools(tools: Seq<ToolView>) -> Option<Seq<ToolView>> {
    if tools.len() == 0 {
        None
    } else {
        Some(tools)
    }
}

impl ChatRequestView {
    /// The request that carries `history` to `model` and offers `tools`.
    pub open spec fn build(
        model: Seq<char>,
        history: Seq<MessageView>,
        tools: Seq<ToolView>,
        stream: bool,
    ) -> ChatRequestView {
        ChatRequestView {
            model,
            messages: wire_messages(history),
            tools: offered_tools(tools),
            stream,
        }
    }
}

impl ChatRequest {
    /// Builds the request that carries `history` to `model` and offers `tools`.
    pub fn build(model: &str, history: &Vec<Message>, tools: &Vec<Tool>, stream: bool) -> (request:
        ChatRequest)
        ensures
            request@ == ChatRequestView::build(
                model@,
                history.deep_view(),
                tools.deep_view(),
                stream,
            ),
    {
        let mut messages: Vec<Message> = Vec::new();
        let mut i: usize = 0;
        while i < history.len()
            invariant
                i <= history.len(),
                messages.len() == i,
                forall|k: int| 0 <= k < i ==> (#[trigger] messages[k])@ == history[k]@.on_wire(),
            decreases history.len() - i,
        {
            messages.push(history[i].on_wire());
            i += 1;
        }
        assert(messages.deep_view() =~= wire_messages(history.deep_view()));
        let offered = if tools.len() == 0 {
            None
        } else {
            Some(clone_tools(tools))
        };
        ChatRequest { model: model.to_owned(), messages, tools: offered, stream }
    }
}

/// One alternative of a complete (non-streamed) reply.
#[derive(Debug, PartialEq, Eq)]
pub struct Choice {
    pub index: i32,
    pub message: Message,
    pub finish_reason: Option<String>,
}

/// Mathematical value of a [`Choice`].
pub ghost struct ChoiceView {
    pub index: int,
    pub message: MessageView,
    pub finish_reason: Option<Seq<char>>,
}

impl View for Choice {
    type V = ChoiceView;

    open spec fn view(&self) -> ChoiceView {
        ChoiceView {
            index: self.index as int,
            message: self.message@,
            finish_reason: self.finish_reason.deep_view(),
        }
    }
}

impl DeepView for Choice {
    type V = ChoiceView;

    open spec fn deep_view(&self) -> ChoiceView {
        self@
    }
}

/// A complete (non-streamed) reply.
#[derive(Debug, PartialEq, Eq)]
pub struct ChatResponse {
    pub id: String,
    pub choices: Vec<Choice>,
}

/// Mathematical value of a [`ChatResponse`].
pub ghost struct ChatResponseView {
    pub id: Seq<char>,
    pub choices: Seq<ChoiceView>,
}

impl View for ChatResponse {
    type V = ChatResponseView;

    open spec fn view(&self) -> ChatResponseView {
        ChatResponseView { id: self.id@, choices: self.choices.deep_view() }
    }
}

impl ChatResponse {
    /// The reply proper: the message of the first choice, if there is a choice.
    pub fn first_message(&self) -> (message: Option<&Message>)
        ensures
            message.deep_view() == if self@.choices.len() > 0 {
                Some(self@.choices[0].message)
            } else {
                None
            },
    {
        if self.choices.len() > 0 {
            Some(&self.choices[0].message)
        } else {
            None
        }
    }
}

/// The function half of a streamed tool-call fragment; either part may be missing.
#[derive(Debug, PartialEq, Eq)]
pub struct StreamFunctionCall {
    pub name: Option<String>,
    pub arguments: Option<String>,
}

/// Mathematical value of a [`StreamFunctionCall`].
pub ghost struct StreamFunctionCallView {
    pub name: Option<Seq<char>>,
    pub arguments: Option<Seq<char>>,
}

impl View for StreamFunctionCall {
    type V = StreamFunctionCallView;

    open spec fn view(&self) -> StreamFunctionCallView {
        StreamFunctionCallView {
            name: self.name.deep_view(),
            arguments: self.arguments.deep_view(),
        }
    }
}

impl DeepView for StreamFunctionCall {
    type V = StreamFunctionCallView;

    open spec fn deep_view(&self) -> StreamFunctionCallView {
        self@
    }
}

/// A fragment of a tool call as one chunk of a streamed reply carries it.
/// `index` says which of the turn's tool calls the fragment belongs to.
#[derive(Debug, PartialEq, Eq)]
pub struct StreamToolCall {
    pub index: i32,
    pub id: Option<String>,
    pub function: Option<StreamFunctionCall>,
}

/// Mathematical value of a [`StreamToolCall`].
pub ghost struct StreamToolCallView {
    pub index: int,
    pub id: Option<Seq<char>>,
    pub function: Option<StreamFunctionCallView>,
}

impl StreamToolCallView {
    /// The tool name the fragment supplies, if any.
    pub open spec fn name(self) -> Option<Seq<char>> {
        match self.function {
            Some(function) => function.name,
            None => None,
        }
    }

    /// The piece of argument text the fragment supplies, if any.
    pub open spec fn arguments(self) -> Option<Seq<char>> {
        match self.function {
            Some(function) => function.arguments,
            None => None,
        }
    }
}

impl View for StreamToolCall {
    type V = StreamToolCallView;

    open spec fn view(&self) -> StreamToolCallView {
        StreamToolCallView {
            index: self.index as int,
            id: self.id.deep_view(),
            function: self.function.deep_view(),
        }
    }
}

impl DeepView for StreamToolCall {
    type V = StreamToolCallView;

    open spec fn deep_view(&self) -> StreamToolCallView {
        self@
    }
}

/// What one chunk adds to the reply under construction.
#[derive(Debug, PartialEq, Eq)]
pub struct StreamDelta {
    pub role: Option<String>,
    pub content: Option<String>,
    pub tool_calls: Option<Vec<StreamToolCall>>,
}

/// Mathematical value of a [`StreamDelta`].
pub ghost struct StreamDeltaView {
    pub role: Option<Seq<char>>,
    pub content: Option<Seq<char>>,
    pub tool_calls: Option<Seq<StreamToolCallView>>,
}

impl View for StreamDelta {
    type V = StreamDeltaView;

    open spec fn view(&self) -> StreamDeltaView {
        StreamDeltaView {
            role: self.role.deep_view(),
            content: self.content.deep_view(),
            tool_calls: self.tool_calls.deep_view(),
        }
    }
}

impl DeepView for StreamDelta {
    type V = StreamDeltaView;

    open spec fn deep_view(&self) -> StreamDeltaView {
        self@
    }
}

/// One alternative within a chunk. A present `finish_reason` marks the last
/// chunk of the turn.
#[derive(Debug, PartialEq, Eq)]
pub struct StreamChoice {
    pub index: i32,
    pub delta: StreamDelta,
    pub finish_reason: Option<String>,
}

/// Mathematical value of a [`StreamChoice`].
pub ghost struct StreamChoiceView {
    pub index: int,
    pub delta: StreamDeltaView,
    pub finish_reason: Option<Seq<char>>,
}

impl View for StreamChoice {
    type V = StreamChoiceView;

    open spec fn view(&self) -> StreamChoiceView {
        StreamChoiceView {
            index: self.index as int,
            delta: self.delta@,
            finish_reason: self.finish_reason.deep_view(),
        }
    }
}

impl DeepView for StreamChoice {
    type V = StreamChoiceView;

    open spec fn deep_view(&self) -> StreamChoiceView {
        self@
    }
}

/// One chunk of a streamed reply.
#[derive(Debug, PartialEq, Eq)]
pub struct StreamChunk {
    pub id: String,
    pub choices: Vec<StreamChoice>,
}

/// Mathematical value of a [`StreamChunk`].
pub ghost struct StreamChunkView {
    pub id: Seq<char>,
    pub choices: Seq<StreamChoiceView>,
}

impl View for StreamChunk {
    type V = StreamChunkView;

    open spec fn view(&self) -> StreamChunkView {
        StreamChunkView { id: self.id@, choices: self.choices.deep_view() }
    }
}

impl DeepView for StreamChunk {
    type V = StreamChunkView;

    open spec fn deep_view(&self) -> StreamChunkView {
        self@
    }
}

/// Where the DeepSeek API lives.
pub open spec fn deepseek_base_url() -> Seq<char> {
    "https://api.deepseek.com/v1"@
}

/// The model the DeepSeek client talks to.
pub open spec fn deepseek_model() -> Seq<char> {
    "deepseek-chat"@
}

/// Path of the chat-completion endpoint below a provider's base address.
pub open spec fn completions_path() -> Seq<char> {
    "/chat/completions"@
}

/// The value of the authorization header for the bearer token `api_key`.
pub open spec fn bearer(api_key: Seq<char>) -> Seq<char> {
    "Bearer "@ + api_key
}

/// Connection settings of the DeepSeek API: what a transport needs to know
/// to send a chat-completion request there.
#[derive(Debug, PartialEq, Eq)]
pub struct DeepSeekClient {
    api_key: String,
}

impl Clone for DeepSeekClient {
    fn clone(&self) -> (copy: Self)
        ensures
            copy.key() == self.key(),
    {
        DeepSeekClient { api_key: self.api_key.clone() }
    }
}

impl DeepSeekClient {
    /// The bearer token the client authenticates with.
    pub closed spec fn key(&self) -> Seq<char> {
        self.api_key@
    }

    pub fn new(api_key: String) -> (client: Self)
        ensures
            client.key() == api_key@,
    {
        Self { api_key }
    }

    /// Address that chat-completion requests are posted to.
    pub fn endpoint(&self) -> (url: String)
        ensures
            url@ == deepseek_base_url() + completions_path(),
    {
        join("https://api.deepseek.com/v1", "/chat/completions")
    }

    /// Value of the authorization header.
    pub fn authorization(&self) -> (header: String)
        ensures
            header@ == bearer(self.key()),
    {
        join("Bearer ", self.api_key.as_str())
    }

    /// Body of the request that carries `history` and offers `tools`.
    pub fn request(&self, history: &Vec<Message>, tools: &Vec<Tool>, stream: bool) -> (request:
        ChatRequest)
        ensures
            request@ == ChatRequestView::build(
                deepseek_model(),
                history.deep_view(),
                tools.deep_view(),
                stream,
            ),
    {
        ChatRequest::build("deepseek-chat", history, tools, stream)
    }
}

} // verus!
