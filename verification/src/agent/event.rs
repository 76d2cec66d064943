//! What a run tells its consumer, in the order in which it happens.

use crate::api::deepseek::{Message, MessageView};
use vstd::prelude::*;

verus! {

/// One entry of the event stream of a run.
#[derive(Debug, PartialEq, Eq)]
pub enum AgentEvent {
    /// A progress note: a turn begins, or a request is being retried.
    Thinking(String),
    /// A piece of the assistant's text, forwarded as soon as it arrives.
    StreamChunk(String),
    /// The reply of the current turn is complete.
    StreamEnd,
    /// A tool is about to be called.
    ToolCall { name: String, args: String, id: String },
    /// A tool call has its result.
    ToolResult { name: String, result: String, id: String },
    /// A complete text from the assistant.
    Message(String),
    /// A message was added to the conversation.
    NewMessage(Message),
    /// The run cannot go on.
    Error(String),
    /// The run is over; nothing follows.
    Done,
}

/// Mathematical value of an [`AgentEvent`].
pub ghost enum EventView {
    Thinking(Seq<char>),
    StreamChunk(Seq<char>),
    StreamEnd,
    ToolCall { name: Seq<char>, args: Seq<char>, id: Seq<char> },
    ToolResult { name: Seq<char>, result: Seq<char>, id: Seq<char> },
    Message(Seq<char>),
    NewMessage(MessageView),
    Error(Seq<char>),
    Done,
}

impl View for AgentEvent {
    type V = EventView;

    open spec fn view(&self) -> EventView {
        match self {
            AgentEvent::Thinking(text) => EventView::Thinking(text@),
            AgentEvent::StreamChunk(text) => EventView::StreamChunk(text@),
            AgentEvent::StreamEnd => EventView::StreamEnd,
            AgentEvent::ToolCall { name, args, id } => EventView::ToolCall {
                name: name@,
                args: args@,
                id: id@,
            },
            AgentEvent::ToolResult { name, result, id } => EventView::ToolResult {
                name: name@,
                result: result@,
                id: id@,
            },
            AgentEvent::Message(text) => EventView::Message(text@),
            AgentEvent::NewMessage(message) => EventView::NewMessage(message@),
            AgentEvent::Error(text) => EventView::Error(text@),
            AgentEvent::Done => EventView::Done,
        }
    }
}

impl DeepView for AgentEvent {
    type V = EventView;

    open spec fn deep_view(&self) -> EventView {
        self@
    }
}

impl Clone for AgentEvent {
    fn clone(&self) -> (copy: Self)
        ensures
            copy@ == self@,
    {
        match self {
            AgentEvent::Thinking(text) => AgentEvent::Thinking(text.clone()),
            AgentEvent::StreamChunk(text) => AgentEvent::StreamChunk(text.clone()),
            AgentEvent::StreamEnd => AgentEvent::StreamEnd,
            AgentEvent::ToolCall { name, args, id } => AgentEvent::ToolCall {
                name: name.clone(),
                args: args.clone(),
                id: id.clone(),
            },
            AgentEvent::ToolResult { name, result, id } => AgentEvent::ToolResult {
                name: name.clone(),
                result: result.clone(),
                id: id.clone(),
            },
            AgentEvent::Message(text) => AgentEvent::Message(text.clone()),
            AgentEvent::NewMessage(message) => AgentEvent::NewMessage(message.clone()),
            AgentEvent::Error(text) => AgentEvent::Error(text.clone()),
            AgentEvent::Done => AgentEvent::Done,
        }
    }
}

/// Appends `event` to the events emitted so far.
pub fn emit(events: &mut Vec<AgentEvent>, event: AgentEvent)
    ensures
        final(events).deep_view() == old(events).deep_view().push(event@),
{
    events.push(event);
    assert(events.deep_view() =~= old(events).deep_view().push(event@));
}

/// How often `Done` occurs among `events`.
pub open spec fn done_count(events: Seq<EventView>) -> nat
    decreases events.len(),
{
    if events.len() == 0 {
        0
    } else {
        done_count(events.drop_last()) + if events.last() is Done {
            1nat
        } else {
            0nat
        }
    }
}

} // verus!
