//! Stored messages as the conversation sees them.

use crate::api::deepseek::{Message, MessageView, ToolCall};
use crate::db::SessionMessage;
use vstd::prelude::*;

verus! {

/// The conversation message that a stored message stands for. The content
/// is never absent: a stored message without content has the empty text.
/// `tool_calls` are the tool calls read from the stored JSON text, absent
/// where there was none or it could not be read.
pub open spec fn restored(
    role: Seq<char>,
    content: Option<Seq<char>>,
    tool_calls: Option<Seq<crate::api::deepseek::ToolCallView>>,
    tool_call_id: Option<Seq<char>>,
    name: Option<Seq<char>>,
) -> MessageView {
    MessageView {
        role,
        content: Some(
            match content {
                Some(text) => text,
                None => Seq::empty(),
            },
        ),
        tool_calls,
        tool_call_id,
        name,
    }
}

/// Turns a stored message into a conversation message.
pub fn restore_message(stored: SessionMessage, tool_calls: Option<Vec<ToolCall>>) -> (message:
    Message)
    ensures
        message@ == restored(
            stored.role@,
            stored.content.deep_view(),
            tool_calls.deep_view(),
            stored.tool_call_id.deep_view(),
            stored.name.deep_view(),
        ),
{
    let content = match stored.content {
        Some(text) => text,
        None => String::new(),
    };
    Message {
        role: stored.role,
        content: Some(content),
        tool_calls,
        tool_call_id: stored.tool_call_id,
        name: stored.name,
    }
}

} // verus!
