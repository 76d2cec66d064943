//! The records of the session store.

use crate::api::deepseek::clone_text;
use vstd::prelude::*;

verus! {

/// A chat session. Times are seconds since the epoch.
#[derive(Debug, PartialEq, Eq)]
pub struct Session {
    pub id: String,
    pub title: String,
    pub created_at: i64,
    pub updated_at: i64,
}

/// A message as stored. `tool_calls` is the JSON text of the message's tool
/// calls.
#[derive(Debug, PartialEq, Eq)]
pub struct SessionMessage {
    pub id: i64,
    pub session_id: String,
    pub role: String,
    pub content: Option<String>,
    pub tool_calls: Option<String>,
    pub tool_call_id: Option<String>,
    pub name: Option<String>,
    pub created_at: i64,
}

impl Clone for Session {
    fn clone(&self) -> (copy: Self)
        ensures
            copy.id@ == self.id@,
            copy.title@ == self.title@,
            copy.created_at == self.created_at,
            copy.updated_at == self.updated_at,
    {
        Session {
            id: self.id.clone(),
            title: self.title.clone(),
            created_at: self.created_at,
            updated_at: self.updated_at,
        }
    }
}

impl Clone for SessionMessage {
    fn clone(&self) -> (copy: Self)
        ensures
            copy.id == self.id,
            copy.session_id@ == self.session_id@,
            copy.role@ == self.role@,
            copy.content.deep_view() == self.content.deep_view(),
            copy.tool_calls.deep_view() == self.tool_calls.deep_view(),
            copy.tool_call_id.deep_view() == self.tool_call_id.deep_view(),
            copy.name.deep_view() == self.name.deep_view(),
            copy.created_at == self.created_at,
    {
        SessionMessage {
            id: self.id,
            session_id: self.session_id.clone(),
            role: self.role.clone(),
            content: clone_text(&self.content),
            tool_calls: clone_text(&self.tool_calls),
            tool_call_id: clone_text(&self.tool_call_id),
            name: clone_text(&self.name),
            created_at: self.created_at,
        }
    }
}

} // verus!
