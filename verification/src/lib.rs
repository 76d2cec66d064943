//! Orchestration core of a tool-using coding assistant: conversation
//! messages, reassembly of streamed replies, the tool registry and the
//! turn-by-turn agent state machine, each with machine-checked contracts.

pub mod agent;
pub mod api;
pub mod commands;
pub mod db;
pub mod json;
pub mod strings;
pub mod text;
pub mod tools;
