use codemaster::agent::event::AgentEvent;
use codemaster::agent::machine::Phase;
use codemaster::agent::registry::ToolRegistry;
use codemaster::agent::run::{Action, Agent, Input, Run, Step, SYSTEM_PROMPT};
use codemaster::api::deepseek::{
    DeepSeekClient, Message, StreamChoice, StreamChunk, StreamDelta, StreamFunctionCall,
    StreamToolCall, ToolFunction,
};
use std::sync::Arc;

fn schema() -> serde_json::Value {
    serde_json::from_str("{\"type\":\"object\"}").unwrap()
}

fn registry_with(names: &[&str]) -> Arc<ToolRegistry<u32>> {
    let mut registry = ToolRegistry::new();
    for (i, name) in names.iter().enumerate() {
        registry.register(
            ToolFunction {
                name: name.to_string(),
                description: format!("tool {}", name),
                parameters: schema(),
            },
            i as u32,
        );
    }
    Arc::new(registry)
}

fn agent(names: &[&str], max_steps: u32, max_retries: u32) -> Agent<u32> {
    Agent::new(DeepSeekClient::new("key".to_string()), registry_with(names))
        .with_limits(max_steps, max_retries)
}

fn user(text: &str) -> Message {
    Message {
        role: "user".to_string(),
        content: Some(text.to_string()),
        tool_calls: None,
        tool_call_id: None,
        name: None,
    }
}

fn text_chunk(text: &str, finish: bool) -> StreamChunk {
    StreamChunk {
        id: "c".to_string(),
        choices: vec![StreamChoice {
            index: 0,
            delta: StreamDelta { role: None, content: Some(text.to_string()), tool_calls: None },
            finish_reason: if finish { Some("stop".to_string()) } else { None },
        }],
    }
}

fn piece(index: i32, id: Option<&str>, name: Option<&str>, arguments: Option<&str>) -> StreamToolCall {
    StreamToolCall {
        index,
        id: id.map(|s| s.to_string()),
        function: Some(StreamFunctionCall {
            name: name.map(|s| s.to_string()),
            arguments: arguments.map(|s| s.to_string()),
        }),
    }
}

fn tool_chunk(pieces: Vec<StreamToolCall>, finish: bool) -> StreamChunk {
    StreamChunk {
        id: "c".to_string(),
        choices: vec![StreamChoice {
            index: 0,
            delta: StreamDelta { role: None, content: None, tool_calls: Some(pieces) },
            finish_reason: if finish { Some("tool_calls".to_string()) } else { None },
        }],
    }
}

fn count_done(events: &[AgentEvent]) -> usize {
    events.iter().filter(|e| matches!(e, AgentEvent::Done)).count()
}

fn count_errors(events: &[AgentEvent]) -> usize {
    events.iter().filter(|e| matches!(e, AgentEvent::Error(_))).count()
}

/// Feeds `input` to the run and collects what the step emitted.
fn feed(run: &mut Run, log: &mut Vec<AgentEvent>, input: Input) -> Action {
    let Step { events, action } = run.advance(input);
    log.extend(events);
    action
}

#[test]
fn system_message_is_inserted_when_missing() {
    let (run, step) = agent(&[], 20, 3).start("do it".to_string(), vec![user("hello")]);
    let history = run.history();
    assert_eq!(history.len(), 2);
    assert_eq!(history[0].role, "system");
    assert_eq!(history[0].content.as_deref(), Some(SYSTEM_PROMPT));
    assert_eq!(history[1], user("hello"));
    assert_eq!(step.events, vec![AgentEvent::Thinking("Thinking...".to_string())]);
}

#[test]
fn existing_system_message_is_kept_alone() {
    let own = Message {
        role: "system".to_string(),
        content: Some("be brief".to_string()),
        tool_calls: None,
        tool_call_id: None,
        name: None,
    };
    let (run, _) = agent(&[], 20, 3).start("task".to_string(), vec![own.clone(), user("hi")]);
    let history = run.history();
    assert_eq!(history.len(), 2);
    assert_eq!(history[0], own);
    assert_eq!(history.iter().filter(|m| m.role == "system").count(), 1);
}

#[test]
fn task_is_appended_when_last_is_not_user() {
    let assistant = Message {
        role: "assistant".to_string(),
        content: Some("done".to_string()),
        tool_calls: None,
        tool_call_id: None,
        name: None,
    };
    let (run, _) = agent(&[], 20, 3).start("next".to_string(), vec![user("hi"), assistant.clone()]);
    let history = run.history();
    assert_eq!(history.len(), 4);
    assert_eq!(history[2], assistant);
    assert_eq!(history[3], user("next"));
}

#[test]
fn task_is_not_duplicated_when_last_is_user() {
    let (run, _) = agent(&[], 20, 3).start("hi".to_string(), vec![user("hi")]);
    let history = run.history();
    assert_eq!(history.len(), 2);
    assert_eq!(history[1], user("hi"));
}

#[test]
fn empty_history_gets_system_and_task() {
    let (run, _) = agent(&[], 20, 3).start("go".to_string(), vec![]);
    let history = run.history();
    assert_eq!(history.len(), 2);
    assert_eq!(history[0].role, "system");
    assert_eq!(history[1], user("go"));
}

#[test]
fn first_request_carries_history_and_omits_tools_when_none() {
    let (_, step) = agent(&[], 20, 3).start("go".to_string(), vec![]);
    match step.action {
        Action::Request { delay_ms, request } => {
            assert_eq!(delay_ms, 0);
            assert_eq!(request.model, "deepseek-chat");
            assert!(request.stream);
            assert_eq!(request.messages.len(), 2);
            assert_eq!(request.tools, None);
        }
        other => panic!("unexpected action {:?}", other),
    }
}

#[test]
fn first_request_offers_registered_tools() {
    let (_, step) = agent(&["read_file", "grep"], 20, 3).start("go".to_string(), vec![]);
    match step.action {
        Action::Request { request, .. } => {
            let tools = request.tools.unwrap();
            assert_eq!(tools.len(), 2);
            assert_eq!(tools[0].kind, "function");
            assert_eq!(tools[0].function.name, "read_file");
            assert_eq!(tools[0].function.parameters, schema());
            assert_eq!(tools[1].function.name, "grep");
        }
        other => panic!("unexpected action {:?}", other),
    }
}

#[test]
fn plain_reply_completes_the_run() {
    let (mut run, step) = agent(&[], 20, 3).start("go".to_string(), vec![]);
    let mut log = step.events;
    assert_eq!(feed(&mut run, &mut log, Input::Connected), Action::ReadChunk);
    assert_eq!(run.phase(), Phase::Streaming);
    assert_eq!(feed(&mut run, &mut log, Input::Chunk(text_chunk("Hel", false))), Action::ReadChunk);
    assert_eq!(feed(&mut run, &mut log, Input::Chunk(text_chunk("lo", false))), Action::ReadChunk);
    assert_eq!(feed(&mut run, &mut log, Input::StreamClosed), Action::Stop);
    let reply = Message {
        role: "assistant".to_string(),
        content: Some("Hello".to_string()),
        tool_calls: None,
        tool_call_id: None,
        name: None,
    };
    assert_eq!(
        log,
        vec![
            AgentEvent::Thinking("Thinking...".to_string()),
            AgentEvent::StreamChunk("Hel".to_string()),
            AgentEvent::StreamChunk("lo".to_string()),
            AgentEvent::StreamEnd,
            AgentEvent::NewMessage(reply.clone()),
            AgentEvent::Done,
        ]
    );
    assert!(run.is_terminated());
    assert_eq!(run.steps(), 1);
    assert_eq!(run.history().last(), Some(&reply));
}

#[test]
fn finish_marker_ends_the_turn_without_reading_on() {
    let (mut run, step) = agent(&[], 20, 3).start("go".to_string(), vec![]);
    let mut log = step.events;
    feed(&mut run, &mut log, Input::Connected);
    let action = feed(&mut run, &mut log, Input::Chunk(text_chunk("bye", true)));
    assert_eq!(action, Action::Stop);
    assert_eq!(log.last(), Some(&AgentEvent::Done));
    assert_eq!(count_done(&log), 1);
}

#[test]
fn nothing_is_emitted_after_done() {
    let (mut run, step) = agent(&[], 20, 3).start("go".to_string(), vec![]);
    let mut log = step.events;
    feed(&mut run, &mut log, Input::Connected);
    feed(&mut run, &mut log, Input::StreamClosed);
    let before = log.len();
    assert_eq!(feed(&mut run, &mut log, Input::Connected), Action::Stop);
    assert_eq!(feed(&mut run, &mut log, Input::Chunk(text_chunk("x", false))), Action::Stop);
    assert_eq!(feed(&mut run, &mut log, Input::ToolFinished(Ok("x".to_string()))), Action::Stop);
    assert_eq!(log.len(), before);
    assert_eq!(count_done(&log), 1);
}

#[test]
fn empty_reply_still_has_content() {
    let (mut run, step) = agent(&[], 20, 3).start("go".to_string(), vec![]);
    let mut log = step.events;
    feed(&mut run, &mut log, Input::Connected);
    feed(&mut run, &mut log, Input::StreamClosed);
    let last = run.history().last().unwrap();
    assert_eq!(last.role, "assistant");
    assert_eq!(last.content.as_deref(), Some(""));
    assert_eq!(last.tool_calls, None);
}

#[test]
fn unregistered_tool_is_reported_and_the_run_goes_on() {
    let (mut run, step) = agent(&["bash"], 20, 3).start("go".to_string(), vec![]);
    let mut log = step.events;
    feed(&mut run, &mut log, Input::Connected);
    let action = feed(
        &mut run,
        &mut log,
        Input::Chunk(tool_chunk(vec![piece(0, Some("call_1"), Some("foo"), Some("{}"))], true)),
    );
    // The failure is the tool's result, and another request is issued.
    match action {
        Action::Request { delay_ms, request } => {
            assert_eq!(delay_ms, 0);
            let last = request.messages.last().unwrap();
            assert_eq!(last.role, "tool");
            assert_eq!(last.content.as_deref(), Some("Error: Tool not found: foo"));
        }
        other => panic!("unexpected action {:?}", other),
    }
    let tool_message = run.history().last().unwrap();
    assert_eq!(tool_message.role, "tool");
    assert_eq!(tool_message.content.as_deref(), Some("Error: Tool not found: foo"));
    assert_eq!(tool_message.tool_call_id.as_deref(), Some("call_1"));
    assert_eq!(tool_message.name.as_deref(), Some("foo"));
    assert_eq!(run.phase(), Phase::RequestIssued);
    assert_eq!(run.steps(), 2);
    assert_eq!(count_done(&log), 0);
    assert_eq!(
        &log[log.len() - 3..],
        &[
            AgentEvent::ToolCall {
                name: "foo".to_string(),
                args: "{}".to_string(),
                id: "call_1".to_string()
            },
            AgentEvent::ToolResult {
                name: "foo".to_string(),
                result: "Error: Tool not found: foo".to_string(),
                id: "call_1".to_string()
            },
            AgentEvent::Thinking("Thinking...".to_string()),
        ]
    );
}

#[test]
fn malformed_arguments_become_the_result() {
    let (mut run, step) = agent(&["bash"], 20, 3).start("go".to_string(), vec![]);
    let mut log = step.events;
    feed(&mut run, &mut log, Input::Connected);
    let action = feed(
        &mut run,
        &mut log,
        Input::Chunk(tool_chunk(vec![piece(0, Some("c1"), Some("bash"), Some("{bad"))], true)),
    );
    assert!(matches!(action, Action::Request { .. }));
    let expected = format!(
        "Error: Invalid JSON args: {}",
        serde_json::from_str::<serde_json::Value>("{bad").unwrap_err()
    );
    assert_eq!(expected, "Error: Invalid JSON args: key must be a string at line 1 column 2");
    assert_eq!(run.history().last().unwrap().content.as_deref(), Some(expected.as_str()));
}

#[test]
fn malformed_arguments_are_reported_before_an_unknown_name() {
    let (mut run, step) = agent(&[], 20, 3).start("go".to_string(), vec![]);
    let mut log = step.events;
    feed(&mut run, &mut log, Input::Connected);
    feed(
        &mut run,
        &mut log,
        Input::Chunk(tool_chunk(vec![piece(0, Some("c1"), Some("nope"), Some("]"))], true)),
    );
    let content = run.history().last().unwrap().content.clone().unwrap();
    assert!(content.starts_with("Error: Invalid JSON args: "));
}

#[test]
fn registered_tool_is_invoked_with_parsed_arguments() {
    let (mut run, step) = agent(&["bash"], 20, 3).start("go".to_string(), vec![]);
    let mut log = step.events;
    feed(&mut run, &mut log, Input::Connected);
    let action = feed(
        &mut run,
        &mut log,
        Input::Chunk(tool_chunk(
            vec![piece(0, Some("c1"), Some("bash"), Some("{\"command\":\"ls\"}"))],
            true,
        )),
    );
    match action {
        Action::Invoke { call, arguments } => {
            assert_eq!(call.id, "c1");
            assert_eq!(call.kind, "function");
            assert_eq!(call.function.name, "bash");
            assert_eq!(arguments["command"], serde_json::Value::String("ls".to_string()));
        }
        other => panic!("unexpected action {:?}", other),
    }
    assert_eq!(run.phase(), Phase::Dispatching);
    let action = feed(&mut run, &mut log, Input::ToolFinished(Ok("a.txt".to_string())));
    assert!(matches!(action, Action::Request { .. }));
    let recorded = run.history().last().unwrap();
    assert_eq!(recorded.role, "tool");
    assert_eq!(recorded.content.as_deref(), Some("a.txt"));
    assert_eq!(recorded.tool_call_id.as_deref(), Some("c1"));
    assert_eq!(recorded.name.as_deref(), Some("bash"));
}

#[test]
fn tool_failure_is_fed_back_as_error_text() {
    let (mut run, step) = agent(&["bash"], 20, 3).start("go".to_string(), vec![]);
    let mut log = step.events;
    feed(&mut run, &mut log, Input::Connected);
    feed(
        &mut run,
        &mut log,
        Input::Chunk(tool_chunk(vec![piece(0, Some("c1"), Some("bash"), Some("{}"))], true)),
    );
    let action = feed(&mut run, &mut log, Input::ToolFinished(Err("Missing command parameter".to_string())));
    assert!(matches!(action, Action::Request { .. }));
    assert_eq!(
        log[log.len() - 2],
        AgentEvent::ToolResult {
            name: "bash".to_string(),
            result: "Error: Missing command parameter".to_string(),
            id: "c1".to_string()
        }
    );
    assert_eq!(
        run.history().last().unwrap().content.as_deref(),
        Some("Error: Missing command parameter")
    );
}

#[test]
fn tool_calls_are_dispatched_in_list_order() {
    let (mut run, step) = agent(&["a", "b"], 20, 3).start("go".to_string(), vec![]);
    let mut log = step.events;
    feed(&mut run, &mut log, Input::Connected);
    // Fragments arrive for index 1 first; dispatch still starts with index 0.
    let action = feed(
        &mut run,
        &mut log,
        Input::Chunk(tool_chunk(
            vec![
                piece(1, Some("second"), Some("b"), Some("{}")),
                piece(0, Some("first"), Some("a"), Some("{}")),
            ],
            true,
        )),
    );
    match action {
        Action::Invoke { call, .. } => assert_eq!(call.id, "first"),
        other => panic!("unexpected action {:?}", other),
    }
    let action = feed(&mut run, &mut log, Input::ToolFinished(Ok("one".to_string())));
    match action {
        Action::Invoke { call, .. } => assert_eq!(call.id, "second"),
        other => panic!("unexpected action {:?}", other),
    }
    let action = feed(&mut run, &mut log, Input::ToolFinished(Ok("two".to_string())));
    assert!(matches!(action, Action::Request { .. }));
    let history = run.history();
    let n = history.len();
    assert_eq!(history[n - 2].content.as_deref(), Some("one"));
    assert_eq!(history[n - 2].tool_call_id.as_deref(), Some("first"));
    assert_eq!(history[n - 1].content.as_deref(), Some("two"));
    assert_eq!(history[n - 1].tool_call_id.as_deref(), Some("second"));
}

#[test]
fn step_budget_of_two_allows_two_requests() {
    let (mut run, step) = agent(&["bash"], 2, 3).start("go".to_string(), vec![]);
    let mut log = step.events;
    let mut requests = 0;
    let mut action = step.action;
    let mut guard = 0;
    loop {
        guard += 1;
        assert!(guard < 50);
        action = match action {
            Action::Request { .. } => {
                requests += 1;
                feed(&mut run, &mut log, Input::Connected)
            }
            Action::ReadChunk => feed(
                &mut run,
                &mut log,
                Input::Chunk(tool_chunk(
                    vec![piece(0, Some("c"), Some("bash"), Some("{}"))],
                    true,
                )),
            ),
            Action::Invoke { .. } => feed(&mut run, &mut log, Input::ToolFinished(Ok("ok".to_string()))),
            Action::Stop => break,
        };
    }
    assert_eq!(requests, 2);
    assert_eq!(count_errors(&log), 1);
    assert_eq!(count_done(&log), 1);
    let n = log.len();
    assert_eq!(log[n - 2], AgentEvent::Error("Max steps reached".to_string()));
    assert_eq!(log[n - 1], AgentEvent::Done);
    assert_eq!(run.steps(), 2);
    assert!(run.is_terminated());
}

#[test]
fn step_budget_of_zero_ends_the_run_at_once() {
    let (run, step) = agent(&[], 0, 3).start("go".to_string(), vec![]);
    assert_eq!(
        step.events,
        vec![AgentEvent::Error("Max steps reached".to_string()), AgentEvent::Done]
    );
    assert_eq!(step.action, Action::Stop);
    assert!(run.is_terminated());
}

#[test]
fn default_limits_are_twenty_steps_and_three_attempts() {
    let agent = Agent::new(DeepSeekClient::new("k".to_string()), registry_with(&["bash"]));
    let (mut run, step) = agent.start("go".to_string(), vec![]);
    let mut log = step.events;
    let mut requests = 0;
    let mut action = step.action;
    let mut guard = 0;
    loop {
        guard += 1;
        assert!(guard < 500);
        action = match action {
            Action::Request { .. } => {
                requests += 1;
                feed(&mut run, &mut log, Input::Connected)
            }
            Action::ReadChunk => feed(
                &mut run,
                &mut log,
                Input::Chunk(tool_chunk(vec![piece(0, Some("c"), Some("bash"), Some("{}"))], true)),
            ),
            Action::Invoke { .. } => feed(&mut run, &mut log, Input::ToolFinished(Ok("ok".to_string()))),
            Action::Stop => break,
        };
    }
    assert_eq!(requests, 20);
    assert_eq!(count_done(&log), 1);
}

#[test]
fn two_failures_then_success_proceed_after_two_retry_notes() {
    let (mut run, step) = agent(&[], 20, 3).start("go".to_string(), vec![]);
    let mut log = Vec::new();
    assert!(matches!(step.action, Action::Request { delay_ms: 0, .. }));
    let action = feed(&mut run, &mut log, Input::ConnectFailed("timeout".to_string()));
    assert!(matches!(action, Action::Request { delay_ms: 1000, .. }));
    let action = feed(&mut run, &mut log, Input::ConnectFailed("timeout".to_string()));
    assert!(matches!(action, Action::Request { delay_ms: 2000, .. }));
    let action = feed(&mut run, &mut log, Input::Connected);
    assert_eq!(action, Action::ReadChunk);
    assert_eq!(
        log,
        vec![
            AgentEvent::Thinking("Network error, retrying (1/3)...".to_string()),
            AgentEvent::Thinking("Network error, retrying (2/3)...".to_string()),
        ]
    );
    let action = feed(&mut run, &mut log, Input::Chunk(text_chunk("fine", true)));
    assert_eq!(action, Action::Stop);
    assert_eq!(run.history().last().unwrap().content.as_deref(), Some("fine"));
    assert_eq!(count_errors(&log), 0);
    assert_eq!(count_done(&log), 1);
}

#[test]
fn three_failures_exhaust_three_attempts() {
    let (mut run, _) = agent(&[], 20, 3).start("go".to_string(), vec![]);
    let mut log = Vec::new();
    feed(&mut run, &mut log, Input::ConnectFailed("a".to_string()));
    feed(&mut run, &mut log, Input::ConnectFailed("b".to_string()));
    let action = feed(&mut run, &mut log, Input::ConnectFailed("refused".to_string()));
    assert_eq!(action, Action::Stop);
    assert_eq!(
        log,
        vec![
            AgentEvent::Thinking("Network error, retrying (1/3)...".to_string()),
            AgentEvent::Thinking("Network error, retrying (2/3)...".to_string()),
            AgentEvent::Error("API Error after retries: refused".to_string()),
            AgentEvent::Done,
        ]
    );
    assert!(run.is_terminated());
    // A success that comes too late changes nothing.
    assert_eq!(feed(&mut run, &mut log, Input::Connected), Action::Stop);
    assert_eq!(log.len(), 4);
}

#[test]
fn four_attempts_survive_three_failures() {
    let (mut run, _) = agent(&[], 20, 4).start("go".to_string(), vec![]);
    let mut log = Vec::new();
    feed(&mut run, &mut log, Input::ConnectFailed("a".to_string()));
    feed(&mut run, &mut log, Input::ConnectFailed("b".to_string()));
    let action = feed(&mut run, &mut log, Input::ConnectFailed("c".to_string()));
    assert!(matches!(action, Action::Request { delay_ms: 3000, .. }));
    assert_eq!(feed(&mut run, &mut log, Input::Connected), Action::ReadChunk);
    assert_eq!(log.len(), 3);
    assert_eq!(log[2], AgentEvent::Thinking("Network error, retrying (3/4)...".to_string()));
}

#[test]
fn retries_count_per_turn() {
    let (mut run, _) = agent(&["bash"], 20, 2).start("go".to_string(), vec![]);
    let mut log = Vec::new();
    feed(&mut run, &mut log, Input::ConnectFailed("a".to_string()));
    feed(&mut run, &mut log, Input::Connected);
    feed(
        &mut run,
        &mut log,
        Input::Chunk(tool_chunk(vec![piece(0, Some("c"), Some("nope"), Some("{}"))], true)),
    );
    // A new turn starts with all its attempts.
    let action = feed(&mut run, &mut log, Input::ConnectFailed("b".to_string()));
    assert!(matches!(action, Action::Request { delay_ms: 1000, .. }));
}

#[test]
fn no_attempts_at_all_fail_at_once() {
    let (run, step) = agent(&[], 20, 0).start("go".to_string(), vec![]);
    assert_eq!(
        step.events,
        vec![
            AgentEvent::Thinking("Thinking...".to_string()),
            AgentEvent::Error("API Error after retries: Initial error".to_string()),
            AgentEvent::Done,
        ]
    );
    assert_eq!(step.action, Action::Stop);
    assert!(run.is_terminated());
}

#[test]
fn corrupt_chunk_ends_the_run() {
    let (mut run, step) = agent(&[], 20, 3).start("go".to_string(), vec![]);
    let mut log = step.events;
    feed(&mut run, &mut log, Input::Connected);
    feed(&mut run, &mut log, Input::Chunk(text_chunk("par", false)));
    let before = run.history().len();
    let action = feed(&mut run, &mut log, Input::ChunkError("JSON Parse Error: EOF".to_string()));
    assert_eq!(action, Action::Stop);
    let n = log.len();
    assert_eq!(log[n - 2], AgentEvent::Error("Stream Error: JSON Parse Error: EOF".to_string()));
    assert_eq!(log[n - 1], AgentEvent::Done);
    assert_eq!(count_done(&log), 1);
    // The partial reply is not trusted: it does not enter the conversation.
    assert_eq!(run.history().len(), before);
}

#[test]
fn unexpected_input_ends_the_run() {
    let (mut run, step) = agent(&[], 20, 3).start("go".to_string(), vec![]);
    let mut log = step.events;
    let action = feed(&mut run, &mut log, Input::StreamClosed);
    assert_eq!(action, Action::Stop);
    assert_eq!(log[1], AgentEvent::Error("Unexpected input".to_string()));
    assert_eq!(log[2], AgentEvent::Done);
    assert!(run.is_terminated());
}

#[test]
fn done_is_last_on_every_path() {
    // normal completion
    let (mut run, step) = agent(&[], 20, 3).start("go".to_string(), vec![]);
    let mut log = step.events;
    feed(&mut run, &mut log, Input::Connected);
    feed(&mut run, &mut log, Input::StreamClosed);
    assert_eq!(count_done(&log), 1);
    assert_eq!(log.last(), Some(&AgentEvent::Done));
    // tool not found, recovered, then completion
    let (mut run, step) = agent(&[], 20, 3).start("go".to_string(), vec![]);
    let mut log = step.events;
    feed(&mut run, &mut log, Input::Connected);
    feed(
        &mut run,
        &mut log,
        Input::Chunk(tool_chunk(vec![piece(0, Some("c"), Some("foo"), Some("{}"))], true)),
    );
    feed(&mut run, &mut log, Input::Connected);
    feed(&mut run, &mut log, Input::Chunk(text_chunk("sorry", true)));
    assert_eq!(count_done(&log), 1);
    assert_eq!(log.last(), Some(&AgentEvent::Done));
    // transport exhausted
    let (mut run, step) = agent(&[], 20, 1).start("go".to_string(), vec![]);
    let mut log = step.events;
    feed(&mut run, &mut log, Input::ConnectFailed("down".to_string()));
    assert_eq!(count_done(&log), 1);
    assert_eq!(log.last(), Some(&AgentEvent::Done));
}

#[test]
fn history_is_handed_back_at_the_end() {
    let (mut run, step) = agent(&[], 20, 3).start("go".to_string(), vec![]);
    let mut log = step.events;
    feed(&mut run, &mut log, Input::Connected);
    feed(&mut run, &mut log, Input::Chunk(text_chunk("ok", true)));
    let history = run.into_history();
    assert_eq!(history.len(), 3);
    assert_eq!(history[2].role, "assistant");
}

#[test]
fn agent_hands_out_its_parts() {
    let agent = agent(&["bash"], 20, 3);
    assert_eq!(agent.client().authorization(), "Bearer key");
    assert!(agent.registry().contains("bash"));
    assert_eq!(agent.registry().get("bash"), Some(&0));
}
