use codemaster::agent::aggregator::StreamAggregator;
use codemaster::agent::event::AgentEvent;
use codemaster::api::deepseek::{
    FunctionCall, StreamChoice, StreamChunk, StreamDelta, StreamFunctionCall, StreamToolCall,
    ToolCall,
};

fn fragment(index: i32, id: Option<&str>, name: Option<&str>, arguments: Option<&str>) -> StreamToolCall {
    StreamToolCall {
        index,
        id: id.map(|s| s.to_string()),
        function: Some(StreamFunctionCall {
            name: name.map(|s| s.to_string()),
            arguments: arguments.map(|s| s.to_string()),
        }),
    }
}

fn chunk(content: Option<&str>, tool_calls: Option<Vec<StreamToolCall>>, finish: Option<&str>) -> StreamChunk {
    StreamChunk {
        id: "chunk".to_string(),
        choices: vec![StreamChoice {
            index: 0,
            delta: StreamDelta { role: None, content: content.map(|s| s.to_string()), tool_calls },
            finish_reason: finish.map(|s| s.to_string()),
        }],
    }
}

fn call(id: &str, name: &str, arguments: &str) -> ToolCall {
    ToolCall {
        id: id.to_string(),
        kind: "function".to_string(),
        function: FunctionCall { name: name.to_string(), arguments: arguments.to_string() },
    }
}

#[test]
fn interleaved_fragments_are_ordered_by_index_and_joined_in_arrival_order() {
    let mut aggregator = StreamAggregator::new();
    let mut events = Vec::new();
    aggregator.push(&chunk(None, Some(vec![fragment(1, None, None, Some("He"))]), None), &mut events);
    aggregator.push(
        &chunk(None, Some(vec![fragment(0, None, None, Some("{\"x\":1}"))]), None),
        &mut events,
    );
    aggregator.push(&chunk(None, Some(vec![fragment(1, None, None, Some("llo"))]), None), &mut events);
    let message = aggregator.finish();
    assert_eq!(
        message.tool_calls,
        Some(vec![call("", "", "{\"x\":1}"), call("", "", "Hello")])
    );
    assert_eq!(message.role, "assistant");
    assert_eq!(message.content.as_deref(), Some(""));
    assert!(events.is_empty());
}

#[test]
fn repeated_argument_pieces_are_not_merged() {
    let mut aggregator = StreamAggregator::new();
    let mut events = Vec::new();
    aggregator.push(
        &chunk(
            None,
            Some(vec![fragment(0, None, None, Some("ab")), fragment(0, None, None, Some("ab"))]),
            None,
        ),
        &mut events,
    );
    let message = aggregator.finish();
    assert_eq!(message.tool_calls.unwrap()[0].function.arguments, "abab");
}

#[test]
fn identity_may_arrive_on_a_later_fragment() {
    let mut aggregator = StreamAggregator::new();
    let mut events = Vec::new();
    aggregator.push(&chunk(None, Some(vec![fragment(0, None, None, Some("{\"a\""))]), None), &mut events);
    aggregator.push(
        &chunk(None, Some(vec![fragment(0, Some("call_9"), Some("grep"), Some(":1}"))]), None),
        &mut events,
    );
    let message = aggregator.finish();
    assert_eq!(message.tool_calls, Some(vec![call("call_9", "grep", "{\"a\":1}")]));
}

#[test]
fn id_and_name_are_set_once() {
    let mut aggregator = StreamAggregator::new();
    let mut events = Vec::new();
    aggregator.push(
        &chunk(None, Some(vec![fragment(0, Some("first"), Some("bash"), None)]), None),
        &mut events,
    );
    aggregator.push(
        &chunk(None, Some(vec![fragment(0, Some("second"), Some("grep"), Some("{}"))]), None),
        &mut events,
    );
    let message = aggregator.finish();
    assert_eq!(message.tool_calls, Some(vec![call("first", "bash", "{}")]));
}

#[test]
fn fragment_without_function_still_opens_its_call() {
    let mut aggregator = StreamAggregator::new();
    let mut events = Vec::new();
    let bare = StreamToolCall { index: 3, id: Some("x".to_string()), function: None };
    aggregator.push(&chunk(None, Some(vec![bare]), None), &mut events);
    let message = aggregator.finish();
    assert_eq!(message.tool_calls, Some(vec![call("x", "", "")]));
}

#[test]
fn many_indices_come_out_ascending() {
    let mut aggregator = StreamAggregator::new();
    let mut events = Vec::new();
    for index in [5, -2, 9, 0, 5, 3] {
        let id = format!("id{}", index);
        aggregator.push(
            &chunk(None, Some(vec![fragment(index, Some(&id), Some("t"), Some("."))]), None),
            &mut events,
        );
    }
    let message = aggregator.finish();
    let ids: Vec<String> = message.tool_calls.unwrap().into_iter().map(|c| c.id).collect();
    assert_eq!(ids, vec!["id-2", "id0", "id3", "id5", "id9"]);
}

#[test]
fn text_deltas_are_forwarded_at_once_and_concatenated() {
    let mut aggregator = StreamAggregator::new();
    let mut events = Vec::new();
    let finished = aggregator.push(&chunk(Some("Hel"), None, None), &mut events);
    assert!(!finished);
    assert_eq!(events, vec![AgentEvent::StreamChunk("Hel".to_string())]);
    let finished = aggregator.push(&chunk(Some("lo"), None, Some("stop")), &mut events);
    assert!(finished);
    assert_eq!(
        events,
        vec![
            AgentEvent::StreamChunk("Hel".to_string()),
            AgentEvent::StreamChunk("lo".to_string())
        ]
    );
    let message = aggregator.finish();
    assert_eq!(message.content.as_deref(), Some("Hello"));
    assert_eq!(message.tool_calls, None);
    assert_eq!(message.tool_call_id, None);
    assert_eq!(message.name, None);
}

#[test]
fn empty_text_delta_is_still_an_event() {
    let mut aggregator = StreamAggregator::new();
    let mut events = Vec::new();
    aggregator.push(&chunk(Some(""), None, None), &mut events);
    assert_eq!(events, vec![AgentEvent::StreamChunk(String::new())]);
}

#[test]
fn chunk_without_choices_changes_nothing() {
    let mut aggregator = StreamAggregator::new();
    let mut events = Vec::new();
    let empty = StreamChunk { id: "e".to_string(), choices: vec![] };
    assert!(!aggregator.push(&empty, &mut events));
    assert!(events.is_empty());
    let message = aggregator.finish();
    assert_eq!(message.content.as_deref(), Some(""));
    assert_eq!(message.tool_calls, None);
}

#[test]
fn only_the_first_choice_counts() {
    let mut aggregator = StreamAggregator::new();
    let mut events = Vec::new();
    let two = StreamChunk {
        id: "c".to_string(),
        choices: vec![
            StreamChoice {
                index: 0,
                delta: StreamDelta { role: None, content: Some("a".to_string()), tool_calls: None },
                finish_reason: None,
            },
            StreamChoice {
                index: 1,
                delta: StreamDelta { role: None, content: Some("b".to_string()), tool_calls: None },
                finish_reason: Some("stop".to_string()),
            },
        ],
    };
    assert!(!aggregator.push(&two, &mut events));
    assert_eq!(aggregator.finish().content.as_deref(), Some("a"));
}
