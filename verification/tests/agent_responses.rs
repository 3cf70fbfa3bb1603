use coding_agent::agent_responses::{
    AgentLoop, AgentResponsesState, AgentResponsesWidget, LoadingState, Message, LLM_MODEL,
    MAX_AGENT_REQUESTS, MAX_NUMBER_MESSAGES,
};
use coding_agent::tools::{Function, ToolCall, ToolCallResponse};

fn text_message(role: &str, content: &str) -> Message {
    Message {
        role: Some(role.to_string()),
        content: Some(content.to_string()),
        tool_call_id: None,
        tool_calls: None,
    }
}

fn tool_call(id: &str) -> ToolCall {
    ToolCall {
        id: id.to_string(),
        call_type: "function".to_string(),
        function: Function { name: "Read".to_string(), arguments: "{}".to_string() },
    }
}

#[test]
fn default_state_is_idle_and_empty() {
    let state = AgentResponsesState::default();
    assert!(state.messages.is_empty());
    assert_eq!(state.loading_state, LoadingState::Idle);
    assert!(!state.agent_is_active);
    assert_eq!(LoadingState::default(), LoadingState::Idle);
}

#[test]
fn user_turn_starts_once() {
    let mut state = AgentResponsesState::default();
    assert!(state.begin_user_turn("hi".to_string()));
    assert!(state.agent_is_active);
    assert_eq!(state.messages.len(), 1);
    assert_eq!(state.messages[0].role.as_deref(), Some("user"));
    assert_eq!(state.messages[0].content.as_deref(), Some("hi"));
    assert!(state.messages[0].tool_call_id.is_none());
    assert!(state.messages[0].tool_calls.is_none());
    assert!(!state.begin_user_turn("again".to_string()));
    assert_eq!(state.messages.len(), 1);
    assert!(state.agent_is_active);
}

#[test]
fn reply_without_tools_ends_the_run() {
    let mut state = AgentResponsesState::default();
    state.begin_user_turn("hi".to_string());
    let calls = state.record_assistant_reply(text_message("assistant", "hello"));
    assert!(calls.is_none());
    assert!(!state.agent_is_active);
    assert_eq!(state.messages.len(), 2);
    assert_eq!(state.messages[1].content.as_deref(), Some("hello"));
}

#[test]
fn reply_with_tools_returns_them_and_goes_on() {
    let mut state = AgentResponsesState::default();
    state.begin_user_turn("hi".to_string());
    let mut reply = text_message("assistant", "");
    reply.tool_calls = Some(vec![tool_call("a"), tool_call("b")]);
    let calls = state.record_assistant_reply(reply).unwrap();
    assert_eq!(calls.len(), 2);
    assert_eq!(calls[0].id, "a");
    assert_eq!(calls[1].id, "b");
    assert!(state.agent_is_active);
    state.record_tool_result(ToolCallResponse { id: "a".to_string(), content: "out".to_string() });
    let last = &state.messages[2];
    assert_eq!(last.role.as_deref(), Some("tool"));
    assert_eq!(last.tool_call_id.as_deref(), Some("a"));
    assert_eq!(last.content.as_deref(), Some("out"));
    assert!(last.tool_calls.is_none());
    assert!(state.agent_is_active);
}

#[test]
fn end_turn_and_clear_messages() {
    let mut state = AgentResponsesState::default();
    state.begin_user_turn("hi".to_string());
    state.clear_messages();
    assert!(state.messages.is_empty());
    assert!(state.agent_is_active);
    state.end_turn();
    assert!(!state.agent_is_active);
}

#[test]
fn snapshot_and_duplicate_copy_the_messages() {
    let mut state = AgentResponsesState::default();
    state.begin_user_turn("hi".to_string());
    let mut reply = text_message("assistant", "x");
    reply.tool_calls = Some(vec![tool_call("c")]);
    state.record_assistant_reply(reply);
    let copy = state.snapshot();
    assert_eq!(copy.len(), 2);
    assert_eq!(copy[1].tool_calls.as_ref().unwrap()[0].id, "c");
    let d = copy[1].duplicate();
    assert_eq!(d.content.as_deref(), Some("x"));
}

#[test]
fn panels_show_the_four_newest_first() {
    let mut state = AgentResponsesState::default();
    for i in 0..6 {
        state.messages.push(text_message("user", &format!("m{}", i)));
    }
    state.messages.push(Message { role: Some("tool".to_string()), content: None, tool_call_id: Some("t".to_string()), tool_calls: None });
    let panels = state.message_panels();
    assert_eq!(panels.len(), MAX_NUMBER_MESSAGES);
    assert_eq!(panels[0].content, "");
    assert!(panels[0].is_tool_call);
    assert_eq!(panels[1].content, "m5");
    assert!(!panels[1].is_tool_call);
    assert_eq!(panels[3].content, "m3");
}

#[test]
fn panels_of_a_short_conversation() {
    let mut state = AgentResponsesState::default();
    assert!(state.message_panels().is_empty());
    let mut reply = text_message("assistant", "calling");
    reply.tool_calls = Some(vec![]);
    state.messages.push(text_message("user", "q"));
    state.messages.push(reply);
    let panels = state.message_panels();
    assert_eq!(panels.len(), 2);
    assert_eq!(panels[0].content, "calling");
    assert!(panels[0].is_tool_call);
    assert_eq!(panels[1].content, "q");
}

#[test]
fn a_run_sends_at_most_six_requests() {
    let mut turn = AgentLoop::new();
    assert_eq!(turn.requests_sent(), 0);
    let mut allowed = 0;
    for _ in 0..10 {
        if turn.next_request() {
            allowed += 1;
        }
    }
    assert_eq!(allowed, 6);
    assert_eq!(MAX_AGENT_REQUESTS, 6);
    assert_eq!(turn.requests_sent(), 6);
}

#[test]
fn widget_run_and_budget() {
    let mut widget = AgentResponsesWidget::new();
    assert!(widget.run("go".to_string()));
    assert!(!widget.run("again".to_string()));
    assert!(widget.is_agent_active());
    let mut turn = AgentLoop::new();
    for _ in 0..6 {
        assert!(widget.next_request(&mut turn));
    }
    assert!(widget.is_agent_active());
    assert!(!widget.next_request(&mut turn));
    assert!(!widget.is_agent_active());
    assert!(widget.run("next".to_string()));
    assert_eq!(widget.messages().len(), 2);
}

#[test]
fn widget_records_the_agent_loop() {
    let mut widget = AgentResponsesWidget::new();
    widget.run("go".to_string());
    let mut reply = text_message("assistant", "");
    reply.tool_calls = Some(vec![tool_call("k")]);
    let calls = widget.record_assistant_reply(reply).unwrap();
    assert_eq!(calls[0].id, "k");
    widget.record_tool_result(ToolCallResponse { id: "k".to_string(), content: "done".to_string() });
    assert!(widget.record_assistant_reply(text_message("assistant", "finished")).is_none());
    assert!(!widget.is_agent_active());
    let panels = widget.message_panels();
    assert_eq!(panels.len(), 4);
    assert_eq!(panels[0].content, "finished");
    assert_eq!(panels[1].content, "done");
    assert!(panels[1].is_tool_call);
    widget.clear_messages();
    assert!(widget.messages().is_empty());
    assert!(widget.run("x".to_string()));
    assert_eq!(widget.messages().len(), 1);
    widget.end_turn();
    assert!(!widget.is_agent_active());
    assert_eq!(widget.messages().len(), 1);
}

#[test]
fn new_widget_is_empty_and_idle() {
    let widget = AgentResponsesWidget::new();
    assert!(widget.messages().is_empty());
    assert!(!widget.is_agent_active());
    assert!(widget.message_panels().is_empty());
    assert_eq!(widget.state.loading_state, LoadingState::Idle);
    let default = AgentResponsesWidget::default();
    assert!(default.messages().is_empty());
}

#[test]
fn model_name() {
    assert_eq!(LLM_MODEL, "mistralai/devstral-2512");
}
