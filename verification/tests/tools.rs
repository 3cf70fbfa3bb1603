use coding_agent::tools::bash::{command_outcome, screen_command};
use coding_agent::tools::read::missing_file_message;
use coding_agent::tools::{complete_tool_call, plan_tool_call, Function, ToolCall, ToolError, ToolRequest};
use coding_agent::text::{chars_of, integer_text, natural_text, text_equals};

fn call(name: &str, arguments: &str) -> ToolCall {
    ToolCall {
        id: "call_1".to_string(),
        call_type: "function".to_string(),
        function: Function { name: name.to_string(), arguments: arguments.to_string() },
    }
}

#[test]
fn plan_read_takes_the_file_path() {
    match plan_tool_call(&call("Read", r#"{"file_path": "src/main.rs"}"#)) {
        Ok(ToolRequest::Read { file_path }) => assert_eq!(file_path, "src/main.rs"),
        _ => panic!("expected a read"),
    }
}

#[test]
fn plan_read_without_path_reads_the_empty_path() {
    match plan_tool_call(&call("Read", r#"{"other": 1}"#)) {
        Ok(ToolRequest::Read { file_path }) => assert_eq!(file_path, ""),
        _ => panic!("expected a read"),
    }
}

#[test]
fn plan_read_with_a_non_string_path_reads_the_empty_path() {
    match plan_tool_call(&call("Read", r#"{"file_path": 42}"#)) {
        Ok(ToolRequest::Read { file_path }) => assert_eq!(file_path, ""),
        _ => panic!("expected a read"),
    }
}

#[test]
fn plan_write_takes_path_and_content() {
    match plan_tool_call(&call("Write", r#"{"file_path": "a.txt", "content": "hello\nworld"}"#)) {
        Ok(ToolRequest::Write { file_path, content }) => {
            assert_eq!(file_path, "a.txt");
            assert_eq!(content, "hello\nworld");
        }
        _ => panic!("expected a write"),
    }
}

#[test]
fn plan_bash_takes_the_command() {
    match plan_tool_call(&call("Bash", r#"{"command": "ls -la"}"#)) {
        Ok(ToolRequest::Bash { command }) => assert_eq!(command, "ls -la"),
        _ => panic!("expected a command"),
    }
}

#[test]
fn plan_unknown_tool_is_an_error() {
    assert!(matches!(plan_tool_call(&call("Delete", r#"{"file_path": "a"}"#)), Err(ToolError)));
    assert!(matches!(plan_tool_call(&call("read", r#"{"file_path": "a"}"#)), Err(ToolError)));
}

#[test]
fn plan_with_arguments_that_are_not_json_is_an_error() {
    assert!(plan_tool_call(&call("Read", "file_path=a")).is_err());
    assert!(plan_tool_call(&call("Write", "{")).is_err());
    assert!(plan_tool_call(&call("Bash", "")).is_err());
}

#[test]
fn complete_read_answers_with_the_output() {
    let c = call("Read", r#"{"file_path": "a"}"#);
    let request = plan_tool_call(&c).unwrap();
    let response = complete_tool_call(&c, &request, Ok("file text".to_string())).unwrap();
    assert_eq!(response.id, "call_1");
    assert_eq!(response.content, "file text");
}

#[test]
fn complete_write_answers_with_the_content_written() {
    let c = call("Write", r#"{"file_path": "a", "content": "body"}"#);
    let request = plan_tool_call(&c).unwrap();
    let response = complete_tool_call(&c, &request, Ok(String::new())).unwrap();
    assert_eq!(response.id, "call_1");
    assert_eq!(response.content, "body");
}

#[test]
fn complete_failed_tool_is_an_error() {
    let c = call("Bash", r#"{"command": "false"}"#);
    let request = plan_tool_call(&c).unwrap();
    assert!(matches!(complete_tool_call(&c, &request, Err(())), Err(ToolError)));
}

#[test]
fn tool_error_message() {
    assert_eq!(ToolError.message(), "The tool call could not be handled.");
}

#[test]
fn screen_refuses_rm_anywhere() {
    let refusal = "Command contains 'rm' and is not allowed to run.";
    assert_eq!(screen_command("rm -rf /"), Err(refusal.to_string()));
    assert_eq!(screen_command("ls; rm a"), Err(refusal.to_string()));
    assert_eq!(screen_command("cat form.txt"), Err(refusal.to_string()));
    assert_eq!(screen_command("ls"), Ok(()));
    assert_eq!(screen_command("r m"), Ok(()));
    assert_eq!(screen_command("mr"), Ok(()));
    assert_eq!(screen_command(""), Ok(()));
    assert_eq!(screen_command("r"), Ok(()));
}

#[test]
fn outcome_of_success_is_stdout() {
    assert_eq!(
        command_outcome(true, Some(0), "out".to_string(), "err".to_string()),
        Ok("out".to_string())
    );
}

#[test]
fn outcome_of_failure_lists_code_stderr_stdout() {
    assert_eq!(
        command_outcome(false, Some(2), "out".to_string(), "err".to_string()),
        Err("Command failed with exit code 2\nerr\nout".to_string())
    );
    assert_eq!(
        command_outcome(false, Some(127), String::new(), "not found".to_string()),
        Err("Command failed with exit code 127\nnot found".to_string())
    );
    assert_eq!(
        command_outcome(false, None, "partial".to_string(), String::new()),
        Err("Command failed with exit code -1\npartial".to_string())
    );
    assert_eq!(
        command_outcome(false, Some(1), String::new(), String::new()),
        Err("Command failed with exit code 1".to_string())
    );
}

#[test]
fn integer_text_matches_display() {
    for n in [0, 7, 10, 42, 100, 2147483647, -1, -10, -2147483648, 1234567] {
        assert_eq!(integer_text(n), n.to_string());
    }
    assert_eq!(natural_text(18446744073709551615), u64::MAX.to_string());
}

#[test]
fn missing_file_message_names_the_path() {
    assert_eq!(
        missing_file_message("notes/todo.md"),
        "The requested file at notes/todo.md does not exist."
    );
}

#[test]
fn chars_and_text_helpers() {
    assert_eq!(chars_of("héllo"), vec!['h', 'é', 'l', 'l', 'o']);
    assert!(chars_of("").is_empty());
    assert!(text_equals(&"/clear".to_string(), "/clear"));
    assert!(!text_equals(&"/clear ".to_string(), "/clear"));
}
