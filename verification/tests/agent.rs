use backend::agent::{
    apply_event, parse_codex_output, response_of, resume_session_args, session_id_of,
    start_session_args, AgentError, CodexTurn,
};

#[test]
fn parses_session_and_agent_response() {
    let output = [
        r#"{"type":"thread.started","thread_id":"session-123"}"#,
        "\n",
        r#"{"type":"item.completed","item":{"type":"agent_message","text":"Welcome!"}}"#,
    ]
    .concat();

    let turn = parse_codex_output(&output).unwrap();
    assert_eq!(turn.session_id.as_deref(), Some("session-123"));
    assert_eq!(turn.response.as_deref(), Some("Welcome!"));
}

#[test]
fn empty_output_gives_empty_turn() {
    let turn = parse_codex_output("").unwrap();
    assert_eq!(turn, CodexTurn { session_id: None, response: None });
}

#[test]
fn blank_lines_are_skipped() {
    let output = "\n   \r\n\t\n{\"type\":\"thread.started\",\"thread_id\":\"t\"}\n\u{3000}\n";
    let turn = parse_codex_output(output).unwrap();
    assert_eq!(turn.session_id.as_deref(), Some("t"));
    assert_eq!(turn.response, None);
}

#[test]
fn invalid_json_line_is_an_error() {
    let output = "{\"type\":\"thread.started\",\"thread_id\":\"t\"}\nnot json\n";
    assert_eq!(parse_codex_output(output), Err(AgentError::InvalidJsonEvent));
}

#[test]
fn crlf_lines_are_read() {
    let output = "{\"type\":\"thread.started\",\"thread_id\":\"a\"}\r\n{\"type\":\"item.completed\",\"item\":{\"type\":\"agent_message\",\"text\":\"hi\"}}\r\n";
    let turn = parse_codex_output(output).unwrap();
    assert_eq!(turn.session_id.as_deref(), Some("a"));
    assert_eq!(turn.response.as_deref(), Some("hi"));
}

#[test]
fn later_events_replace_earlier_ones() {
    let output = concat_lines(&[
        r#"{"type":"thread.started","thread_id":"first"}"#,
        r#"{"type":"item.completed","item":{"type":"agent_message","text":"one"}}"#,
        r#"{"type":"thread.started","thread_id":"second"}"#,
        r#"{"type":"item.completed","item":{"type":"agent_message","text":"two"}}"#,
    ]);
    let turn = parse_codex_output(&output).unwrap();
    assert_eq!(turn.session_id.as_deref(), Some("second"));
    assert_eq!(turn.response.as_deref(), Some("two"));
}

#[test]
fn other_items_and_events_are_ignored() {
    let output = concat_lines(&[
        r#"{"type":"item.completed","item":{"type":"agent_message","text":"kept"}}"#,
        r#"{"type":"item.completed","item":{"type":"reasoning","text":"thinking"}}"#,
        r#"{"type":"turn.completed","usage":{}}"#,
        r#"[1, 2, 3]"#,
        r#""just a string""#,
    ]);
    let turn = parse_codex_output(&output).unwrap();
    assert_eq!(turn.session_id, None);
    assert_eq!(turn.response.as_deref(), Some("kept"));
}

#[test]
fn started_event_without_thread_id_clears_the_session() {
    let output = concat_lines(&[
        r#"{"type":"thread.started","thread_id":"x"}"#,
        r#"{"type":"thread.started"}"#,
    ]);
    let turn = parse_codex_output(&output).unwrap();
    assert_eq!(turn.session_id, None);
}

#[test]
fn non_string_thread_id_is_no_session() {
    let turn = parse_codex_output(r#"{"type":"thread.started","thread_id":42}"#).unwrap();
    assert_eq!(turn.session_id, None);
}

#[test]
fn apply_event_on_given_fields() {
    let empty = CodexTurn { session_id: None, response: None };
    let started = apply_event(
        empty.clone(),
        Some("thread.started".to_string()),
        Some("s".to_string()),
        None,
        None,
    );
    assert_eq!(started.session_id.as_deref(), Some("s"));
    let answered = apply_event(
        started.clone(),
        Some("item.completed".to_string()),
        None,
        Some("agent_message".to_string()),
        Some("hello".to_string()),
    );
    assert_eq!(answered.session_id.as_deref(), Some("s"));
    assert_eq!(answered.response.as_deref(), Some("hello"));
    let other = apply_event(
        answered.clone(),
        Some("item.completed".to_string()),
        Some("t".to_string()),
        Some("command_execution".to_string()),
        Some("ls".to_string()),
    );
    assert_eq!(other, answered);
    let untyped = apply_event(empty.clone(), None, Some("z".to_string()), None, None);
    assert_eq!(untyped, empty);
}

#[test]
fn session_and_response_accessors() {
    let turn = CodexTurn { session_id: Some("id".to_string()), response: None };
    assert_eq!(session_id_of(turn.clone()), Ok("id".to_string()));
    assert_eq!(response_of(turn), Err(AgentError::MissingResponse));
    let turn = CodexTurn { session_id: None, response: Some("r".to_string()) };
    assert_eq!(session_id_of(turn.clone()), Err(AgentError::MissingSessionId));
    assert_eq!(response_of(turn), Ok("r".to_string()));
}

#[test]
fn codex_arguments() {
    assert_eq!(
        start_session_args(),
        vec!["exec", "--json", "--sandbox", "read-only", "--skip-git-repo-check", "-"]
    );
    assert_eq!(resume_session_args("abc"), vec!["exec", "resume", "--json", "abc", "-"]);
}

fn concat_lines(lines: &[&str]) -> String {
    lines.join("\n")
}
