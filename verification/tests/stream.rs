use editor_panels::stream::{
    read_model_usage, ClaudeContent, ClaudeEvent, ClaudeMessage, ClaudeUsage, ClaudeUsageData,
    Cost, ModelUsage,
};
use editor_panels::task::{task_command, TaskEvent, TaskRun};

fn cost(dollars: f64) -> Cost {
    Cost { bits: dollars.to_bits() }
}

fn event(event_type: &str) -> ClaudeEvent {
    ClaudeEvent {
        event_type: event_type.to_string(),
        message: None,
        session_id: None,
        total_cost: cost(0.0),
        usage: None,
        model_usage: None,
    }
}

fn content(content_type: &str, text: &str) -> ClaudeContent {
    ClaudeContent { content_type: content_type.to_string(), text: text.to_string() }
}

fn says(contents: Vec<ClaudeContent>) -> ClaudeEvent {
    ClaudeEvent { message: Some(ClaudeMessage { content: contents }), ..event("assistant") }
}

fn named(event_type: &str, session: &str) -> ClaudeEvent {
    ClaudeEvent { session_id: Some(session.to_string()), ..event(event_type) }
}

fn line(e: ClaudeEvent) -> TaskEvent {
    TaskEvent::Line("{}".to_string(), Some(e))
}

fn parse(json: &str) -> serde_json::Value {
    serde_json::from_str(json).unwrap()
}

#[test]
fn zero_costs() {
    assert!(cost(0.0).is_zero());
    assert!(cost(-0.0).is_zero());
    assert!(!cost(0.001).is_zero());
    assert!(!cost(-1.0).is_zero());
    assert!(!cost(f64::MIN_POSITIVE).is_zero());
    assert!(!cost(f64::NAN).is_zero());
}

#[test]
fn no_usage_to_start_with() {
    let usage = ClaudeUsage::none();
    assert_eq!(f64::from_bits(usage.total_cost.bits), 0.0);
    assert_eq!(usage.input_tokens, 0);
    assert_eq!(usage.context_window, 200_000);
    assert_eq!(usage.model, "");
}

#[test]
fn model_and_window_are_read() {
    let value = parse(r#"{"opus": {"contextWindow": 1000000, "inputTokens": 3}}"#);
    assert_eq!(
        read_model_usage(&value),
        Some(ModelUsage { name: "opus".to_string(), context_window: Some(1_000_000) })
    );
}

#[test]
fn first_model_is_the_first_listed() {
    let value = parse(r#"{"b": {"contextWindow": 7}, "a": {"contextWindow": 8}}"#);
    assert_eq!(
        read_model_usage(&value),
        Some(ModelUsage { name: "b".to_string(), context_window: Some(7) })
    );
}

#[test]
fn model_without_a_window_is_still_named() {
    for json in [
        r#"{"m": {}}"#,
        r#"{"m": 5}"#,
        r#"{"m": [1]}"#,
        r#"{"m": {"contextWindow": -1}}"#,
        r#"{"m": {"contextWindow": 1.5}}"#,
        r#"{"m": {"contextWindow": 7.0}}"#,
        r#"{"m": {"contextWindow": 7e0}}"#,
        r#"{"m": {"contextWindow": "7"}}"#,
        r#"{"m": {"contextwindow": 7}}"#,
    ] {
        assert_eq!(
            read_model_usage(&parse(json)),
            Some(ModelUsage { name: "m".to_string(), context_window: None })
        );
    }
}

#[test]
fn no_model_in_what_names_none() {
    for json in ["{}", "[]", "null", "3", "\"m\"", r#"[{"m": {"contextWindow": 7}}]"#] {
        assert_eq!(read_model_usage(&parse(json)), None);
    }
}

#[test]
fn command_of_a_first_question() {
    let command = task_command("helper", &None, "why?".to_string());
    assert_eq!(command.program, "helper");
    assert_eq!(command.args, vec!["-p", "--verbose", "--output-format", "stream-json"]);
    assert_eq!(command.input_line, "why?");
}

#[test]
fn command_of_a_later_question() {
    let command = task_command("helper", &Some("s1".to_string()), "why?".to_string());
    assert_eq!(
        command.args,
        vec!["-p", "--verbose", "--output-format", "stream-json", "--resume", "s1"]
    );
}

#[test]
fn transcript_is_in_order() {
    let mut run = TaskRun::start();
    assert!(!run.step(line(named("system", "s1"))));
    assert!(!run.step(line(says(vec![
        content("text", "Hello"),
        content("tool_use", "ls"),
        content("text", ""),
        content("text", ", "),
    ]))));
    assert!(!run.step(line(event("user"))));
    assert!(!run.step(line(event("assistant"))));
    assert!(!run.step(line(says(vec![content("text", "world")]))));
    assert!(run.step(TaskEvent::End));
    assert_eq!(run.text_parts, vec!["Hello", ", ", "world"]);
    assert_eq!(run.session_id, Some("s1".to_string()));
    assert_eq!(run.error, None);
}

#[test]
fn text_of_other_events_is_not_said() {
    let mut run = TaskRun::start();
    run.apply_event(ClaudeEvent {
        event_type: "user".to_string(),
        ..says(vec![content("text", "Hello")])
    });
    assert!(run.text_parts.is_empty());
}

#[test]
fn blank_and_other_lines_are_passed_over() {
    let mut run = TaskRun::start();
    assert!(!run.step(TaskEvent::Line("".to_string(), Some(says(vec![content("text", "x")])))));
    assert!(!run.step(TaskEvent::Line("not json".to_string(), None)));
    assert!(!run.step(line(ClaudeEvent {
        event_type: "user".to_string(),
        session_id: Some("other".to_string()),
        total_cost: cost(2.0),
        model_usage: Some(ModelUsage { name: "m".to_string(), context_window: Some(1) }),
        ..says(vec![content("text", "x")])
    })));
    assert_eq!(run, TaskRun::start());
}

#[test]
fn spawn_failure() {
    let mut run = TaskRun::start();
    assert!(run.step(TaskEvent::SpawnFailed(
        "helper".to_string(),
        "no such file".to_string()
    )));
    assert_eq!(run.error, Some("Error: failed to spawn helper (no such file)".to_string()));
}

#[test]
fn read_failure_keeps_what_was_read() {
    let mut run = TaskRun::start();
    run.step(line(says(vec![content("text", "Hel")])));
    assert!(run.step(TaskEvent::ReadFailed("broken pipe".to_string())));
    assert_eq!(run.error, Some("Read error: broken pipe".to_string()));
    assert_eq!(run.text_parts, vec!["Hel"]);
}

#[test]
fn result_reports_usage() {
    let mut run = TaskRun::start();
    run.apply_event(ClaudeEvent {
        total_cost: cost(0.25),
        usage: Some(ClaudeUsageData {
            input_tokens: 1,
            output_tokens: 2,
            cache_read_input_tokens: 3,
            cache_creation_input_tokens: 4,
        }),
        model_usage: Some(ModelUsage { name: "opus".to_string(), context_window: Some(9) }),
        ..event("result")
    });
    assert_eq!(
        run.usage,
        ClaudeUsage {
            total_cost: cost(0.25),
            input_tokens: 1,
            output_tokens: 2,
            cache_read: 3,
            cache_creation: 4,
            context_window: 9,
            model: "opus".to_string(),
        }
    );
    run.apply_event(ClaudeEvent {
        total_cost: cost(0.5),
        model_usage: Some(ModelUsage { name: "haiku".to_string(), context_window: None }),
        ..event("result")
    });
    assert_eq!(run.usage.total_cost, cost(0.5));
    assert_eq!(run.usage.input_tokens, 1);
    assert_eq!(run.usage.context_window, 9);
    assert_eq!(run.usage.model, "haiku");
}

#[test]
fn usage_comes_from_results_only() {
    let mut run = TaskRun::start();
    run.apply_event(ClaudeEvent {
        total_cost: cost(1.0),
        usage: Some(ClaudeUsageData {
            input_tokens: 1,
            output_tokens: 2,
            cache_read_input_tokens: 3,
            cache_creation_input_tokens: 4,
        }),
        ..event("system")
    });
    assert_eq!(run.usage, ClaudeUsage::none());
}

#[test]
fn result_names_a_session_only_where_nothing_was_spent() {
    let mut run = TaskRun::start();
    run.apply_event(named("result", "free"));
    assert_eq!(run.session_id, Some("free".to_string()));

    run.apply_event(ClaudeEvent { total_cost: cost(0.1), ..named("result", "paid") });
    assert_eq!(run.session_id, Some("free".to_string()));

    let mut counted = TaskRun::start();
    counted.apply_event(ClaudeEvent {
        usage: Some(ClaudeUsageData {
            input_tokens: 5,
            output_tokens: 0,
            cache_read_input_tokens: 0,
            cache_creation_input_tokens: 0,
        }),
        ..named("result", "counted")
    });
    assert_eq!(counted.session_id, None);
}

#[test]
fn session_is_kept_and_replaced() {
    let mut run = TaskRun::start();
    run.apply_event(named("system", "one"));
    run.apply_event(event("system"));
    run.apply_event(named("assistant", "other"));
    assert_eq!(run.session_id, Some("one".to_string()));
    run.apply_event(named("system", "two"));
    assert_eq!(run.session_id, Some("two".to_string()));
}
