use agent_loop::agentic::{
    nudge, shell_command, Action, AgenticLoop, AgenticLoopResult, Event, ModelReply, Step, ToolInfo,
};
use agent_loop::chat::{ChatMessage, Role, ToolCall};
use agent_loop::flush::{flush_tools, Flush, FlushAction, FlushEvent};
use agent_loop::notice::Notice;
use agent_loop::session::Session;
use agent_loop::submission::LoopError;
use agent_loop::tool::{admit_tool, tool_output, written_output, Execution, ToolError};
use agent_loop::turn::ValidationIssue;
use serde_json::Value;

fn json(text: &str) -> Value {
    serde_json::from_str(text).unwrap()
}

fn session() -> Session {
    let mut session = Session::new(0);
    session.create_thread_with_id(5, None);
    session
        .threads
        .get_mut(&5)
        .unwrap()
        .start_turn("do it".to_string());
    session
}

fn call(id: &str, name: &str, arguments: &str) -> ToolCall {
    ToolCall {
        id: id.to_string(),
        name: name.to_string(),
        arguments: json(arguments),
    }
}

fn asks(calls: Vec<ToolCall>) -> Event {
    Event::Reply(Ok(ModelReply::ToolCalls {
        tool_calls: calls,
        content: None,
    }))
}

fn says(text: &str) -> Event {
    Event::Reply(Ok(ModelReply::Text(text.to_string())))
}

fn guarded(description: &str) -> Event {
    Event::Found(Some(ToolInfo {
        requires_approval: true,
        description: description.to_string(),
    }))
}

fn response(step: &Step) -> String {
    match &step.action {
        Action::Finish(Ok(AgenticLoopResult::Response(s))) => s.clone(),
        _ => panic!("a response was expected"),
    }
}

#[test]
fn model_that_only_talks_is_nudged_twice() {
    let mut session = session();
    let mut run = AgenticLoop::new(5, vec![ChatMessage::user("do it")], false);
    assert!(matches!(
        run.step(&mut session, Event::Start).action,
        Action::AskModel
    ));
    assert!(matches!(
        run.step(&mut session, says("I will")).action,
        Action::AskModel
    ));
    assert!(matches!(
        run.step(&mut session, says("I really will")).action,
        Action::AskModel
    ));
    assert_eq!(run.messages().len(), 5);
    assert_eq!(run.messages()[1].role, Role::Assistant);
    assert_eq!(run.messages()[2].content, nudge());
    let last = run.step(&mut session, says("fine"));
    assert_eq!(response(&last), "fine");
    assert!(matches!(
        run.step(&mut session, says("more")).action,
        Action::Ignore
    ));
}

#[test]
fn nudge_has_its_wording() {
    let expected = [
        "Please proceed and use the available tools to complete",
        "this",
        "task.",
    ]
    .join(" ");
    assert_eq!(nudge(), expected);
}

#[test]
fn resumed_run_takes_text_at_once() {
    let mut session = session();
    let mut run = AgenticLoop::new(5, Vec::new(), true);
    run.step(&mut session, Event::Start);
    let step = run.step(&mut session, says("done"));
    assert_eq!(response(&step), "done");
}

#[test]
fn tools_run_in_order_and_their_results_follow() {
    let mut session = session();
    let mut run = AgenticLoop::new(5, vec![ChatMessage::user("do it")], false);
    run.step(&mut session, Event::Start);
    let step = run.step(
        &mut session,
        asks(vec![call("1", "time", "{}"), call("2", "echo", "{}")]),
    );
    assert!(matches!(&step.notices[..], [Notice::Thinking(t)] if t == "Executing 2 tool(s)..."));
    assert!(matches!(step.action, Action::LookUp));
    assert_eq!(session.threads[&5].turns[0].tool_calls.len(), 2);
    assert_eq!(run.current_call().unwrap().name, "time");

    let step = run.step(&mut session, Event::Found(None));
    assert!(matches!(step.action, Action::RunTool));
    assert!(matches!(&step.notices[..], [Notice::ToolStarted { name }] if name == "time"));
    let step = run.step(&mut session, Event::Ran(Ok("noon".to_string())));
    assert!(matches!(&step.action, Action::Wrap { output } if output == "noon"));
    assert!(matches!(
        &step.notices[..],
        [
            Notice::ToolCompleted { success: true, .. },
            Notice::ToolResult { preview, .. }
        ] if preview == "noon"
    ));
    let step = run.step(&mut session, Event::Wrapped("<noon>".to_string()));
    assert!(matches!(step.action, Action::LookUp));

    run.step(&mut session, Event::Found(None));
    let step = run.step(&mut session, Event::Ran(Err("broken".to_string())));
    assert!(matches!(step.action, Action::AskModel));

    let calls = &session.threads[&5].turns[0].tool_calls;
    assert_eq!(calls[0].result, Some(Value::String("noon".to_string())));
    assert_eq!(calls[1].error.as_deref(), Some("broken"));
    let messages = run.messages();
    assert_eq!(messages[1].tool_calls.len(), 2);
    assert_eq!(messages[2].content, "<noon>");
    assert_eq!(messages[2].tool_call_id.as_deref(), Some("1"));
    assert_eq!(messages[3].content, "Error: broken");
    assert_eq!(messages[3].tool_call_id.as_deref(), Some("2"));
    let step = run.step(&mut session, says("it is noon"));
    assert_eq!(response(&step), "it is noon");
}

#[test]
fn empty_output_is_not_shown() {
    let mut session = session();
    let mut run = AgenticLoop::new(5, Vec::new(), false);
    run.step(&mut session, Event::Start);
    run.step(&mut session, asks(vec![call("1", "time", "{}")]));
    run.step(&mut session, Event::Found(None));
    let step = run.step(&mut session, Event::Ran(Ok(String::new())));
    assert!(matches!(
        &step.notices[..],
        [Notice::ToolCompleted { success: true, .. }]
    ));
}

#[test]
fn guarded_tool_waits_for_an_approval() {
    let mut session = session();
    let mut run = AgenticLoop::new(5, vec![ChatMessage::user("do it")], false);
    run.step(&mut session, Event::Start);
    run.step(&mut session, asks(vec![call("c7", "http", r#"{"url": "x"}"#)]));
    let step = run.step(&mut session, guarded("Fetches a page"));
    match step.action {
        Action::Finish(Ok(AgenticLoopResult::NeedApproval { pending })) => {
            assert_eq!(pending.tool_name, "http");
            assert_eq!(pending.tool_call_id, "c7");
            assert_eq!(pending.description, "Fetches a page");
            assert_eq!(pending.parameters, json(r#"{"url": "x"}"#));
            assert_eq!(pending.context_messages.len(), 2);
        }
        _ => panic!("an approval was expected"),
    }
}

#[test]
fn approval_requests_have_ids_of_their_own() {
    let mut seen = Vec::new();
    for _ in 0..2 {
        let mut session = session();
        let mut run = AgenticLoop::new(5, Vec::new(), false);
        run.step(&mut session, Event::Start);
        run.step(&mut session, asks(vec![call("c", "http", "{}")]));
        match run.step(&mut session, guarded("d")).action {
            Action::Finish(Ok(AgenticLoopResult::NeedApproval { pending })) => {
                seen.push(pending.request_id)
            }
            _ => panic!("an approval was expected"),
        }
    }
    assert_ne!(seen[0], seen[1]);
}

#[test]
fn approved_tool_runs_without_asking() {
    let mut session = session();
    session.auto_approve_tool("http");
    let mut run = AgenticLoop::new(5, Vec::new(), false);
    run.step(&mut session, Event::Start);
    run.step(&mut session, asks(vec![call("c", "http", "{}")]));
    assert!(matches!(
        run.step(&mut session, guarded("d")).action,
        Action::RunTool
    ));
}

#[test]
fn shell_command_is_checked_each_time() {
    for (arguments, expected) in [
        (r#"{"command": "rm -rf x"}"#, Some("rm -rf x")),
        (r#""{\"command\": \"ls\"}""#, Some("ls")),
        (r#"{"cmd": "ls"}"#, None),
    ] {
        let mut session = session();
        session.auto_approve_tool("shell");
        let mut run = AgenticLoop::new(5, Vec::new(), false);
        run.step(&mut session, Event::Start);
        run.step(&mut session, asks(vec![call("c", "shell", arguments)]));
        let step = run.step(&mut session, guarded("d"));
        match expected {
            Some(c) => {
                assert!(matches!(&step.action, Action::CheckShell { command } if command == c));
                let step = run.step(&mut session, Event::ShellChecked { explicit: true });
                assert!(matches!(
                    step.action,
                    Action::Finish(Ok(AgenticLoopResult::NeedApproval { .. }))
                ));
            }
            None => assert!(matches!(step.action, Action::RunTool)),
        }
        assert_eq!(shell_command(&json(arguments)).as_deref(), expected);
    }
}

#[test]
fn harmless_shell_command_runs() {
    let mut session = session();
    session.auto_approve_tool("shell");
    let mut run = AgenticLoop::new(5, Vec::new(), false);
    run.step(&mut session, Event::Start);
    run.step(
        &mut session,
        asks(vec![call("c", "shell", r#"{"command": "ls"}"#)]),
    );
    run.step(&mut session, guarded("d"));
    let step = run.step(&mut session, Event::ShellChecked { explicit: false });
    assert!(matches!(step.action, Action::RunTool));
}

#[test]
fn tool_that_awaits_a_token_ends_the_run() {
    let mut session = session();
    let mut run = AgenticLoop::new(5, Vec::new(), false);
    run.step(&mut session, Event::Start);
    run.step(&mut session, asks(vec![call("c", "tool_activate", "{}")]));
    run.step(&mut session, Event::Found(None));
    let step = run.step(
        &mut session,
        Event::Ran(Ok(r#"{"awaiting_token": true, "name": "notion",
            "instructions": "Paste it", "setup_url": "https://s"}"#
            .to_string())),
    );
    assert_eq!(response(&step), "Paste it");
    assert!(matches!(
        step.notices.last(),
        Some(Notice::AuthRequired { extension_name, setup_url: Some(s), .. })
            if extension_name == "notion" && s == "https://s"
    ));
    assert_eq!(
        session.threads[&5]
            .pending_auth
            .as_ref()
            .unwrap()
            .extension_name,
        "notion"
    );
}

#[test]
fn model_is_asked_ten_times_at_most() {
    let mut session = session();
    let mut run = AgenticLoop::new(5, Vec::new(), false);
    let mut asked = 0;
    let mut step = run.step(&mut session, Event::Start);
    loop {
        match step.action {
            Action::AskModel => {
                asked += 1;
                step = run.step(&mut session, asks(Vec::new()));
            }
            Action::Finish(Err(LoopError::InvalidResponse { provider, reason })) => {
                assert_eq!(provider, "agent");
                assert_eq!(reason, "Exceeded maximum tool iterations (10)");
                break;
            }
            _ => panic!("only the model is asked"),
        }
    }
    assert_eq!(asked, 10);
}

#[test]
fn interrupted_thread_stops_the_run() {
    let mut session = session();
    let mut run = AgenticLoop::new(5, Vec::new(), false);
    run.step(&mut session, Event::Start);
    session.threads.get_mut(&5).unwrap().interrupt();
    let step = run.step(&mut session, asks(Vec::new()));
    match step.action {
        Action::Finish(Err(LoopError::ContextError { id, reason })) => {
            assert_eq!(id, 5);
            assert_eq!(reason, "Interrupted");
        }
        _ => panic!("the run stops"),
    }
}

#[test]
fn failing_model_ends_the_run() {
    let mut session = session();
    let mut run = AgenticLoop::new(5, Vec::new(), false);
    run.step(&mut session, Event::Start);
    let step = run.step(&mut session, Event::Reply(Err("overloaded".to_string())));
    assert!(matches!(
        step.action,
        Action::Finish(Err(LoopError::Other(e))) if e == "overloaded"
    ));
}

#[test]
fn flush_asks_three_times_at_most() {
    assert_eq!(
        flush_tools(),
        [
            "memory_write",
            "memory_read",
            "memory_search",
            "memory_append"
        ]
    );
    let mut flush = Flush::new("Remember");
    let mut asked = 0;
    let mut action = flush.step(FlushEvent::Start);
    while let FlushAction::AskModel = action {
        asked += 1;
        action = flush.step(FlushEvent::Reply(Ok(ModelReply::ToolCalls {
            tool_calls: vec![call("1", "memory_write", "{}")],
            content: None,
        })));
        assert!(matches!(action, FlushAction::RunTool));
        assert_eq!(flush.current_call().unwrap().name, "memory_write");
        action = flush.step(FlushEvent::Ran(if asked == 1 {
            Ok("saved".to_string())
        } else {
            Err("full".to_string())
        }));
    }
    assert!(matches!(action, FlushAction::Finish(Ok(()))));
    assert_eq!(asked, 3);
    // The prompt, and each call with its result after it.
    assert_eq!(flush.messages().len(), 7);
    assert_eq!(flush.messages()[1].role, Role::Assistant);
    assert_eq!(flush.messages()[1].tool_calls[0].id, "1");
    assert_eq!(flush.messages()[2].tool_call_id.as_deref(), Some("1"));
    assert_eq!(flush.messages()[2].content, "saved");
    assert_eq!(flush.messages()[4].content, "Error: full");
}

#[test]
fn flush_runs_memory_tools_only() {
    let mut flush = Flush::new("Remember");
    flush.step(FlushEvent::Start);
    let action = flush.step(FlushEvent::Reply(Ok(ModelReply::ToolCalls {
        tool_calls: vec![
            call("1", "shell", "{}"),
            call("2", "memory_read", "{}"),
            call("3", "http", "{}"),
        ],
        content: Some("Looking".to_string()),
    })));
    assert!(matches!(action, FlushAction::RunTool));
    assert_eq!(flush.current_call().unwrap().id, "2");
    let action = flush.step(FlushEvent::Ran(Ok("notes".to_string())));
    assert!(matches!(action, FlushAction::AskModel));
    let contents: Vec<&str> = flush
        .messages()
        .iter()
        .map(|m| m.content.as_str())
        .collect();
    assert_eq!(
        contents,
        [
            "Remember",
            "Looking",
            "Error: Tool shell is not available in a memory flush.",
            "notes",
            "Error: Tool http is not available in a memory flush.",
        ]
    );
}

#[test]
fn flush_ends_with_text_or_failure() {
    let mut flush = Flush::new("Remember");
    flush.step(FlushEvent::Start);
    let action = flush.step(FlushEvent::Reply(Ok(ModelReply::Text("NO_REPLY".to_string()))));
    assert!(matches!(action, FlushAction::Finish(Ok(()))));
    let mut flush = Flush::new("Remember");
    flush.step(FlushEvent::Start);
    let action = flush.step(FlushEvent::Reply(Err("down".to_string())));
    assert!(matches!(action, FlushAction::Finish(Err(e)) if e == "down"));
    assert!(matches!(flush.step(FlushEvent::Start), FlushAction::Ignore));
}

#[test]
fn tool_output_is_indented_json() {
    let output = tool_output(
        "time",
        Execution::Returned {
            result: json(r#"{"a":[1]}"#),
        },
    );
    assert!(matches!(output, Ok(s) if s == "{\n  \"a\": [\n    1\n  ]\n}"));
}

#[test]
fn tool_failures_name_the_tool() {
    let issues = vec![
        ValidationIssue {
            field: "url".to_string(),
            message: "missing".to_string(),
        },
        ValidationIssue {
            field: "n".to_string(),
            message: "too big".to_string(),
        },
    ];
    assert!(matches!(
        admit_tool("http", false, true, &issues),
        Err(ToolError::NotFound { name }) if name == "http"
    ));
    assert!(matches!(
        admit_tool("http", true, false, &issues),
        Err(ToolError::InvalidParameters { reason, .. })
            if reason == "Invalid tool parameters: url: missing; n: too big"
    ));
    assert!(admit_tool("http", true, true, &issues).is_ok());
    assert!(matches!(
        tool_output("http", Execution::TimedOut { timeout: 60 }),
        Err(ToolError::Timeout { timeout: 60, .. })
    ));
    assert!(matches!(
        tool_output("http", Execution::Failed { reason: "refused".to_string() }),
        Err(ToolError::ExecutionFailed { reason, .. }) if reason == "refused"
    ));
    assert!(matches!(
        written_output("http", Err("depth".to_string())),
        Err(ToolError::ExecutionFailed { reason, .. })
            if reason == "Failed to serialize result: depth"
    ));
}
