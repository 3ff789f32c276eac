use agent_loop::agentic::AgenticLoopResult;
use agent_loop::approval::{bind_approval_target, should_route_as_approval, Binding};
use agent_loop::approval_run::{ApprovalEvent, ApprovalPhase, ApprovalRun, ApprovalWork};
use agent_loop::chat::{ChatMessage, Role, ToolCall};
use agent_loop::notice::Notice;
use agent_loop::session::{PendingApproval, Session, ThreadState};
use agent_loop::submission::{LoopError, Submission, SubmissionResult};
use serde_json::Value;
use uuid::Uuid;

fn waiting_session(id: u128) -> Session {
    let mut session = Session::new(0);
    session.create_thread_with_id(id, Some("gateway".to_string()));
    let thread = session.threads.get_mut(&id).unwrap();
    thread.start_turn("list files".to_string());
    thread
        .turns
        .last_mut()
        .unwrap()
        .record_tool_call("shell", Value::Null);
    thread.await_approval(PendingApproval {
        request_id: 77,
        tool_name: "shell".to_string(),
        parameters: Value::Null,
        description: "Runs a command".to_string(),
        tool_call_id: "call-1".to_string(),
        context_messages: vec![
            ChatMessage::user("list files"),
            ChatMessage::assistant_with_tool_calls(
                None,
                vec![ToolCall {
                    id: "call-1".to_string(),
                    name: "shell".to_string(),
                    arguments: Value::Null,
                }],
            ),
        ],
    });
    session
}

fn answer(request_id: Option<u128>, approved: bool, always: bool) -> ApprovalEvent {
    ApprovalEvent::Answered {
        request_id,
        approved,
        always,
    }
}

fn error_text(work: &ApprovalWork) -> String {
    match work {
        ApprovalWork::Finish {
            result: SubmissionResult::Error { message },
            ..
        } => message.clone(),
        _ => panic!("an error was expected"),
    }
}

#[test]
fn should_route_as_approval_rejects_bare_keywords_when_idle() {
    // Bare keywords with non-approval thread states are taken as user input
    for state in [
        ThreadState::Idle,
        ThreadState::Processing,
        ThreadState::Completed,
        ThreadState::Interrupted,
    ] {
        assert!(
            !should_route_as_approval(state, "yes"),
            "bare 'yes' should not route as approval in {state:?}"
        );
        assert!(
            !should_route_as_approval(state, "no"),
            "bare 'no' should not route as approval in {state:?}"
        );
        assert!(
            !should_route_as_approval(state, "always"),
            "bare 'always' should not route as approval in {state:?}"
        );
        assert!(
            !should_route_as_approval(state, "ok"),
            "bare 'ok' should not route as approval in {state:?}"
        );
    }
}

#[test]
fn should_route_as_approval_accepts_keywords_when_awaiting() {
    assert!(should_route_as_approval(
        ThreadState::AwaitingApproval,
        "yes"
    ));
    assert!(should_route_as_approval(ThreadState::AwaitingApproval, "no"));
    assert!(should_route_as_approval(
        ThreadState::AwaitingApproval,
        "always"
    ));
}

#[test]
fn should_route_as_approval_always_routes_slash_commands() {
    assert!(should_route_as_approval(ThreadState::Idle, "/approve"));
    assert!(should_route_as_approval(ThreadState::Idle, "/deny"));
    assert!(should_route_as_approval(ThreadState::Idle, "/yes"));
    assert!(should_route_as_approval(ThreadState::Processing, "/always"));
}

#[test]
fn approval_guard_rejects_exec_but_allows_bare_keywords_when_no_pending() {
    // The thread has no pending approval.
    let target = 5;
    let mut session = Session::new(0);
    session.create_thread_with_id(target, None);
    session.create_thread_with_id(6, None);

    let response = Submission::ApprovalResponse {
        approved: true,
        always: false,
    };
    let explicit = matches!(response, Submission::ExecApproval { .. });
    assert!(
        bind_approval_target(&mut session, target, explicit, true, 9) == Binding::Bound,
        "ApprovalResponse with no pending approval must not be early-rejected"
    );

    let exec = Submission::ExecApproval {
        request_id: Uuid::new_v4().as_u128(),
        approved: true,
        always: false,
    };
    let explicit = matches!(exec, Submission::ExecApproval { .. });
    assert!(
        bind_approval_target(&mut session, target, explicit, true, 9) == Binding::NothingPending,
        "ExecApproval with no pending approval must be early-rejected"
    );

    // When a pending approval is present, neither is early-rejected.
    let mut session = waiting_session(target);
    let exec = Submission::ExecApproval {
        request_id: Uuid::new_v4().as_u128(),
        approved: true,
        always: false,
    };
    let explicit = matches!(exec, Submission::ExecApproval { .. });
    assert!(
        bind_approval_target(&mut session, target, explicit, true, 9) == Binding::Bound,
        "ExecApproval with pending approval must not be early-rejected"
    );
}

#[test]
fn refused_bindings_leave_the_session_alone() {
    let mut session = waiting_session(5);
    session.create_thread_with_id(6, None);

    let refused = bind_approval_target(&mut session, 5, true, false, 9);
    assert_eq!(refused, Binding::NotAuthorized);
    assert_eq!(
        refused.refusal_text(),
        Some("Error: approval not authorized for this channel")
    );
    let refused = bind_approval_target(&mut session, 6, true, true, 9);
    assert_eq!(
        refused.refusal_text(),
        Some("Error: no pending approval on this thread")
    );
    assert_eq!(
        bind_approval_target(&mut session, 7, true, true, 9),
        Binding::Absent
    );
    assert_eq!(session.active_thread, Some(6));
    assert_eq!(session.last_active_at, 0);

    assert_eq!(
        bind_approval_target(&mut session, 5, true, true, 9),
        Binding::Bound
    );
    assert_eq!(session.active_thread, Some(5));
    assert_eq!(session.last_active_at, 9);
}

#[test]
fn answer_without_a_request_is_refused() {
    let mut session = Session::new(0);
    session.create_thread_with_id(5, None);
    let mut run = ApprovalRun::new(5);
    let action = run.step(&mut session, answer(None, true, false));
    assert_eq!(error_text(&action.work), "No pending approval request.");

    let mut run = ApprovalRun::new(99);
    let action = run.step(&mut session, answer(None, true, false));
    assert!(matches!(
        action.work,
        ApprovalWork::Fail(LoopError::NotFound { id: 99 })
    ));
}

#[test]
fn answer_to_another_request_keeps_the_pending_one() {
    let mut session = waiting_session(5);
    let mut run = ApprovalRun::new(5);
    let action = run.step(&mut session, answer(Some(78), true, true));
    assert_eq!(
        error_text(&action.work),
        "Request ID mismatch. Use the correct request ID."
    );
    let thread = &session.threads[&5];
    assert_eq!(thread.state, ThreadState::AwaitingApproval);
    assert_eq!(thread.pending_approval.as_ref().unwrap().request_id, 77);
    assert!(!session.is_tool_auto_approved("shell"));
}

#[test]
fn rejection_ends_the_request() {
    let mut session = waiting_session(5);
    let mut run = ApprovalRun::new(5);
    let action = run.step(&mut session, answer(Some(77), false, true));
    match action.work {
        ApprovalWork::Finish {
            result: SubmissionResult::Response { content },
            ..
        } => assert_eq!(
            content,
            "Tool 'shell' was rejected. The agent will not execute this tool.\n\n\
             You can continue the conversation or try a different approach."
        ),
        _ => panic!("a reply was expected"),
    }
    assert!(matches!(&action.notices[..], [Notice::Status(s)] if s == "Rejected"));
    assert_eq!(session.threads[&5].state, ThreadState::Idle);
    assert!(session.threads[&5].pending_approval.is_none());
    assert!(!session.is_tool_auto_approved("shell"));
}

#[test]
fn approved_tool_runs_and_the_loop_resumes() {
    let mut session = waiting_session(5);
    let mut run = ApprovalRun::new(5);
    let action = run.step(&mut session, answer(Some(77), true, true));
    assert!(matches!(action.work, ApprovalWork::RunTool));
    assert!(matches!(&action.notices[..], [Notice::ToolStarted { name }] if name == "shell"));
    assert_eq!(session.threads[&5].state, ThreadState::Processing);
    assert!(session.is_tool_auto_approved("shell"));
    assert_eq!(run.pending.as_ref().unwrap().tool_name, "shell");

    let action = run.step(&mut session, ApprovalEvent::Ran(Ok("a.txt".to_string())));
    assert!(matches!(&action.work, ApprovalWork::Wrap { output } if output == "a.txt"));
    assert_eq!(action.notices.len(), 2);
    let recorded = &session.threads[&5].turns[0].tool_calls[0];
    assert_eq!(recorded.result, Some(Value::String("a.txt".to_string())));

    let action = run.step(&mut session, ApprovalEvent::Wrapped("<a.txt>".to_string()));
    match action.work {
        ApprovalWork::RunLoop { messages } => {
            assert_eq!(messages.len(), 3);
            assert_eq!(messages[2].role, Role::Tool);
            assert_eq!(messages[2].content, "<a.txt>");
            assert_eq!(messages[2].tool_call_id.as_deref(), Some("call-1"));
        }
        _ => panic!("the loop resumes"),
    }

    let action = run.step(
        &mut session,
        ApprovalEvent::LoopEnded {
            result: Ok(AgenticLoopResult::Response("there is a.txt".to_string())),
            chain_id: Some("resp-9".to_string()),
        },
    );
    assert!(matches!(
        &action.work,
        ApprovalWork::Finish { chain_id: Some(id), result: SubmissionResult::Response { content } }
            if id == "resp-9" && content == "there is a.txt"
    ));
    assert!(action.notices.is_empty());
    let thread = &session.threads[&5];
    assert_eq!(thread.state, ThreadState::Idle);
    assert_eq!(thread.last_response_id.as_deref(), Some("resp-9"));
    assert_eq!(thread.turns[0].response.as_deref(), Some("there is a.txt"));
    assert_eq!(run.phase, ApprovalPhase::Ended);
}

#[test]
fn failed_tool_is_shown_to_the_model_as_an_error() {
    let mut session = waiting_session(5);
    let mut run = ApprovalRun::new(5);
    run.step(&mut session, answer(None, true, false));
    let action = run.step(&mut session, ApprovalEvent::Ran(Err("no such file".to_string())));
    match action.work {
        ApprovalWork::RunLoop { messages } => {
            assert_eq!(messages[2].content, "Error: no such file")
        }
        _ => panic!("the loop resumes"),
    }
    assert!(matches!(
        &action.notices[..],
        [Notice::ToolCompleted { name, success: false }] if name == "shell"
    ));
    let recorded = &session.threads[&5].turns[0].tool_calls[0];
    assert_eq!(recorded.error.as_deref(), Some("no such file"));

    let action = run.step(
        &mut session,
        ApprovalEvent::LoopEnded {
            result: Err("model gone".to_string()),
            chain_id: None,
        },
    );
    assert_eq!(error_text(&action.work), "model gone");
    assert_eq!(
        session.threads[&5].turns[0].error.as_deref(),
        Some("model gone")
    );
}

#[test]
fn approved_tool_can_ask_for_a_token() {
    let mut session = waiting_session(5);
    session
        .threads
        .get_mut(&5)
        .unwrap()
        .pending_approval
        .as_mut()
        .unwrap()
        .tool_name = "tool_auth".to_string();
    let mut run = ApprovalRun::new(5);
    run.step(&mut session, answer(None, true, false));
    let action = run.step(
        &mut session,
        ApprovalEvent::Ran(Ok(
            r#"{"awaiting_token": true, "name": "notion", "auth_url": "https://n"}"#.to_string(),
        )),
    );
    assert!(matches!(
        &action.work,
        ApprovalWork::Finish { result: SubmissionResult::Response { content }, .. }
            if content == "Please provide your API token/key."
    ));
    match action.notices.last() {
        Some(Notice::AuthRequired {
            extension_name,
            auth_url,
            setup_url,
            ..
        }) => {
            assert_eq!(extension_name, "notion");
            assert_eq!(auth_url.as_deref(), Some("https://n"));
            assert!(setup_url.is_none());
        }
        _ => panic!("the user is asked for a token"),
    }
    let thread = &session.threads[&5];
    assert_eq!(thread.pending_auth.as_ref().unwrap().extension_name, "notion");
    assert_eq!(thread.state, ThreadState::Idle);
    assert_eq!(
        thread.turns[0].response.as_deref(),
        Some("Please provide your API token/key.")
    );
}

#[test]
fn approval_events_out_of_turn_change_nothing() {
    let mut session = waiting_session(5);
    let mut run = ApprovalRun::new(5);
    let action = run.step(&mut session, ApprovalEvent::Ran(Ok("x".to_string())));
    assert!(matches!(action.work, ApprovalWork::Ignore));
    assert_eq!(run.phase, ApprovalPhase::Ready);
    assert_eq!(session.threads[&5].state, ThreadState::AwaitingApproval);
}
