use agent_loop::agentic::AgenticLoopResult;
use agent_loop::chat::{ChatMessage, Role};
use agent_loop::clock::daily_reset_due;
use agent_loop::commands::MessageIntent;
use agent_loop::compaction::{
    begin_compaction, begin_compaction_if_counted, manual_compaction, record_compaction,
    CompactionChoice,
};
use agent_loop::dispatch::{
    conclude_handling, drain, handle_bound, queued_message, Dispatch, DrainStep, Handling,
    HandlingEnd, ResetClock,
};
use agent_loop::message::IncomingMessage;
use agent_loop::notice::Notice;
use agent_loop::outcome::{conclude_pairing, BridgeOutcome, HandleOutcome};
use agent_loop::session::{PendingApproval, Session, ThreadState};
use agent_loop::store::{
    chain_field, hydrate, loaded_messages, thread_named, turn_writes, Hydration, StoreWrite,
    StoredMessage,
};
use agent_loop::submission::{LoopError, PlanSubcommand, Submission, SubmissionResult};
use agent_loop::thread_ops::{
    begin_redo, begin_undo, clear, conclude_compaction, finish_redo, finish_undo, interrupt,
    new_thread, new_thread_with_id, resume, switch_thread, Checkpoint, CompactionReport,
    HistoryStep,
};
use agent_loop::turn::{PolicyAction, ValidationIssue};
use agent_loop::user_turn::{TurnAction, TurnEvent, TurnPhase, TurnSetup, UserTurn};
use serde_json::Value;
use uuid::Uuid;

fn json(text: &str) -> Value {
    serde_json::from_str(text).unwrap()
}

fn session() -> Session {
    let mut session = Session::new(0);
    session.create_thread_with_id(5, None);
    session
}

fn setup() -> TurnSetup {
    TurnSetup {
        has_store: true,
        has_workspace: true,
        flush_enabled: true,
    }
}

fn passed() -> TurnEvent {
    TurnEvent::Checked {
        is_valid: true,
        issues: Vec::new(),
        violations: vec![PolicyAction::Report],
    }
}

fn refusal(action: &TurnAction) -> String {
    match action {
        TurnAction::Finish {
            result: SubmissionResult::Error { message },
            ..
        } => message.clone(),
        _ => panic!("a refusal was expected"),
    }
}

fn acknowledged(result: &SubmissionResult) -> String {
    match result {
        SubmissionResult::Acknowledged {
            message: Some(message),
        } => message.clone(),
        _ => panic!("an acknowledgement was expected"),
    }
}

fn complaint(result: &SubmissionResult) -> String {
    match result {
        SubmissionResult::Error { message } => message.clone(),
        _ => panic!("an error was expected"),
    }
}

#[test]
fn busy_threads_take_no_text() {
    for (state, text) in [
        (
            ThreadState::AwaitingApproval,
            "Waiting for approval. Use /interrupt to cancel.",
        ),
        (
            ThreadState::Completed,
            "Thread completed. Use /thread new.",
        ),
    ] {
        let mut session = session();
        session.threads.get_mut(&5).unwrap().state = state;
        let mut turn = UserTurn::new(5, "hi".to_string(), setup());
        let action = turn.step(&mut session, TurnEvent::Begin);
        assert_eq!(refusal(&action), text);
        assert!(session.threads[&5].turns.is_empty());
    }
    let mut session = session();
    let mut turn = UserTurn::new(6, "hi".to_string(), setup());
    assert!(matches!(
        turn.step(&mut session, TurnEvent::Begin),
        TurnAction::Fail(LoopError::NotFound { id: 6 })
    ));
}

#[test]
fn text_for_a_running_turn_is_queued() {
    let mut session = session();
    let thread = session.threads.get_mut(&5).unwrap();
    thread.start_turn("first".to_string());
    thread.queue_message("second".to_string());
    let mut turn = UserTurn::new(5, "third".to_string(), setup());
    match turn.step(&mut session, TurnEvent::Begin) {
        TurnAction::Finish {
            chain_id: None,
            notices,
            writes,
            result,
        } => {
            assert!(notices.is_empty());
            assert!(writes.is_empty());
            assert_eq!(acknowledged(&result), "Message queued.");
        }
        _ => panic!("the text waits"),
    }
    assert_eq!(turn.phase, TurnPhase::Ended);
    let thread = &session.threads[&5];
    assert_eq!(thread.state, ThreadState::Processing);
    assert_eq!(thread.turns.len(), 1);
    assert_eq!(thread.pending_messages, ["second", "third"]);

    let result = Ok(SubmissionResult::response("done"));
    match drain(&mut session, 5, result, None) {
        DrainStep::Next { content, .. } => assert_eq!(content, "second\nthird"),
        DrainStep::Finish(_) => panic!("the queued text is handled"),
    }
}

#[test]
fn unsafe_text_is_refused() {
    let mut session = session();
    let mut turn = UserTurn::new(5, "hi".to_string(), setup());
    assert!(matches!(
        turn.step(&mut session, TurnEvent::Begin),
        TurnAction::Check
    ));
    let action = turn.step(
        &mut session,
        TurnEvent::Checked {
            is_valid: false,
            issues: vec![
                ValidationIssue {
                    field: "input".to_string(),
                    message: "too long".to_string(),
                },
                ValidationIssue {
                    field: "input".to_string(),
                    message: "odd".to_string(),
                },
            ],
            violations: Vec::new(),
        },
    );
    assert_eq!(
        refusal(&action),
        "Input rejected by safety validation: input: too long; input: odd"
    );

    let mut turn = UserTurn::new(5, "hi".to_string(), setup());
    turn.step(&mut session, TurnEvent::Begin);
    let action = turn.step(
        &mut session,
        TurnEvent::Checked {
            is_valid: true,
            issues: Vec::new(),
            violations: vec![PolicyAction::Report, PolicyAction::Block],
        },
    );
    assert_eq!(refusal(&action), "Input rejected by safety policy.");
    assert_eq!(turn.phase, TurnPhase::Ended);
}

#[test]
fn commands_are_handed_on() {
    let mut session = session();
    let mut turn = UserTurn::new(5, "/list".to_string(), setup());
    turn.step(&mut session, TurnEvent::Begin);
    assert!(matches!(
        turn.step(&mut session, passed()),
        TurnAction::Route
    ));
    let action = turn.step(
        &mut session,
        TurnEvent::Routed(Some(MessageIntent::ListJobs { filter: None })),
    );
    assert!(matches!(
        action,
        TurnAction::Delegate(MessageIntent::ListJobs { filter: None })
    ));
    assert!(session.threads[&5].turns.is_empty());
}

#[test]
fn turn_runs_from_text_to_reply() {
    let mut session = session();
    let mut turn = UserTurn::new(5, "hi".to_string(), setup());
    turn.step(&mut session, TurnEvent::Begin);
    turn.step(&mut session, passed());
    let action = turn.step(&mut session, TurnEvent::Routed(None));
    assert!(matches!(action, TurnAction::Measure { messages } if messages.is_empty()));
    let action = turn.step(&mut session, TurnEvent::Measured { compact: true });
    assert!(matches!(action, TurnAction::Flush));
    let action = turn.step(&mut session, TurnEvent::Flushed);
    assert!(matches!(action, TurnAction::Compact));
    assert_eq!(
        session.threads[&5].metadata,
        json(r#"{"compaction_count": 1, "memory_flush_compaction_count": 1}"#)
    );
    let action = turn.step(&mut session, TurnEvent::Compacted);
    match action {
        TurnAction::TakeCheckpoint(c) => {
            assert_eq!(c.turn_number, 1);
            assert_eq!(c.description, "Before turn 1");
            assert!(c.messages.is_empty());
        }
        _ => panic!("a checkpoint was expected"),
    }
    let action = turn.step(&mut session, TurnEvent::CheckpointTaken);
    match action {
        TurnAction::RunLoop { notice, messages } => {
            assert!(matches!(notice, Notice::Thinking(t) if t == "Processing..."));
            assert_eq!(messages.len(), 1);
            assert_eq!(messages[0].content, "hi");
            assert_eq!(messages[0].role, Role::User);
        }
        _ => panic!("the loop runs"),
    }
    assert_eq!(session.threads[&5].state, ThreadState::Processing);
    let action = turn.step(
        &mut session,
        TurnEvent::LoopEnded {
            result: Ok(AgenticLoopResult::Response("hello".to_string())),
            chain_id: Some("r1".to_string()),
        },
    );
    match action {
        TurnAction::Finish {
            chain_id,
            notices,
            writes,
            result,
        } => {
            assert_eq!(chain_id.as_deref(), Some("r1"));
            assert!(notices.is_empty());
            assert_eq!(writes.len(), 3);
            assert!(matches!(result, SubmissionResult::Response { content } if content == "hello"));
        }
        _ => panic!("the turn ends"),
    }
    let thread = &session.threads[&5];
    assert_eq!(thread.state, ThreadState::Idle);
    assert_eq!(thread.turns[0].response.as_deref(), Some("hello"));
    assert_eq!(thread.last_response_id.as_deref(), Some("r1"));
}

fn running(session: &mut Session) -> UserTurn {
    let mut turn = UserTurn::new(5, "hi".to_string(), setup());
    turn.step(session, TurnEvent::Begin);
    turn.step(session, passed());
    turn.step(session, TurnEvent::Routed(None));
    turn.step(session, TurnEvent::Measured { compact: false });
    turn.step(session, TurnEvent::CheckpointTaken);
    turn
}

#[test]
fn interrupted_turn_keeps_nothing_of_its_result() {
    let mut session = session();
    let mut turn = running(&mut session);
    let result = interrupt(&mut session, 5);
    assert_eq!(acknowledged(&result.ok().unwrap()), "Interrupted.");
    let action = turn.step(
        &mut session,
        TurnEvent::LoopEnded {
            result: Ok(AgenticLoopResult::Response("late".to_string())),
            chain_id: Some("r2".to_string()),
        },
    );
    match action {
        TurnAction::Finish {
            chain_id,
            notices,
            writes,
            result,
        } => {
            assert!(chain_id.is_none());
            assert!(matches!(&notices[..], [Notice::Status(s)] if s == "Interrupted"));
            assert!(writes.is_empty());
            assert!(matches!(result, SubmissionResult::Interrupted));
        }
        _ => panic!("the turn ends"),
    }
    assert!(session.threads[&5].turns[0].response.is_none());
}

#[test]
fn failed_turn_keeps_the_text() {
    let mut session = session();
    let mut turn = running(&mut session);
    let action = turn.step(
        &mut session,
        TurnEvent::LoopEnded {
            result: Err("no model".to_string()),
            chain_id: Some("ignored".to_string()),
        },
    );
    match action {
        TurnAction::Finish {
            chain_id,
            notices,
            writes,
            result,
        } => {
            assert!(chain_id.is_none());
            assert!(notices.is_empty());
            assert_eq!(writes.len(), 2);
            assert_eq!(complaint(&result), "no model");
        }
        _ => panic!("the turn ends"),
    }
    let thread = &session.threads[&5];
    assert_eq!(thread.turns[0].error.as_deref(), Some("no model"));
    assert!(thread.last_response_id.is_none());
}

#[test]
fn turn_can_end_with_a_pending_approval() {
    let mut session = session();
    let mut turn = running(&mut session);
    let action = turn.step(
        &mut session,
        TurnEvent::LoopEnded {
            result: Ok(AgenticLoopResult::NeedApproval {
                pending: PendingApproval {
                    request_id: 3,
                    tool_name: "http".to_string(),
                    parameters: json("[1]"),
                    description: "Fetches".to_string(),
                    tool_call_id: "c".to_string(),
                    context_messages: Vec::new(),
                },
            }),
            chain_id: None,
        },
    );
    match action {
        TurnAction::Finish {
            chain_id,
            notices,
            writes,
            result,
        } => {
            assert!(chain_id.is_none());
            assert!(matches!(
                &notices[..],
                [
                    Notice::ApprovalNeeded {
                        request_id: 3,
                        tool_name: tool,
                        description: about,
                        parameters: given,
                    },
                    Notice::Status(s),
                ] if tool == "http" && about == "Fetches" && *given == json("[1]")
                    && s == "Awaiting approval"
            ));
            assert!(writes.is_empty());
            match result {
                SubmissionResult::NeedApproval {
                    request_id,
                    tool_name,
                    description,
                    parameters,
                } => {
                    assert_eq!(request_id, 3);
                    assert_eq!(tool_name, "http");
                    assert_eq!(description, "Fetches");
                    assert_eq!(parameters, json("[1]"));
                }
                _ => panic!("an approval is needed"),
            }
        }
        _ => panic!("the turn ends"),
    }
    assert_eq!(session.threads[&5].state, ThreadState::AwaitingApproval);
}

#[test]
fn turn_events_out_of_turn_change_nothing() {
    let mut session = session();
    let mut turn = UserTurn::new(5, "hi".to_string(), setup());
    let action = turn.step(&mut session, TurnEvent::Compacted);
    assert!(matches!(action, TurnAction::Ignore));
    assert_eq!(turn.phase, TurnPhase::Ready);
}

#[test]
fn memory_is_flushed_once_per_compaction() {
    let mut session = session();
    let first = begin_compaction(&mut session, 5, true, true).ok().unwrap();
    assert_eq!(first.count, 1);
    assert!(first.run_flush);
    let again = begin_compaction(&mut session, 5, true, true).ok().unwrap();
    assert_eq!(again.count, 1);
    assert!(!again.run_flush);
    assert!(record_compaction(&mut session, 5, 1).is_ok());
    let next = begin_compaction(&mut session, 5, true, true).ok().unwrap();
    assert_eq!(next.count, 2);
    assert!(next.run_flush);
    let off = begin_compaction(&mut session, 5, false, true).ok().unwrap();
    assert!(!off.run_flush);
    assert!(matches!(
        record_compaction(&mut session, 9, 1),
        Err(LoopError::NotFound { id: 9 })
    ));
}

#[test]
fn exhausted_count_is_not_counted_further() {
    let mut session = session();
    session.threads.get_mut(&5).unwrap().metadata =
        json(r#"{"compaction_count": 18446744073709551615}"#);
    assert!(begin_compaction_if_counted(&mut session, 5, true, true).is_none());
    let mut turn = UserTurn::new(5, "hi".to_string(), setup());
    turn.step(&mut session, TurnEvent::Begin);
    turn.step(&mut session, passed());
    turn.step(&mut session, TurnEvent::Routed(None));
    let action = turn.step(&mut session, TurnEvent::Measured { compact: true });
    assert!(matches!(action, TurnAction::TakeCheckpoint(_)));
}

#[test]
fn compaction_is_reported() {
    assert_eq!(
        manual_compaction(false),
        CompactionChoice::Summarize { keep_recent: 5 }
    );
    assert_eq!(manual_compaction(true), CompactionChoice::Suggested);
    let report = CompactionReport {
        turns_removed: 3,
        tokens_before: 900,
        tokens_after: 100,
        summary_written: true,
    };
    assert_eq!(
        acknowledged(&conclude_compaction(Ok(report), "81.5")),
        "Compacted: 3 turns removed, 900 → 100 tokens (was 81.5% full), summary saved to workspace"
    );
    assert_eq!(
        complaint(&conclude_compaction(Err("x".to_string()), "1.0")),
        "Compaction failed: x"
    );
}

#[test]
fn queued_text_is_merged_into_one_turn() {
    let mut session = session();
    session.threads.get_mut(&5).unwrap().pending_messages =
        vec!["one".to_string(), "two".to_string()];
    let reply = || {
        Ok(SubmissionResult::Response {
            content: "first".to_string(),
        })
    };
    match drain(&mut session, 5, reply(), None) {
        DrainStep::Next { response, content } => {
            assert_eq!(response.content, "first");
            assert_eq!(content, "one\ntwo");
        }
        _ => panic!("more text is queued"),
    }
    assert!(session.threads[&5].pending_messages.is_empty());
    session.threads.get_mut(&5).unwrap().pending_messages = vec!["three".to_string()];
    let failed = Err(LoopError::Other("down".to_string()));
    assert!(matches!(
        drain(&mut session, 5, failed, Some("one\ntwo".to_string())),
        DrainStep::Finish(Err(LoopError::Other(_)))
    ));
    assert_eq!(
        session.threads[&5].pending_messages,
        ["one\ntwo", "three"]
    );
    let mut empty = self::session();
    assert!(matches!(
        drain(&mut empty, 5, reply(), None),
        DrainStep::Finish(Ok(SubmissionResult::Response { .. }))
    ));
}

#[test]
fn queued_message_has_no_files() {
    let mut message = IncomingMessage::new("gateway", "alice", "hi").with_thread("t");
    message.metadata = json(r#"{"a": 1}"#);
    message.structured_submission = Some(Submission::SystemCommand {
        command: "model".to_string(),
        args: vec!["small".to_string()],
    });
    let queued = queued_message(&message);
    assert!(matches!(
        queued.structured_submission,
        Some(Submission::SystemCommand { command, args }) if command == "model" && args == ["small"]
    ));
    assert_eq!(queued.channel, "gateway");
    assert_eq!(queued.thread_id.as_deref(), Some("t"));
    assert_eq!(queued.metadata, json(r#"{"a": 1}"#));
    assert!(queued.attachments.is_empty());
}

fn no_reset() -> ResetClock {
    ResetClock {
        reset_hour: None,
        last_active: None,
        now: 0,
    }
}

fn text(content: &str) -> Submission {
    Submission::UserInput {
        content: content.to_string(),
    }
}

#[test]
fn awaited_tokens_go_to_the_extension() {
    let message = IncomingMessage::new("gateway", "alice", "secret");
    let mut session = session();
    session
        .threads
        .get_mut(&5)
        .unwrap()
        .enter_auth_mode("notion".to_string());
    match handle_bound(&mut session, 5, text("secret"), &message, false, &no_reset()) {
        Handling::Token {
            extension_name,
            token,
        } => {
            assert_eq!(extension_name, "notion");
            assert_eq!(token, "secret");
        }
        _ => panic!("the text is a token"),
    }
    match handle_bound(&mut session, 5, text("secret"), &message, true, &no_reset()) {
        Handling::Reply { text } => assert_eq!(
            text,
            "Authentication for **notion** expired. Please try again."
        ),
        _ => panic!("the token came too late"),
    }
    assert!(session.threads[&5].pending_auth.is_none());
    session
        .threads
        .get_mut(&5)
        .unwrap()
        .enter_auth_mode("notion".to_string());
    match handle_bound(&mut session, 5, Submission::Undo, &message, false, &no_reset()) {
        Handling::Run { audit, handler } => {
            assert_eq!(audit.as_deref(), Some("undo"));
            assert!(matches!(handler, Dispatch::Undo));
        }
        _ => panic!("a control command passes"),
    }
    assert!(session.threads[&5].pending_auth.is_none());
}

#[test]
fn first_text_after_the_reset_hour_begins_anew() {
    // Half past four on a day that began at 864000.
    let now = 864000 + 4 * 3600 + 1800;
    assert!(daily_reset_due(Some(4), Some(864000), now));
    assert!(!daily_reset_due(Some(4), Some(864000 + 4 * 3600), now));
    assert!(!daily_reset_due(Some(5), Some(0), now));
    assert!(!daily_reset_due(Some(24), Some(0), now));
    assert!(!daily_reset_due(None, Some(0), now));
    assert!(!daily_reset_due(Some(4), None, now));
    assert!(!daily_reset_due(Some(0), Some(0), i64::MAX));
    // The first and the last moment of the calendar, and those beyond.
    assert!(daily_reset_due(Some(0), Some(0), 8210266876799));
    assert!(!daily_reset_due(Some(0), Some(0), 8210266876800));
    assert!(daily_reset_due(Some(0), Some(i64::MIN), -8334601228800));
    assert!(!daily_reset_due(Some(0), Some(i64::MIN), -8334601228801));

    let message = IncomingMessage::new("gateway", "alice", "hi");
    let clock = ResetClock {
        reset_hour: Some(4),
        last_active: Some(0),
        now,
    };
    let mut session = session();
    assert!(matches!(
        handle_bound(&mut session, 5, text("hi"), &message, false, &clock),
        Handling::Reset { content } if content == "hi"
    ));
    // The text that the hooks let through, not that of the message.
    assert!(matches!(
        handle_bound(&mut session, 5, text("changed"), &message, false, &clock),
        Handling::Reset { content } if content == "changed"
    ));
    assert!(matches!(
        handle_bound(&mut session, 5, Submission::Redo, &message, false, &clock),
        Handling::Run { .. }
    ));
}

#[test]
fn handlers_are_found() {
    let mut session = session();
    let message = IncomingMessage::new("gateway", "alice", "yes");
    let mut run = |submission: Submission| match handle_bound(
        &mut session,
        5,
        submission,
        &message,
        false,
        &no_reset(),
    ) {
        Handling::Run { handler, .. } => handler,
        _ => panic!("a handler was expected"),
    };
    assert!(matches!(run(text("hi")), Dispatch::UserInput { content } if content == "hi"));
    assert!(matches!(run(Submission::Quit), Dispatch::Quit));
    assert!(matches!(
        run(Submission::SystemCommand { command: "reasoning".to_string(), args: vec!["1".to_string()] }),
        Dispatch::Reasoning { args } if args == ["1"]
    ));
    assert!(matches!(
        run(Submission::SystemCommand {
            command: "help".to_string(),
            args: Vec::new()
        }),
        Dispatch::SystemCommand { .. }
    ));
    assert!(matches!(
        run(Submission::ApprovalResponse { approved: true, always: false }),
        Dispatch::HookedInput { content } if content == "yes"
    ));
    assert!(matches!(
        run(Submission::ExecApproval {
            request_id: 9,
            approved: true,
            always: false
        }),
        Dispatch::Approval {
            request_id: Some(9),
            approved: true,
            always: false
        }
    ));
    assert!(matches!(
        run(Submission::ExternalCallback { request_id: 1 }),
        Dispatch::Refused(r) if complaint(&r) == "External callbacks require ENGINE_V2"
    ));
    assert!(matches!(
        run(Submission::Expected {
            description: "x".to_string()
        }),
        Dispatch::Unsupported
    ));
    assert!(matches!(
        run(Submission::Plan {
            sub: PlanSubcommand::Approve { plan_ref: None }
        }),
        Dispatch::Prompt { content } if content
            == "[PLAN MODE] Approve and execute plan the most recent plan. Create a mission \
                from the plan content using mission_create, then fire it with mission_fire."
    ));
}

#[test]
fn plan_commands_become_prompts() {
    let mut session = session();
    let message = IncomingMessage::new("gateway", "alice", "/plan");
    for (sub, prompt) in [
        (
            PlanSubcommand::Create {
                description: "a garden".to_string(),
            },
            "[PLAN MODE] Create a plan for: a garden",
        ),
        (
            PlanSubcommand::Status {
                plan_ref: Some("p1".to_string()),
            },
            "[PLAN MODE] Show status of plan p1. Check the associated mission's \
             thread_history, current_focus, and approach_history.",
        ),
        (
            PlanSubcommand::Revise {
                plan_ref: None,
                feedback: "shorter".to_string(),
            },
            "[PLAN MODE] Revise plan the most recent plan based on: shorter",
        ),
        (
            PlanSubcommand::List,
            "[PLAN MODE] List all plans. Search memory for plan documents and show their status.",
        ),
    ] {
        let submission = Submission::Plan { sub };
        match handle_bound(&mut session, 5, submission, &message, false, &no_reset()) {
            Handling::Run {
                handler: Dispatch::Prompt { content },
                audit,
            } => {
                assert_eq!(content, prompt);
                assert!(audit.is_none());
            }
            _ => panic!("a prompt was expected"),
        }
    }
}

#[test]
fn pairing_claims_are_answered() {
    let session = session();
    let message = IncomingMessage::new("gateway", "alice", "/pair telegram 1234");
    let end = |outcome| conclude_pairing(outcome, false, &message, &session, 5);
    assert!(matches!(
        end(Ok(BridgeOutcome::Respond("paired".to_string()))),
        HandleOutcome::Respond(r) if r.content == "paired"
    ));
    assert!(matches!(
        end(Ok(BridgeOutcome::Respond(String::new()))),
        HandleOutcome::NoResponse
    ));
    assert!(matches!(
        end(Ok(BridgeOutcome::NoResponse)),
        HandleOutcome::NoResponse
    ));
    assert!(matches!(
        end(Ok(BridgeOutcome::Pending)),
        HandleOutcome::Pending
    ));
    assert!(matches!(
        end(Err("bad code".to_string())),
        HandleOutcome::Respond(r) if r.content == "Error: Pairing approval failed: bad code"
    ));
}

#[test]
fn handlers_have_their_outcomes() {
    let session = session();
    let message = IncomingMessage::new("gateway", "alice", "hi");
    let end = |handling, end| conclude_handling(handling, end, false, &message, &session, 5);
    let run = |handler| Handling::Run {
        audit: None,
        handler,
    };
    let result = |r| HandlingEnd::Result(Ok(r));

    assert!(matches!(
        end(run(Dispatch::Quit), HandlingEnd::NotRun),
        Ok(HandleOutcome::Shutdown)
    ));
    assert!(matches!(
        end(
            Handling::Reply {
                text: "late".to_string()
            },
            HandlingEnd::NotRun
        ),
        Ok(HandleOutcome::Respond(r)) if r.content == "late"
    ));
    let token = || Handling::Token {
        extension_name: "notion".to_string(),
        token: "t".to_string(),
    };
    assert!(matches!(
        end(token(), HandlingEnd::TokenAnswered(Some("ok".to_string()))),
        Ok(HandleOutcome::Respond(r)) if r.content == "ok"
    ));
    assert!(matches!(
        end(run(Dispatch::Undo), result(SubmissionResult::Interrupted)),
        Ok(HandleOutcome::Respond(r)) if r.content == "Interrupted."
    ));
    let reset = Handling::Reset {
        content: "hi".to_string(),
    };
    assert!(matches!(
        end(reset, result(SubmissionResult::Interrupted)),
        Ok(HandleOutcome::NoResponse)
    ));
    let reasoning = run(Dispatch::Reasoning { args: Vec::new() });
    assert!(matches!(
        end(reasoning, result(SubmissionResult::Interrupted)),
        Ok(HandleOutcome::NoResponse)
    ));
    let pairing = run(Dispatch::PairingClaim {
        channel: "telegram".to_string(),
        code: "1".to_string(),
    });
    assert!(matches!(
        end(pairing, HandlingEnd::Paired(Ok(BridgeOutcome::Pending))),
        Ok(HandleOutcome::Pending)
    ));
    let hooked = run(Dispatch::HookedInput {
        content: "yes".to_string(),
    });
    assert!(matches!(
        end(hooked, HandlingEnd::TurnedDown("[no]".to_string())),
        Ok(HandleOutcome::Respond(r)) if r.content == "[no]"
    ));
    assert!(matches!(
        end(run(Dispatch::Refused(SubmissionResult::error("x"))), HandlingEnd::NotRun),
        Ok(HandleOutcome::Respond(r)) if r.content == "Error: x"
    ));
    assert!(matches!(
        end(run(Dispatch::Unsupported), HandlingEnd::NotRun),
        Err(e) if e == "this submission requires ENGINE_V2"
    ));
    assert!(matches!(
        end(run(Dispatch::Undo), HandlingEnd::Result(Err("gone".to_string()))),
        Err(e) if e == "gone"
    ));
    assert!(matches!(
        end(run(Dispatch::Undo), HandlingEnd::NotRun),
        Err(e) if e == "event out of turn"
    ));
}

fn talked(session: &mut Session, texts: &[(&str, &str)]) {
    let thread = session.threads.get_mut(&5).unwrap();
    for (asked, answered) in texts {
        thread.start_turn(asked.to_string());
        thread.complete_turn(answered.to_string());
    }
}

#[test]
fn undo_brings_back_the_conversation() {
    let mut session = session();
    talked(&mut session, &[("a", "b")]);
    let before = session.threads[&5].messages();
    talked(&mut session, &[("c", "d")]);

    let asked = begin_undo(true, &session, 5);
    match asked.ok().unwrap() {
        HistoryStep::Ask {
            turn_number,
            messages,
        } => {
            assert_eq!(turn_number, 3);
            assert_eq!(messages.len(), 4);
        }
        _ => panic!("there is something to undo"),
    }
    let checkpoint = Checkpoint {
        turn_number: 2,
        messages: before,
        description: "Before turn 2".to_string(),
    };
    let result = finish_undo(&mut session, 5, Some(checkpoint), 4);
    assert_eq!(
        acknowledged(&result.ok().unwrap()),
        "Undone to turn 2. 4 undo(s) remaining."
    );
    let turns = &session.threads[&5].turns;
    assert_eq!(turns.len(), 1);
    assert_eq!(turns[0].user_input, "a");
    assert_eq!(turns[0].response.as_deref(), Some("b"));
}

#[test]
fn history_commands_can_fail() {
    let mut session = session();
    let step = begin_undo(false, &session, 9).ok().unwrap();
    assert!(matches!(step, HistoryStep::Done(r) if acknowledged(&r) == "Nothing to undo."));
    let step = begin_redo(false, &session, 9).ok().unwrap();
    assert!(matches!(step, HistoryStep::Done(r) if acknowledged(&r) == "Nothing to redo."));
    assert!(matches!(
        begin_redo(true, &session, 9),
        Err(LoopError::NotFound { id: 9 })
    ));
    let result = finish_undo(&mut session, 5, None, 0).ok().unwrap();
    assert_eq!(complaint(&result), "Undo failed.");
    let result = finish_redo(&mut session, 5, None).ok().unwrap();
    assert_eq!(complaint(&result), "Redo failed.");
    let result = resume(&mut session, 5, None).ok().unwrap();
    assert_eq!(complaint(&result), "Checkpoint not found.");
}

#[test]
fn redo_and_resume_restore_checkpoints() {
    let mut session = session();
    let checkpoint = || Checkpoint {
        turn_number: 7,
        messages: vec![
            ChatMessage::system("ignored"),
            ChatMessage::user("a"),
            ChatMessage::user("b"),
            ChatMessage::assistant("c"),
        ],
        description: "Before turn 7".to_string(),
    };
    let result = finish_redo(&mut session, 5, Some(checkpoint()));
    assert_eq!(acknowledged(&result.ok().unwrap()), "Redone to turn 7.");
    let turns = &session.threads[&5].turns;
    assert_eq!(turns.len(), 2);
    assert!(turns[0].response.is_none());
    assert_eq!(turns[1].response.as_deref(), Some("c"));
    let result = resume(&mut session, 5, Some(checkpoint()));
    assert_eq!(
        acknowledged(&result.ok().unwrap()),
        "Resumed from checkpoint: Before turn 7"
    );
}

#[test]
fn threads_are_opened_switched_and_cleared() {
    let mut session = session();
    talked(&mut session, &[("a", "b")]);
    let id = Uuid::new_v4();
    let result = new_thread_with_id(&mut session, id.as_u128());
    assert_eq!(acknowledged(&result), format!("New thread: {id}"));
    assert_eq!(session.active_thread, Some(id.as_u128()));
    let opened = &session.threads[&id.as_u128()];
    assert_eq!(opened.state, ThreadState::Idle);
    assert!(opened.turns.is_empty());
    assert!(opened.last_response_id.is_none());
    assert!(opened.source_channel.is_none());
    assert!(opened.metadata.is_null());
    let result = new_thread(&mut session);
    let name = acknowledged(&result);
    let named = thread_named(name.strip_prefix("New thread: ").unwrap());
    assert_eq!(session.active_thread, named);
    assert_eq!(session.threads.len(), 3);

    let result = switch_thread(&mut session, id.as_u128());
    assert_eq!(acknowledged(&result), format!("Switched to thread {id}"));
    assert_eq!(session.active_thread, Some(id.as_u128()));
    assert_eq!(
        complaint(&switch_thread(&mut session, 1234)),
        "Thread not found."
    );

    let result = clear(&mut session, 5).ok().unwrap();
    assert_eq!(acknowledged(&result), "Thread cleared.");
    assert!(session.threads[&5].turns.is_empty());
    let result = interrupt(&mut session, 5).ok().unwrap();
    assert_eq!(acknowledged(&result), "Nothing to interrupt.");
}

#[test]
fn stored_turns_are_loaded_as_they_were() {
    let mut rows = Vec::new();
    for (asked, answered) in [("a", Some("b")), ("c", None), ("d", Some("e"))] {
        for write in turn_writes(true, asked, answered) {
            match write {
                StoreWrite::Ensure { channel } => assert_eq!(channel, "gateway"),
                StoreWrite::Append(m) => rows.push(m),
            }
        }
    }
    rows.insert(
        1,
        StoredMessage {
            role: "tool".to_string(),
            content: "dropped".to_string(),
        },
    );
    assert_eq!(loaded_messages(&rows).len(), 5);
    let (field, value) = chain_field("resp-4");
    let mut metadata = json("{}");
    metadata[field] = value;

    let mut session = session();
    match hydrate(&mut session, 8, &rows, Some(&metadata), 99) {
        Hydration::Loaded { chain_id } => assert_eq!(chain_id.as_deref(), Some("resp-4")),
        Hydration::Present => panic!("the thread is new"),
    }
    let thread = &session.threads[&8];
    assert_eq!(thread.turns.len(), 3);
    assert_eq!(thread.turns[0].response.as_deref(), Some("b"));
    assert_eq!(thread.turns[1].response, None);
    assert_eq!(thread.turns[2].user_input, "d");
    assert!(thread.turns.iter().all(|t| t.error.is_none()));
    assert!(thread.source_channel.is_none());
    assert!(thread.metadata.is_null());
    assert_eq!(thread.last_response_id.as_deref(), Some("resp-4"));
    assert_eq!(session.active_thread, Some(8));
    assert_eq!(session.last_active_at, 99);
    assert!(matches!(
        hydrate(&mut session, 5, &rows, None, 100),
        Hydration::Present
    ));
    assert!(session.threads[&5].turns.is_empty());
    assert_eq!(session.active_thread, Some(8));
    assert!(turn_writes(false, "a", None).is_empty());
    assert_eq!(thread_named("not-a-uuid"), None);
}

#[test]
fn active_thread_stays_one_of_the_session() {
    let mut session = session();
    let there = |session: &Session| {
        session
            .active_thread
            .is_some_and(|id| session.threads.contains_key(&id))
    };
    talked(&mut session, &[("a", "b")]);
    assert!(clear(&mut session, 5).is_ok());
    assert!(there(&session));
    switch_thread(&mut session, 77);
    assert!(there(&session));
    new_thread(&mut session);
    assert!(there(&session));
    hydrate(&mut session, 8, &Vec::new(), None, 1);
    assert!(there(&session));
}

#[test]
fn results_are_recorded_for_the_oldest_open_call() {
    let mut session = session();
    let thread = session.threads.get_mut(&5).unwrap();
    thread.start_turn("hi".to_string());
    let turn = thread.turns.last_mut().unwrap();
    turn.record_tool_call("a", Value::Null);
    turn.record_tool_call("b", Value::Null);
    turn.record_tool_error("x".to_string());
    turn.record_tool_result(json("1"));
    turn.record_tool_result(json("2"));
    assert_eq!(turn.tool_calls[0].error.as_deref(), Some("x"));
    assert_eq!(turn.tool_calls[0].result, None);
    assert_eq!(turn.tool_calls[1].result, Some(json("1")));
}
