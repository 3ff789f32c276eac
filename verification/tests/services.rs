use agent_loop::auth::{
    after_activate, after_authenticate, begin_token, detect_auth_awaiting, parse_auth_result,
    AuthReport, TokenStep,
};
use agent_loop::chat::Role;
use agent_loop::commands::{
    active_model, begin_command, check_model, conclude_routed_command, help, intent_notice,
    model_switched, tools_listed, unknown_intent, CommandStep, MessageIntent,
};
use agent_loop::documents::{save_thread_before_new, session_to_save};
use agent_loop::jobs::{
    cancel_for, check_owner, created_text, help_for, job_named, list_text, status_for,
    summary_text, Job, JobEntry, JobHelp, JobSummary,
};
use agent_loop::json::{count_member, flag_member, text_member};
use agent_loop::message::{IncomingMessage, OutgoingResponse};
use agent_loop::notice::Notice;
use agent_loop::outcome::{
    after_handling, after_outbound_hook, channel_steps, conclude, conclude_after_reset,
    conclude_reasoning, AfterHandling, ChannelStep, Delivery, HandleOutcome, HookVerdict,
};
use agent_loop::prompt::{
    boot_prompt, combine_prompts, conclude_heartbeat, conclude_suggestion, conclude_summary,
    loaded_prompt, logged_reply, prompt_parts, suggestion_request, summary_request,
    HeartbeatReport, Question,
};
use agent_loop::repair::{tool_repaired, RepairNotifier, RepairResult};
use agent_loop::scope::{
    database_backend, heartbeat_timezone, startup, tenant_workspace, workspace_for_user, Startup,
    WorkspaceChoice,
};
use agent_loop::session::{Session, ThreadState};
use agent_loop::skills::{distinct_markers, satisfied_markers, skill_feedback, skills_to_join};
use agent_loop::submission::{LoopError, SubmissionResult};
use serde_json::Value;
use uuid::Uuid;

fn json(text: &str) -> Value {
    serde_json::from_str(text).unwrap()
}

fn session() -> Session {
    let mut session = Session::new(0);
    session.create_thread_with_id(5, None);
    session
}

fn strings(list: &[&str]) -> Vec<String> {
    list.iter().map(|s| s.to_string()).collect()
}

fn text_of(result: SubmissionResult) -> String {
    match result {
        SubmissionResult::Response { content } => content,
        SubmissionResult::Acknowledged {
            message: Some(message),
        } => format!("ack: {message}"),
        SubmissionResult::Error { message } => format!("error: {message}"),
        _ => panic!("a text was expected"),
    }
}

fn single() -> IncomingMessage {
    IncomingMessage::new("repl", "alice", "hi")
        .with_metadata(json(r#"{"single_message_mode": true}"#))
}

fn said(outcome: HandleOutcome) -> String {
    match outcome {
        HandleOutcome::Respond(r) => r.content,
        _ => panic!("an answer was expected"),
    }
}

fn response(content: &str) -> SubmissionResult {
    SubmissionResult::Response {
        content: content.to_string(),
    }
}

#[test]
fn results_become_outcomes() {
    let session = session();
    let plain = IncomingMessage::new("gateway", "alice", "hi");
    let once = single();
    let end = |result, silent, message| conclude(result, silent, message, &session, 5);

    assert_eq!(said(end(response("hello"), false, &plain)), "hello");
    assert!(matches!(
        end(response(""), false, &plain),
        HandleOutcome::NoResponse
    ));
    assert!(matches!(
        end(response("SILENT"), true, &plain),
        HandleOutcome::NoResponse
    ));
    assert!(matches!(
        end(response("SILENT"), true, &once),
        HandleOutcome::Shutdown
    ));
    let ack = |message: Option<&str>| SubmissionResult::Acknowledged {
        message: message.map(String::from),
    };
    assert_eq!(said(end(ack(Some("ok")), false, &plain)), "ok");
    assert!(matches!(
        end(ack(Some("")), false, &plain),
        HandleOutcome::NoResponse
    ));
    assert!(matches!(
        end(ack(Some("")), false, &once),
        HandleOutcome::Shutdown
    ));
    assert!(matches!(
        end(ack(None), false, &plain),
        HandleOutcome::Shutdown
    ));
    assert_eq!(
        said(end(SubmissionResult::error("bad"), false, &plain)),
        "Error: bad"
    );
    assert_eq!(
        said(end(SubmissionResult::Interrupted, false, &plain)),
        "Interrupted."
    );
    assert!(matches!(
        end(SubmissionResult::AuthPending, false, &plain),
        HandleOutcome::Pending
    ));
}

#[test]
fn single_message_waits_for_its_approval() {
    let mut session = session();
    session.threads.get_mut(&5).unwrap().state = ThreadState::AwaitingApproval;
    let result = SubmissionResult::Acknowledged {
        message: Some(String::new()),
    };
    assert!(matches!(
        conclude(result, false, &single(), &session, 5),
        HandleOutcome::NoResponse
    ));
}

#[test]
fn reasoning_and_reset_have_outcomes_of_their_own() {
    let plain = IncomingMessage::new("gateway", "alice", "hi");
    assert_eq!(said(conclude_reasoning(response(""), &plain)), "");
    assert!(matches!(
        conclude_reasoning(SubmissionResult::Interrupted, &plain),
        HandleOutcome::NoResponse
    ));
    assert!(matches!(
        conclude_reasoning(SubmissionResult::Interrupted, &single()),
        HandleOutcome::Shutdown
    ));
    let once = single();
    let end = |result, silent, message| conclude_after_reset(result, silent, message);
    assert_eq!(said(end(response("hello"), false, &plain)), "hello");
    assert!(matches!(
        end(response(""), false, &plain),
        HandleOutcome::NoResponse
    ));
    assert!(matches!(
        end(response("NO_REPLY"), true, &plain),
        HandleOutcome::NoResponse
    ));
    assert!(matches!(
        end(response("NO_REPLY"), true, &once),
        HandleOutcome::Shutdown
    ));
    assert_eq!(
        said(end(SubmissionResult::ok_with_message("ok"), false, &plain)),
        "ok"
    );
    assert_eq!(
        said(end(SubmissionResult::error("x"), false, &plain)),
        "Error: x"
    );
    assert!(matches!(
        end(SubmissionResult::Interrupted, false, &plain),
        HandleOutcome::NoResponse
    ));
}

#[test]
fn paused_turns_stay_open_after_a_reset() {
    let plain = IncomingMessage::new("gateway", "alice", "hi");
    for paused in [
        SubmissionResult::AuthPending,
        SubmissionResult::NeedApproval {
            request_id: 7,
            tool_name: "shell".to_string(),
            description: "run".to_string(),
            parameters: json("{}"),
        },
    ] {
        let outcome = conclude_after_reset(paused, false, &plain);
        assert!(matches!(outcome, HandleOutcome::Pending));
        match after_handling(Ok(outcome)) {
            AfterHandling::Deliver(delivery) => assert!(channel_steps(delivery).is_empty()),
            AfterHandling::CheckOutbound(_) => panic!("nothing goes out"),
        }
    }
}

#[test]
fn answers_are_sent_before_the_turn_is_closed() {
    let answer = OutgoingResponse::text("hello".to_string());
    let checked = match after_handling(Ok(HandleOutcome::Respond(answer))) {
        AfterHandling::CheckOutbound(r) => r,
        _ => panic!("the hooks see the answer"),
    };
    let delivery = after_outbound_hook(
        checked,
        HookVerdict::Modified {
            content: "hi".to_string(),
        },
    );
    let steps = channel_steps(delivery);
    assert_eq!(steps.len(), 2);
    assert!(matches!(&steps[0], ChannelStep::Response(r) if r.content == "hi"));
    assert!(matches!(steps[1], ChannelStep::Done));

    let kept = after_outbound_hook(
        OutgoingResponse::text("x".to_string()),
        HookVerdict::Rejected {
            reason: "no".to_string(),
        },
    );
    assert!(matches!(
        &channel_steps(kept)[..],
        [ChannelStep::Done]
    ));
    let failed = after_handling(Err("boom".to_string()));
    assert!(matches!(
        failed,
        AfterHandling::Deliver(Delivery::Answer(r)) if r.content == "Error: boom"
    ));
    match after_handling(Ok(HandleOutcome::NoResponse)) {
        AfterHandling::Deliver(delivery) => {
            assert!(matches!(&channel_steps(delivery)[..], [ChannelStep::Done]));
        }
        AfterHandling::CheckOutbound(_) => panic!("nothing goes out"),
    }
    assert!(channel_steps(Delivery::Hold).is_empty());
    assert!(matches!(
        after_handling(Ok(HandleOutcome::Pending)),
        AfterHandling::Deliver(Delivery::Hold)
    ));
    assert!(matches!(
        after_handling(Ok(HandleOutcome::Shutdown)),
        AfterHandling::Deliver(Delivery::Stop)
    ));
}

#[test]
fn only_extension_tools_ask_for_tokens() {
    let output = Ok(r#"{"awaiting_token": true, "name": "n", "instructions": "do"}"#.to_string());
    assert!(detect_auth_awaiting("http", &output).is_none());
    let request = detect_auth_awaiting("tool_auth", &output).unwrap();
    assert_eq!(request.extension_name, "n");
    assert_eq!(request.instructions, "do");
    for other in [
        r#"{"awaiting_token": "true", "name": "n"}"#,
        r#"{"awaiting_token": true}"#,
        "not json",
    ] {
        assert!(detect_auth_awaiting("tool_auth", &Ok(other.to_string())).is_none());
    }
    let failed = Err("x".to_string());
    assert!(detect_auth_awaiting("tool_auth", &failed).is_none());
    let links = parse_auth_result(&Ok(r#"{"auth_url": "a", "setup_url": 1}"#.to_string()));
    assert_eq!(links.auth_url.as_deref(), Some("a"));
    assert!(links.setup_url.is_none());
    assert!(parse_auth_result(&failed).auth_url.is_none());
}

fn token_reply(step: TokenStep) -> (Option<Notice>, String) {
    match step {
        TokenStep::Reply { notice, message } => (notice, message),
        _ => panic!("a reply was expected"),
    }
}

#[test]
fn accepted_token_activates_the_extension() {
    let mut session = session();
    let thread = session.threads.get_mut(&5).unwrap();
    thread.enter_auth_mode("notion".to_string());
    match begin_token(&mut session, 5, "  tok\n", true) {
        TokenStep::Authenticate { token } => assert_eq!(token, "tok"),
        _ => panic!("the token is tried"),
    }
    assert!(session.threads[&5].pending_auth.is_none());
    assert!(session.threads[&5].turns.is_empty());
    let report = AuthReport {
        status: "authenticated".to_string(),
        instructions: None,
        auth_url: None,
        setup_url: None,
    };
    assert!(matches!(
        after_authenticate(&mut session, 5, "notion", Ok(report)),
        TokenStep::Activate
    ));
    let (notice, message) = token_reply(after_activate("notion", Ok(strings(&["a", "b"]))));
    assert_eq!(
        message,
        "notion authenticated and activated (2 tools loaded).\n\nTools: a, b"
    );
    assert!(matches!(
        notice,
        Some(Notice::AuthCompleted { success: true, .. })
    ));
    let (_, message) = token_reply(after_activate("notion", Ok(Vec::new())));
    assert_eq!(message, "notion authenticated and activated (0 tools loaded).");
    let (_, message) = token_reply(after_activate("notion", Err("x".to_string())));
    assert_eq!(
        message,
        "notion authenticated successfully, but activation failed: x. Try activating manually."
    );
}

#[test]
fn refused_token_is_asked_for_again() {
    let mut session = session();
    let report = AuthReport {
        status: "invalid".to_string(),
        instructions: None,
        auth_url: Some("u".to_string()),
        setup_url: None,
    };
    let (notice, message) =
        token_reply(after_authenticate(&mut session, 5, "notion", Ok(report)));
    assert_eq!(message, "Invalid token. Please try again.");
    assert!(matches!(
        notice,
        Some(Notice::AuthRequired { auth_url: Some(u), .. }) if u == "u"
    ));
    assert_eq!(
        session.threads[&5]
            .pending_auth
            .as_ref()
            .unwrap()
            .extension_name,
        "notion"
    );
    let (notice, message) = token_reply(after_authenticate(
        &mut session,
        5,
        "notion",
        Err("down".to_string()),
    ));
    assert_eq!(message, "Authentication failed for notion: down");
    assert!(matches!(
        notice,
        Some(Notice::AuthCompleted { success: false, .. })
    ));
    let (notice, message) = token_reply(begin_token(&mut session, 5, "t", false));
    assert_eq!(message, "Extension manager not available.");
    assert!(notice.is_none());
}

#[test]
fn prompts_are_put_together() {
    let both = combine_prompts(Some("a".to_string()), Some("b".to_string()));
    assert_eq!(both.as_deref(), Some("a\n\nb"));
    assert_eq!(combine_prompts(None, Some("b".to_string())).as_deref(), Some("b"));
    assert_eq!(combine_prompts(None, None), None);
    assert_eq!(loaded_prompt(Ok(String::new())), None);
    assert_eq!(loaded_prompt(Err("x".to_string())), None);
    let parts = prompt_parts("repl", Some(String::new()), Some("learned".to_string()));
    assert!(parts.include_memory);
    assert_eq!(parts.logseq, None);
    assert_eq!(parts.learnings.as_deref(), Some("learned"));
    let parts = prompt_parts("telegram", Some("l".to_string()), Some("learned".to_string()));
    assert!(!parts.include_memory);
    assert_eq!(parts.logseq.as_deref(), Some("l"));
    assert_eq!(parts.learnings, None);
}

#[test]
fn questions_about_a_thread_see_its_last_messages() {
    let mut session = session();
    match summary_request(&session, 5).ok().unwrap() {
        Question::Done(r) => {
            assert_eq!(text_of(r), "ack: Nothing to summarize (empty thread).")
        }
        _ => panic!("there is nothing to summarize"),
    }
    let thread = session.threads.get_mut(&5).unwrap();
    for i in 0..12 {
        thread.start_turn(format!("q{i}"));
        thread.complete_turn(format!("a{i}"));
    }
    match suggestion_request(&session, 5).ok().unwrap() {
        Question::Ask(messages) => {
            assert_eq!(messages.len(), 22);
            assert_eq!(messages[0].role, Role::System);
            assert_eq!(messages[1].content, "q2");
            assert_eq!(messages[20].content, "a11");
            assert_eq!(messages[21].content, "What should I do next?");
        }
        _ => panic!("the model is asked"),
    }
    assert!(matches!(
        suggestion_request(&session, 6),
        Err(LoopError::NotFound { id: 6 })
    ));
    assert_eq!(
        text_of(conclude_summary(Ok(" - x\n".to_string()))),
        "Thread Summary:\n\n- x"
    );
    assert_eq!(
        text_of(conclude_summary(Err("e".to_string()))),
        "error: Summarize failed: e"
    );
    assert_eq!(
        text_of(conclude_suggestion(Ok("1.".to_string()))),
        "Suggested Next Steps:\n\n1."
    );
    assert_eq!(
        text_of(conclude_suggestion(Err("e".to_string()))),
        "error: Suggest failed: e"
    );
}

#[test]
fn heartbeat_results_are_told() {
    for (report, text) in [
        (
            None,
            "error: Heartbeat requires a workspace (database must be connected).",
        ),
        (
            Some(HeartbeatReport::AllClear),
            "ack: Heartbeat: all clear, nothing needs attention.",
        ),
        (
            Some(HeartbeatReport::NeedsAttention("x".to_string())),
            "Heartbeat findings:\n\nx",
        ),
        (
            Some(HeartbeatReport::Skipped),
            "ack: Heartbeat skipped: no HEARTBEAT.md checklist found in workspace.",
        ),
        (
            Some(HeartbeatReport::Failed("e".to_string())),
            "error: Heartbeat failed: e",
        ),
    ] {
        assert_eq!(text_of(conclude_heartbeat(report)), text);
    }
}

#[test]
fn startup_instructions_are_run_unless_blank() {
    let messages = boot_prompt(Some("check mail")).unwrap();
    assert_eq!(
        messages[0].content,
        "Execute the following startup instructions. When done, reply with NO_REPLY.\n\ncheck mail"
    );
    assert!(boot_prompt(Some(" \n")).is_none());
    assert!(boot_prompt(None).is_none());
    assert_eq!(logged_reply(" NO_REPLY\n"), None);
    assert_eq!(logged_reply(""), None);
    assert_eq!(logged_reply("did\nit").as_deref(), Some("did it"));
}

#[test]
fn conversation_is_put_aside() {
    let mut session = session();
    assert!(session_to_save(&session, 5, "d", "t", "s").is_none());
    assert!(session_to_save(&session, 6, "d", "t", "s").is_none());
    let thread = session.threads.get_mut(&5).unwrap();
    for i in 0..9 {
        thread.start_turn(format!("q{i}"));
        thread.complete_turn(format!(" a{i} "));
    }
    let file = session_to_save(&session, 5, "2024-05-06", "070809", "stamp").unwrap();
    assert_eq!(file.path, "daily/2024-05-06-session-070809.md");
    let lines: Vec<&str> = file.content.split('\n').collect();
    assert_eq!(lines[0], "# Session: stamp UTC");
    assert_eq!(lines[2], format!("- **Thread ID**: {}", Uuid::from_u128(5)));
    assert_eq!(lines[3], "- **Source**: /new");
    assert_eq!(lines[5], "## Conversation");
    assert_eq!(lines[7], "**assistant**: a1");
    assert_eq!(lines.len(), 7 + 2 * 15);

    // 2001-09-09 01:46:40 UTC
    let file = save_thread_before_new(&session, 5, 1_000_000_000).unwrap();
    assert_eq!(file.path, "daily/2001-09-09-session-014640.md");
    assert!(file
        .content
        .starts_with("# Session: 2001-09-09 01:46:40 UTC\n"));
}

#[test]
fn system_commands_are_answered() {
    let run = |command: &str, args: &[&str]| {
        begin_command(command, &strings(args), "ironclaw", "0.1.0")
    };
    let done = |step| match step {
        CommandStep::Done(result) => text_of(result),
        _ => panic!("an answer was expected"),
    };
    assert_eq!(done(run("ping", &[])), "pong!");
    assert_eq!(done(run("help", &[])), help());
    assert!(help().starts_with("System:\n  /help             Show this help\n"));
    assert!(help().ends_with("\n\n  /quit             Exit"));
    assert_eq!(help().lines().count(), 30);
    assert_eq!(done(run("version", &[])), "ironclaw v0.1.0");
    assert_eq!(
        done(run("debug", &[])),
        "ack: Debug toggle is handled by your client."
    );
    assert_eq!(
        done(run("frob", &[])),
        "error: Unknown command: frob. Try /help"
    );
    assert!(matches!(run("tools", &[]), CommandStep::ListTools));
    assert!(matches!(run("model", &[]), CommandStep::ActiveModel));
    assert!(matches!(
        run("model", &["m1", "x"]),
        CommandStep::ListModels { requested } if requested == "m1"
    ));
    assert_eq!(
        text_of(tools_listed(&strings(&["a", "b"]))),
        "Available tools: a, b"
    );
    assert_eq!(text_of(active_model("m")), "Active model: m");
}

#[test]
fn models_are_checked_before_switching() {
    assert!(check_model("m1", &Ok(strings(&["m0", "m1"]))).is_none());
    assert!(check_model("m1", &Ok(Vec::new())).is_none());
    assert!(check_model("m1", &Err("down".to_string())).is_none());
    assert_eq!(
        text_of(check_model("m2", &Ok(strings(&["m0", "m1"]))).unwrap()),
        "error: Unknown model: m2. Available models:\n  m0\n  m1"
    );
    assert_eq!(
        text_of(model_switched("m1", Ok(()))),
        "Switched model to: m1"
    );
    assert_eq!(
        text_of(model_switched("m1", Err("e".to_string()))),
        "error: Failed to switch model: e"
    );
}

#[test]
fn routed_commands_are_answered() {
    assert_eq!(text_of(unknown_intent()), "Unknown intent");
    assert_eq!(
        text_of(conclude_routed_command(SubmissionResult::error("x"))),
        "Error: x"
    );
    assert!(matches!(
        conclude_routed_command(SubmissionResult::Interrupted),
        SubmissionResult::Acknowledged { message: None }
    ));
    let create = MessageIntent::CreateJob {
        title: "t".to_string(),
        description: "d".to_string(),
        category: None,
    };
    assert!(matches!(
        intent_notice(&create),
        Some(Notice::Thinking(t)) if t == "Processing..."
    ));
    assert!(intent_notice(&MessageIntent::Unhandled).is_none());
}

fn job(user: &str) -> Job {
    Job {
        user_id: user.to_string(),
        title: "Build".to_string(),
        state: "InProgress".to_string(),
        stuck: false,
        created_at: 1_000_000_000,
        started_at: None,
        actual_cost: "0.10".to_string(),
        repair_attempts: 2,
    }
}

#[test]
fn jobs_of_others_look_missing() {
    let id = Uuid::new_v4();
    assert_eq!(job_named(&id.to_string()).ok(), Some(id.as_u128()));
    assert!(matches!(
        job_named("nonsense"),
        Err(LoopError::NotFound { id: 0 })
    ));
    assert!(check_owner("alice", 7, &job("alice")).is_ok());
    assert!(matches!(
        check_owner("bob", 7, &job("alice")),
        Err(LoopError::NotFound { id: 7 })
    ));
    assert!(matches!(
        status_for("bob", 7, &job("alice")),
        Err(LoopError::NotFound { id: 7 })
    ));
    assert!(matches!(
        cancel_for("bob", 7, "7", &job("alice")),
        Err(LoopError::NotFound { id: 7 })
    ));
    assert!(matches!(
        help_for("bob", 7, "7", &job("alice")),
        Err(LoopError::NotFound { id: 7 })
    ));
    let entries = vec![
        JobEntry {
            id: 1,
            job: Some(job("alice")),
        },
        JobEntry {
            id: 2,
            job: Some(job("bob")),
        },
        JobEntry { id: 3, job: None },
    ];
    assert_eq!(
        list_text("alice", &entries),
        format!("Jobs:\n  {} - Build (InProgress)\n", Uuid::from_u128(1))
    );
    assert_eq!(list_text("alice", &Vec::new()), "No jobs found.");
}

#[test]
fn jobs_are_described() {
    assert_eq!(
        status_for("alice", 7, &job("alice")).ok().unwrap(),
        "Job: Build\nStatus: InProgress\nCreated: 2001-09-09 01:46:40\nStarted: Not started\n\
         Actual cost: 0.10"
    );
    let mut started = job("alice");
    started.started_at = Some(1_000_000_001);
    assert!(status_for("alice", 7, &started)
        .ok()
        .unwrap()
        .contains("Started: 2001-09-09 01:46:41"));
    let id = Uuid::new_v4();
    assert_eq!(
        created_text("Build", id.as_u128()),
        format!("Created job: Build\nID: {id}\n\nThe job has been scheduled and is now running.")
    );
    let stop = cancel_for("alice", 7, "x", &job("alice")).ok().unwrap();
    assert_eq!(stop.job_id, 7);
    assert_eq!(stop.reply, "Job x has been cancelled.");
    let summary = JobSummary {
        total: 10,
        in_progress: 1,
        completed: 2,
        failed: 3,
        stuck: 4,
    };
    assert_eq!(
        summary_text(&summary),
        "Jobs summary:\n  Total: 10\n  In Progress: 1\n  Completed: 2\n  Failed: 3\n  Stuck: 4"
    );
    assert!(matches!(
        help_for("alice", 7, "seven", &job("alice")),
        Ok(JobHelp::Fine { reply })
            if reply == "Job seven is not stuck (current state: InProgress). No help needed."
    ));
    let mut stuck = job("alice");
    stuck.stuck = true;
    assert!(matches!(
        help_for("alice", 7, "seven", &stuck),
        Ok(JobHelp::Recover { reply })
            if reply == "Job seven was stuck. Attempting recovery (attempt #3)."
    ));
}

#[test]
fn failed_repairs_are_reported_once() {
    let mut notifier = RepairNotifier::new();
    let id = Uuid::new_v4();
    let success = Ok(RepairResult::Success {
        message: "up".to_string(),
    });
    let failed = Ok(RepairResult::Failed {
        message: "gone".to_string(),
    });
    let manual = Ok(RepairResult::ManualRequired {
        message: "help".to_string(),
    });
    assert_eq!(
        notifier.job_repaired(id.as_u128(), 90, &success),
        Some(format!(
            "Self-Repair: Job {id} was stuck for 90s, recovery succeeded: up"
        ))
    );
    assert_eq!(
        notifier.job_repaired(id.as_u128(), 90, &failed),
        Some(format!(
            "Self-Repair: Job {id} was stuck for 90s, recovery failed permanently: gone"
        ))
    );
    assert_eq!(notifier.job_repaired(id.as_u128(), 90, &failed), None);
    assert_eq!(notifier.job_repaired(id.as_u128(), 90, &manual), None);
    let other = Uuid::new_v4();
    assert_eq!(
        notifier.job_repaired(other.as_u128(), 90, &manual),
        Some(format!(
            "Self-Repair: Job {other} needs manual intervention: help"
        ))
    );
    let retry = Ok(RepairResult::Retry {
        message: "later".to_string(),
    });
    assert_eq!(notifier.job_repaired(1, 90, &retry), None);
    assert_eq!(notifier.job_repaired(1, 90, &Err("e".to_string())), None);
    assert_eq!(
        tool_repaired("http", &success).as_deref(),
        Some("Self-Repair: Tool 'http' repaired: up")
    );
    assert_eq!(tool_repaired("http", &failed), None);
}

#[test]
fn skills_are_chosen_once() {
    let explicit = strings(&["a", "b"]);
    let scored = strings(&["c", "a", "c", "d"]);
    assert_eq!(skills_to_join(&explicit, &scored), [0, 3]);
    assert_eq!(
        skill_feedback(&explicit, strings(&["note"])),
        [
            "a: force-activated via /mention",
            "b: force-activated via /mention",
            "note"
        ]
    );
    let markers = vec![
        Some("m1".to_string()),
        None,
        Some("m2".to_string()),
        Some("m1".to_string()),
    ];
    let distinct = distinct_markers(&markers);
    assert_eq!(distinct, ["m1", "m2"]);
    let found = vec![Err("x".to_string()), Ok(true)];
    assert_eq!(satisfied_markers(&distinct, &found), ["m2"]);
}

#[test]
fn resources_are_chosen_by_user() {
    assert_eq!(
        workspace_for_user(Some("o"), "o"),
        WorkspaceChoice::Shared
    );
    assert_eq!(workspace_for_user(None, "o"), WorkspaceChoice::Missing);
    assert_eq!(
        tenant_workspace(Some("o"), "o", false),
        WorkspaceChoice::Shared
    );
    assert_eq!(
        tenant_workspace(Some("o"), "a", true),
        WorkspaceChoice::Fresh
    );
    assert_eq!(
        tenant_workspace(None, "a", false),
        WorkspaceChoice::Missing
    );
    assert_eq!(database_backend(None, true).as_deref(), Some("postgres"));
    assert_eq!(
        database_backend(Some("libsql".to_string()), false).as_deref(),
        Some("libsql")
    );
    assert_eq!(database_backend(None, false), None);
    assert_eq!(heartbeat_timezone(None, "UTC"), "UTC");
    assert_eq!(startup(Some(true), true), Startup::Start);
    assert_eq!(startup(Some(true), false), Startup::Unavailable);
    assert_eq!(startup(Some(false), true), Startup::Off);
    assert_eq!(startup(None, true), Startup::Off);
}

#[test]
fn json_values_are_read() {
    let value = json(r#"{"s": "x", "b": true, "n": 7, "f": 1.5}"#);
    assert_eq!(text_member(&value, "s"), Some("x"));
    assert_eq!(text_member(&value, "n"), None);
    assert_eq!(flag_member(&value, "b"), Some(true));
    assert_eq!(count_member(&value, "n"), Some(7));
    assert_eq!(count_member(&value, "f"), None);
    assert_eq!(count_member(&json("[1]"), "n"), None);
}
