use agent_loop::documents::{document_name, documents_on, documents_to_store};
use agent_loop::images::{
    extension_for_image_media_type, generated_image_attachment_from_data_url,
    generated_image_attachments_for_turn, image_attachment, split_image_url,
};
use agent_loop::intake::{EngineCall, Intake, IntakeAction, IntakeEvent, IntakePhase};
use agent_loop::message::{
    build_outgoing_response_for_thread, is_main_session, is_single_message_repl, AttachmentKind,
    IncomingAttachment, IncomingMessage,
};
use agent_loop::outcome::{BridgeOutcome, HandleOutcome, HookVerdict};
use agent_loop::scope::{workspace_for_user, WorkspaceChoice};
use agent_loop::session::{Session, Turn};
use agent_loop::submission::{AuthGateResolution, Submission};
use serde_json::Value;
use uuid::Uuid;

fn json(text: &str) -> Value {
    serde_json::from_str(text).unwrap()
}

fn replied(action: &IntakeAction) -> String {
    match action {
        IntakeAction::Finish(Ok(HandleOutcome::Respond(r))) => r.content.clone(),
        _ => panic!("a reply was expected"),
    }
}

#[test]
fn single_message_repl_detection_requires_repl_channel_and_metadata_flag() {
    let repl = IncomingMessage::new("repl", "owner-scope", "hello")
        .with_metadata(json(r#"{ "single_message_mode": true }"#));
    let gateway = IncomingMessage::new("gateway", "owner-scope", "hello")
        .with_metadata(json(r#"{ "single_message_mode": true }"#));
    let plain_repl = IncomingMessage::new("repl", "owner-scope", "hello");

    assert!(is_single_message_repl(&repl));
    assert!(!is_single_message_repl(&gateway));
    assert!(!is_single_message_repl(&plain_repl));
}

#[test]
fn build_outgoing_response_for_thread_includes_generated_image_inline_attachments() {
    let thread_id = Uuid::new_v4().as_u128();
    let mut session = Session::new(0);
    session.create_thread_with_id(thread_id, None);
    let thread = session.threads.get_mut(&thread_id).unwrap();
    thread.start_turn("draw a cat".to_string());
    let turn = thread.turns.last_mut().unwrap();
    turn.record_tool_call("image_generate", json(r#"{ "prompt": "cat" }"#));
    turn.record_tool_result(json(
        r#"{
            "type": "image_generated",
            "data": "data:image/png;base64,cG5nLWJ5dGVz",
            "media_type": "image/png"
        }"#,
    ));

    let response = build_outgoing_response_for_thread(&session, thread_id, "done".to_string());

    assert_eq!(response.content, "done");
    assert!(response.attachments.is_empty());
    assert_eq!(response.inline_attachments.len(), 1);
    assert_eq!(
        response.inline_attachments[0].filename,
        "generated-image-1.png"
    );
    assert_eq!(response.inline_attachments[0].mime_type, "image/png");
    assert_eq!(response.inline_attachments[0].data, b"png-bytes");
}

#[test]
fn v2_only_structured_submissions_do_not_switch_threads_when_engine_v2_disabled() {
    let active_thread_id = Uuid::new_v4();
    let target_thread_id = Uuid::new_v4();
    let mut session = Session::new(0);
    session.create_thread_with_id(active_thread_id.as_u128(), Some("gateway".to_string()));
    session.create_thread_with_id(target_thread_id.as_u128(), Some("gateway".to_string()));
    session.active_thread = Some(active_thread_id.as_u128());

    let gate_message = IncomingMessage::new("gateway", "alice", "{}")
        .with_thread(&target_thread_id.to_string());
    let mut intake = Intake::new(false, &gate_message);
    intake.step(&gate_message, IntakeEvent::Begin);
    intake.step(&gate_message, IntakeEvent::ContextSet);
    let outcome = intake.step(
        &gate_message,
        IntakeEvent::Parsed(Submission::GateAuthResolution {
            request_id: Uuid::new_v4().as_u128(),
            resolution: AuthGateResolution::Cancelled,
        }),
    );
    assert_eq!(
        replied(&outcome),
        "Error: Auth gate resolution requires ENGINE_V2"
    );
    assert_eq!(intake.phase, IntakePhase::Ended);
    assert_eq!(session.active_thread, Some(active_thread_id.as_u128()));

    let callback_message = IncomingMessage::new("gateway", "alice", "{}")
        .with_thread(&target_thread_id.to_string());
    let mut intake = Intake::new(false, &callback_message);
    intake.step(&callback_message, IntakeEvent::Begin);
    intake.step(&callback_message, IntakeEvent::ContextSet);
    let outcome = intake.step(
        &callback_message,
        IntakeEvent::Parsed(Submission::ExternalCallback {
            request_id: Uuid::new_v4().as_u128(),
        }),
    );
    assert_eq!(
        replied(&outcome),
        "Error: External callbacks require ENGINE_V2"
    );
    assert_eq!(intake.phase, IntakePhase::Ended);
    assert_eq!(session.active_thread, Some(active_thread_id.as_u128()));
}

#[test]
fn store_extracted_documents_writes_to_message_user_workspace() {
    let message = IncomingMessage::new("gateway", "alice", "uploaded a document").with_attachments(
        vec![IncomingAttachment {
            kind: AttachmentKind::Document,
            mime_type: "text/plain".to_string(),
            filename: Some("conversation-notes.txt".to_string()),
            size_bytes: Some(42),
            extracted_text: Some("alice-only extracted conversation text".to_string()),
        }],
    );

    let now = chrono::Utc::now().timestamp();
    let date = chrono::DateTime::from_timestamp(now, 0)
        .unwrap()
        .format("%Y-%m-%d")
        .to_string();
    let files = documents_to_store(&message, now);
    assert_eq!(files.len(), 1);
    assert_eq!(
        files[0].path,
        format!("documents/{date}/conversation-notes.txt")
    );
    assert!(files[0]
        .content
        .contains("alice-only extracted conversation text"));

    // The files go to the workspace of the sender, not to that of the owner.
    assert_eq!(
        workspace_for_user(Some("owner-scope"), &message.user_id),
        WorkspaceChoice::Narrowed
    );
}

#[test]
fn document_header_names_sender_and_size() {
    let attachments = vec![
        IncomingAttachment {
            kind: AttachmentKind::Document,
            mime_type: "text/plain".to_string(),
            filename: Some("../../etc/passwd".to_string()),
            size_bytes: None,
            extracted_text: Some("body".to_string()),
        },
        IncomingAttachment {
            kind: AttachmentKind::Document,
            mime_type: "text/plain".to_string(),
            filename: None,
            size_bytes: Some(7),
            extracted_text: Some("[Failed to extract]".to_string()),
        },
        IncomingAttachment {
            kind: AttachmentKind::Image,
            mime_type: "image/png".to_string(),
            filename: None,
            size_bytes: None,
            extracted_text: Some("text".to_string()),
        },
    ];
    let message = IncomingMessage::new("gateway", "alice", "hi").with_attachments(attachments);
    let files = documents_on(&message, "2024-05-06");
    assert_eq!(files.len(), 1);
    assert_eq!(files[0].path, "documents/2024-05-06/_.._etc_passwd");
    assert_eq!(
        files[0].content,
        "# _.._etc_passwd\n\n> Uploaded by **alice** via **gateway** on 2024-05-06\n\
         > MIME: text/plain | Size: 0 bytes\n\n---\n\nbody"
    );
}

#[test]
fn document_names_stay_in_place() {
    assert_eq!(document_name(Some("a/b\\c\0d")), "a_b_c_d");
    assert_eq!(document_name(Some("..hidden")), "hidden");
    assert_eq!(document_name(Some("...")), "unnamed_document");
    assert_eq!(document_name(Some("")), "unnamed_document");
    assert_eq!(document_name(None), "unnamed_document");
}

#[test]
fn main_sessions_are_direct_channels() {
    assert!(is_main_session("repl"));
    assert!(!is_main_session("telegram"));
}

#[test]
fn image_types_have_extensions() {
    assert_eq!(extension_for_image_media_type("image/jpeg"), "jpg");
    assert_eq!(extension_for_image_media_type("image/png"), "png");
    assert_eq!(extension_for_image_media_type("image/unknown"), "bin");
}

#[test]
fn data_urls_become_attachments() {
    let made = generated_image_attachment_from_data_url(
        "data:image/jpeg;base64,cG5nLWJ5dGVz",
        Some("image/png"),
        2,
    )
    .unwrap();
    assert_eq!(made.filename, "generated-image-3.jpg");
    assert_eq!(made.data, b"png-bytes");
    assert!(generated_image_attachment_from_data_url("data:image/png;base64,###", None, 0).is_none());
    assert!(generated_image_attachment_from_data_url("https://x/y.png", None, 0).is_none());
    assert!(split_image_url("data:image/png;base64,AAAA", None).is_some());
    assert!(image_attachment("image/png", None, 0).is_none());
}

#[test]
fn each_image_is_attached_once() {
    let mut turn = Turn::new("draw".to_string());
    let value = r#"{"type": "image_generated", "data": "data:image/png;base64,AAAA"}"#;
    for _ in 0..2 {
        turn.record_tool_call("image_generate", Value::Null);
        turn.record_tool_result(json(value));
    }
    turn.record_tool_call("image_generate", Value::Null);
    turn.record_tool_error("failed".to_string());
    assert_eq!(generated_image_attachments_for_turn(&turn).len(), 1);
}

#[test]
fn internal_messages_are_forwarded_as_they_are() {
    let mut message = IncomingMessage::new("gateway", "alice", "job done");
    message.is_internal = true;
    let mut intake = Intake::new(true, &message);
    let action = intake.step(&message, IntakeEvent::Begin);
    assert_eq!(replied(&action), "job done");
}

#[test]
fn user_text_passes_the_hooks_before_its_thread_is_loaded() {
    let message = IncomingMessage::new("gateway", "alice", "hello").with_thread("not-a-uuid");
    let mut intake = Intake::new(false, &message);
    let action = intake.step(&message, IntakeEvent::Begin);
    match action {
        IntakeAction::SetToolContext { channel, target } => {
            assert_eq!(channel, "gateway");
            assert_eq!(target, "alice");
        }
        _ => panic!("the tools come first"),
    }
    assert!(matches!(
        intake.step(&message, IntakeEvent::ContextSet),
        IntakeAction::Parse
    ));
    let action = intake.step(
        &message,
        IntakeEvent::Parsed(Submission::UserInput {
            content: "hello".to_string(),
        }),
    );
    assert!(matches!(action, IntakeAction::RunInboundHook { content } if content == "hello"));
    let action = intake.step(
        &message,
        IntakeEvent::Hooked(HookVerdict::Modified {
            content: "hello!".to_string(),
        }),
    );
    assert!(matches!(action, IntakeAction::Hydrate { thread_id } if thread_id == "not-a-uuid"));
    let action = intake.step(&message, IntakeEvent::Hydrated(None));
    match action {
        IntakeAction::Bind { submission, target } => {
            assert!(matches!(submission, Submission::UserInput { content } if content == "hello!"));
            assert_eq!(target, None);
        }
        _ => panic!("the text is bound to its thread"),
    }
    assert!(matches!(
        intake.step(&message, IntakeEvent::Begin),
        IntakeAction::Ignore
    ));
}

#[test]
fn hooks_can_turn_a_text_down() {
    for (verdict, reply) in [
        (
            HookVerdict::Rejected {
                reason: "spam".to_string(),
            },
            "[Message rejected: spam]",
        ),
        (
            HookVerdict::Failed {
                error: "timeout".to_string(),
            },
            "[Message blocked by hook policy: timeout]",
        ),
    ] {
        let mut message = IncomingMessage::new("gateway", "alice", "hello");
        message.structured_submission = Some(Submission::UserInput {
            content: "hello".to_string(),
        });
        let mut intake = Intake::new(true, &message);
        intake.step(&message, IntakeEvent::Begin);
        intake.step(&message, IntakeEvent::ContextSet);
        let action = intake.step(&message, IntakeEvent::Hooked(verdict));
        assert_eq!(replied(&action), reply);
    }
}

#[test]
fn rejected_threads_are_not_entered() {
    let message = IncomingMessage::new("gateway", "alice", "/undo").with_thread("t");
    let mut intake = Intake::new(true, &message);
    intake.step(&message, IntakeEvent::Begin);
    intake.step(&message, IntakeEvent::ContextSet);
    intake.step(&message, IntakeEvent::Parsed(Submission::Undo));
    let action = intake.step(
        &message,
        IntakeEvent::Hydrated(Some("not your thread".to_string())),
    );
    assert_eq!(replied(&action), "Error: not your thread");
}

#[test]
fn approvals_name_their_thread_by_its_id() {
    let id = Uuid::new_v4();
    let message = IncomingMessage::new("gateway", "alice", "/approve")
        .with_thread(&id.to_string());
    let mut intake = Intake::new(false, &message);
    intake.step(&message, IntakeEvent::Begin);
    intake.step(&message, IntakeEvent::ContextSet);
    intake.step(
        &message,
        IntakeEvent::Parsed(Submission::ApprovalResponse {
            approved: true,
            always: false,
        }),
    );
    match intake.step(&message, IntakeEvent::Hydrated(None)) {
        IntakeAction::Bind { target, .. } => assert_eq!(target, Some(id.as_u128())),
        _ => panic!("the approval is bound"),
    }
}

#[test]
fn bare_keyword_without_a_gate_is_text_for_the_engine() {
    let message = IncomingMessage::new("gateway", "alice", "yes");
    let mut intake = Intake::new(true, &message);
    intake.step(&message, IntakeEvent::Begin);
    intake.step(&message, IntakeEvent::ContextSet);
    let action = intake.step(
        &message,
        IntakeEvent::Parsed(Submission::ApprovalResponse {
            approved: true,
            always: false,
        }),
    );
    assert!(matches!(action, IntakeAction::QueryPendingAuth));
    let action = intake.step(&message, IntakeEvent::PendingAuth(false));
    assert!(matches!(action, IntakeAction::QueryPendingGate));
    let action = intake.step(&message, IntakeEvent::PendingGate(false));
    assert!(matches!(action, IntakeAction::RunInboundHook { content } if content == "yes"));
    let action = intake.step(&message, IntakeEvent::Hooked(HookVerdict::Pass));
    assert!(matches!(
        action,
        IntakeAction::CallEngine(EngineCall::UserInput { content }) if content == "yes"
    ));
    let action = intake.step(
        &message,
        IntakeEvent::Handled(Ok(BridgeOutcome::Respond("hi".to_string()))),
    );
    assert_eq!(replied(&action), "hi");
}

#[test]
fn slash_approval_goes_to_the_engine_gate() {
    let message = IncomingMessage::new("gateway", "alice", " /approve");
    let mut intake = Intake::new(true, &message);
    intake.step(&message, IntakeEvent::Begin);
    intake.step(&message, IntakeEvent::ContextSet);
    let action = intake.step(
        &message,
        IntakeEvent::Parsed(Submission::ApprovalResponse {
            approved: true,
            always: true,
        }),
    );
    assert!(matches!(action, IntakeAction::QueryPendingAuth));
    assert_eq!(intake.phase, IntakePhase::RoutingAuth);
    let action = intake.step(&message, IntakeEvent::PendingAuth(false));
    assert!(matches!(
        action,
        IntakeAction::CallEngine(EngineCall::Approval {
            approved: true,
            always: true
        })
    ));
    let action = intake.step(&message, IntakeEvent::Handled(Err("boom".to_string())));
    assert!(matches!(action, IntakeAction::Finish(Err(e)) if e == "boom"));
}

#[test]
fn images_of_a_turn_have_names_of_their_own() {
    let mut turn = Turn::new("draw".to_string());
    for data in ["AAAA", "BBBB", "CCCC"] {
        turn.record_tool_call("image_generate", Value::Null);
        turn.record_tool_result(json(&format!(
            r#"{{"type": "image_generated", "data": "data:image/png;base64,{data}"}}"#
        )));
    }
    let names: Vec<String> = generated_image_attachments_for_turn(&turn)
        .into_iter()
        .map(|a| a.filename)
        .collect();
    assert_eq!(
        names,
        [
            "generated-image-1.png",
            "generated-image-2.png",
            "generated-image-3.png"
        ]
    );
}
