use agent_loop::message::{chat_tool_execution_metadata, IncomingMessage};
use agent_loop::notify::{
    channel_to_look_up, forward_routine, forward_routine_after, resolve_channel_notification_user,
    resolve_owner_scope_notification_user, resolve_routine_notification_target,
    resolve_routine_notification_user, routine_channel_to_look_up,
    should_fallback_routine_notification, trimmed_option, ChannelError, Forward, HeartbeatRoute,
};
use serde_json::Value;

fn json(text: &str) -> Value {
    serde_json::from_str(text).unwrap()
}

#[test]
fn resolve_routine_notification_user_prefers_explicit_target() {
    let metadata = json(r#"{ "notify_user": "12345", "owner_id": "owner-scope" }"#);

    let resolved = resolve_routine_notification_user(&metadata);
    assert_eq!(resolved.as_deref(), Some("12345"));
}

#[test]
fn resolve_routine_notification_user_falls_back_to_owner_scope() {
    let metadata = json(r#"{ "notify_user": null, "owner_id": "owner-scope" }"#);

    let resolved = resolve_routine_notification_user(&metadata);
    assert_eq!(resolved.as_deref(), Some("owner-scope"));
}

#[test]
fn resolve_routine_notification_user_rejects_missing_values() {
    let metadata = json(r#"{ "notify_user": "   " }"#);

    assert_eq!(resolve_routine_notification_user(&metadata), None);
}

#[test]
fn chat_tool_execution_metadata_prefers_message_routing_target() {
    let message = IncomingMessage::new("telegram", "owner-scope", "hello")
        .with_sender_id("telegram-user")
        .with_thread("thread-7")
        .with_metadata(json(r#"{ "chat_id": 424242, "chat_type": "private" }"#));

    let metadata = chat_tool_execution_metadata(&message);
    assert_eq!(
        metadata.get("notify_channel").and_then(|v| v.as_str()),
        Some("telegram")
    );
    assert_eq!(
        metadata.get("notify_user").and_then(|v| v.as_str()),
        Some("424242")
    );
    assert_eq!(
        metadata.get("notify_thread_id").and_then(|v| v.as_str()),
        Some("thread-7")
    );
}

#[test]
fn chat_tool_execution_metadata_falls_back_to_user_scope_without_route() {
    let message = IncomingMessage::new("gateway", "owner-scope", "hello").with_sender_id("");

    let metadata = chat_tool_execution_metadata(&message);
    assert_eq!(
        metadata.get("notify_channel").and_then(|v| v.as_str()),
        Some("gateway")
    );
    assert_eq!(
        metadata.get("notify_user").and_then(|v| v.as_str()),
        Some("owner-scope")
    );
    assert_eq!(metadata.get("notify_thread_id"), Some(&Value::Null));
}

#[test]
fn targeted_routine_notifications_do_not_fallback_without_owner_route() {
    let error = ChannelError::MissingRoutingTarget {
        name: "telegram".to_string(),
        reason: "No stored owner routing target for channel 'telegram'.".to_string(),
    };

    assert!(!should_fallback_routine_notification(&error));
}

#[test]
fn targeted_routine_notifications_may_fallback_for_other_errors() {
    let error = ChannelError::SendFailed {
        name: "telegram".to_string(),
        reason: "timeout talking to channel".to_string(),
    };

    assert!(should_fallback_routine_notification(&error));
}

#[test]
fn signal_target_comes_before_chat_id() {
    let message = IncomingMessage::new("signal", "owner", "hi")
        .with_metadata(json(r#"{ "signal_target": "group:7", "chat_id": 1 }"#));
    assert_eq!(message.routing_target().as_deref(), Some("group:7"));
    assert_eq!(message.answer_target(), "group:7");
}

#[test]
fn blank_options_count_as_missing() {
    assert_eq!(trimmed_option(Some("  a b ")).as_deref(), Some("a b"));
    assert_eq!(trimmed_option(Some(" \n ")), None);
    assert_eq!(trimmed_option(None), None);
    assert_eq!(
        resolve_owner_scope_notification_user(Some(" "), Some("owner")).as_deref(),
        Some("owner")
    );
    assert_eq!(resolve_owner_scope_notification_user(None, None), None);
}

#[test]
fn named_user_is_preferred_to_a_looked_up_one() {
    assert_eq!(channel_to_look_up(Some("telegram"), Some("bob")), None);
    assert_eq!(
        channel_to_look_up(Some("telegram"), None).as_deref(),
        Some("telegram")
    );
    assert_eq!(
        resolve_channel_notification_user(
            Some("777".to_string()),
            Some("telegram"),
            Some("bob"),
            Some("owner")
        )
        .as_deref(),
        Some("bob")
    );
    assert_eq!(
        resolve_channel_notification_user(
            Some("777".to_string()),
            Some("telegram"),
            None,
            Some("owner")
        )
        .as_deref(),
        Some("777")
    );
    assert_eq!(
        resolve_channel_notification_user(None, Some("telegram"), None, Some("owner")).as_deref(),
        Some("owner")
    );
}

#[test]
fn routine_goes_to_its_channel_and_then_to_all() {
    let metadata = json(r#"{ "notify_channel": "telegram", "owner_id": "owner" }"#);
    assert_eq!(
        routine_channel_to_look_up(&metadata).as_deref(),
        Some("telegram")
    );
    assert_eq!(
        resolve_routine_notification_target(Some("42".to_string()), &metadata).as_deref(),
        Some("42")
    );
    match forward_routine(Some("42".to_string()), &metadata) {
        Forward::Send { channel, user } => {
            assert_eq!(channel, "telegram");
            assert_eq!(user, "42");
        }
        _ => panic!("the channel comes first"),
    }
    let sent = forward_routine_after(Ok(()), &metadata);
    assert!(matches!(sent, Forward::Stop));
    let failed = forward_routine_after(
        Err(ChannelError::SendFailed {
            name: "telegram".to_string(),
            reason: "timeout".to_string(),
        }),
        &metadata,
    );
    match failed {
        Forward::SendToAll { user } => assert_eq!(user, "owner"),
        _ => panic!("the owner is reached on all channels"),
    }
    let unroutable = forward_routine_after(
        Err(ChannelError::MissingRoutingTarget {
            name: "telegram".to_string(),
            reason: "no route".to_string(),
        }),
        &metadata,
    );
    assert!(matches!(unroutable, Forward::Stop));
}

#[test]
fn heartbeat_of_many_tenants_reaches_each_owner() {
    let route = HeartbeatRoute {
        channel: Some("telegram".to_string()),
        target: Some("admin".to_string()),
        user: Some("admin".to_string()),
        multi_tenant: true,
    };
    let metadata = json(r#"{ "owner_id": "alice" }"#);
    match route.forward(&metadata) {
        Forward::Send { channel, user } => {
            assert_eq!(channel, "telegram");
            assert_eq!(user, "alice");
        }
        _ => panic!("sent to the tenant"),
    }
    match route.forward_after(false, &metadata) {
        Forward::SendToAll { user } => assert_eq!(user, "alice"),
        _ => panic!("falls back to the tenant"),
    }
    assert!(matches!(route.forward_after(true, &metadata), Forward::Stop));
}

#[test]
fn answer_metadata_leads_back_to_the_sender() {
    let message = IncomingMessage::new("telegram", "owner", "hi").with_sender_id("99");
    let metadata = chat_tool_execution_metadata(&message);
    assert_eq!(
        resolve_routine_notification_user(&metadata).as_deref(),
        Some("99")
    );
}
