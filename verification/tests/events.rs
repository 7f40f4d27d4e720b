use serde_json::Value;
use std::collections::VecDeque;
use vrcx_bir::json::{Json, JsonEntry, JsonNumber};
use vrcx_bir::screen_overlay::config::ScreenOverlayConfig;
use vrcx_bir::screen_overlay::{color_text_readable, parse_color, Rgb, ScreenOverlay};
use vrcx_bir::store::reducer::{
    apply_event, notification_to_load, CacheAction, EventEffect, RecentPipelineEvent,
};
use vrcx_bir::store::state::AppSnapshot;
use vrcx_bir::websocket::{frame_text, message_result, not_text_error, ConnectionFailure, Frame, FrameText};
use vrcx_bir::websocket::event::{
    parse_pipeline_message, FriendLocationContent, FriendOfflineContent,
    FriendOnlineContent, NotificationV2Delete, PipelineEvent, PipelineMessage, PipelineParseError,
};

fn to_json(v: &Value) -> Json {
    match v {
        Value::Null => Json::Null,
        Value::Bool(b) => Json::Bool(*b),
        Value::Number(n) => Json::Number(JsonNumber {
            unsigned: n.as_u64(),
            signed: n.as_i64(),
            text: n.to_string(),
        }),
        Value::String(s) => Json::Str(s.clone()),
        Value::Array(items) => Json::Array(items.iter().map(to_json).collect()),
        Value::Object(members) => Json::Object(
            members
                .iter()
                .map(|(k, v)| JsonEntry { key: k.clone(), value: to_json(v) })
                .collect(),
        ),
    }
}

fn json(text: &str) -> Json {
    to_json(&serde_json::from_str::<Value>(text).unwrap())
}

fn parse_message(text: &str) -> Result<PipelineMessage, PipelineParseError> {
    parse_pipeline_message(text)
}

#[test]
fn parses_double_encoded_content() {
    let message = r#"{"type":"friend-delete","content":"{\"userId\":\"usr_123\"}"}"#;

    let parsed = parse_message(message).unwrap();

    assert_eq!(
        parsed,
        PipelineMessage::Event(PipelineEvent::FriendDelete { user_id: "usr_123".to_string() })
    );
}

#[test]
fn keeps_plain_string_notification_ids() {
    let message = r#"{"type":"see-notification","content":"not_123"}"#;

    let parsed = parse_message(message).unwrap();

    assert_eq!(
        parsed,
        PipelineMessage::Event(PipelineEvent::SeeNotification("not_123".to_string()))
    );
}

#[test]
fn parses_pipeline_errors() {
    let message = r#"{"err":"bad auth","authToken":"authcookie_123"}"#;

    let parsed = parse_message(message).unwrap();

    assert!(matches!(parsed, PipelineMessage::Error(error) if error.err == "bad auth"));
}

#[test]
fn pipeline_error_keeps_other_members() {
    let parsed = parse_message(r#"{"err":"bad auth","authToken":"authcookie_123"}"#).unwrap();
    match parsed {
        PipelineMessage::Error(error) => {
            assert_eq!(error.extra.len(), 1);
            assert_eq!(error.extra[0].key, "authToken");
            assert_eq!(error.extra[0].value, Json::Str("authcookie_123".to_string()));
        }
        other => panic!("unexpected {other:?}"),
    }
}

#[test]
fn rejects_messages_that_are_not_objects() {
    assert_eq!(parse_message("[1,2]"), Err(PipelineParseError::NotAnObject));
    assert_eq!(
        PipelineParseError::NotAnObject.message(),
        "message is not a JSON object"
    );
}

#[test]
fn rejects_messages_without_type() {
    let err = parse_message(r#"{"content":{}}"#).unwrap_err();
    assert_eq!(err, PipelineParseError::MissingType);
    assert_eq!(err.message(), "missing pipeline event type");
}

#[test]
fn reports_invalid_json_text() {
    let err = parse_message("{not json").unwrap_err();
    match &err {
        PipelineParseError::Json(reason) => {
            assert!(err.message().starts_with("invalid JSON: "));
            assert!(err.message().ends_with(reason.as_str()));
        }
        other => panic!("unexpected {other:?}"),
    }
}

#[test]
fn reports_invalid_content_with_reason() {
    let err = parse_message(r#"{"type":"friend-delete","content":{"id":1}}"#).unwrap_err();
    match &err {
        PipelineParseError::InvalidContent { event_type, content, .. } => {
            assert_eq!(event_type, "friend-delete");
            assert_eq!(content, &json(r#"{"id":1}"#));
            assert!(err.message().starts_with("invalid content for friend-delete: "));
        }
        other => panic!("unexpected {other:?}"),
    }
}

#[test]
fn string_content_is_required_for_seen_notifications() {
    let err = parse_message(r#"{"type":"see-notification","content":42}"#).unwrap_err();
    assert_eq!(
        err.message(),
        "invalid content for see-notification: expected string content"
    );
}

#[test]
fn unknown_event_types_are_kept() {
    let parsed = parse_message(r#"{"type":"future-event","content":{"a":true}}"#).unwrap();
    assert_eq!(
        parsed,
        PipelineMessage::Event(PipelineEvent::Unknown {
            event_type: "future-event".to_string(),
            content: json(r#"{"a":true}"#),
        })
    );
}

fn apply(state: &mut AppSnapshot, event: PipelineEvent, now: u64, max: usize) -> (EventEffect, Vec<CacheAction>) {
    let cached = notification_to_load(&event).and_then(|id| state.notifications.get(&id).map(|n| n.copy()));
    apply_event(state, event, cached, now, max)
}

#[test]
fn friend_presence_tracks_online_location_and_offline() {
    let mut state = AppSnapshot::default();
    apply(
        &mut state,
        PipelineEvent::FriendOnline(FriendOnlineContent {
            user_id: "usr_1".to_string(),
            platform: "standalonewindows".to_string(),
            location: "private".to_string(),
            can_request_invite: true,
            user: json(r#"{"id": "usr_1", "displayName": "Ada"}"#),
        }),
        1,
        100,
    );
    apply(
        &mut state,
        PipelineEvent::FriendLocation(FriendLocationContent {
            user_id: "usr_1".to_string(),
            location: "wrld_1:123".to_string(),
            traveling_to_location: String::new(),
            world_id: "wrld_1".to_string(),
            can_request_invite: false,
            user: json(r#"{"id": "usr_1", "displayName": "Ada"}"#),
        }),
        2,
        100,
    );

    let presence = state.friends.get("usr_1").unwrap();
    assert!(presence.online);
    assert_eq!(presence.display_name.as_deref(), Some("Ada"));
    assert_eq!(presence.world_id.as_deref(), Some("wrld_1"));

    let (effect, actions) = apply(
        &mut state,
        PipelineEvent::FriendOffline(FriendOfflineContent {
            user_id: "usr_1".to_string(),
            platform: "standalonewindows".to_string(),
        }),
        3,
        100,
    );
    assert_eq!(effect, EventEffect::StateChanged);
    assert!(actions.is_empty());
    let presence = state.friends.get("usr_1").unwrap();
    assert!(!presence.online);
    assert!(presence.location.is_none());
    assert!(presence.world_id.is_none());
    assert_eq!(state.recent_events.len(), 3);
}

#[test]
fn notifications_and_recent_events_are_kept_and_bounded() {
    let mut state = AppSnapshot::default();
    apply(
        &mut state,
        PipelineEvent::NotificationV2(json(r#"{"id": "not_1", "message": "hello", "seen": false}"#)),
        1,
        2,
    );
    let (_, actions) = apply(&mut state, PipelineEvent::SeeNotification("not_1".to_string()), 2, 2);
    assert_eq!(actions.len(), 1);
    apply(
        &mut state,
        PipelineEvent::Unknown { event_type: "future-event".to_string(), content: Json::Null },
        3,
        2,
    );

    assert_eq!(state.recent_events.len(), 2);
    assert_eq!(state.recent_events[0].sequence + 1, state.recent_events[1].sequence);
    assert_eq!(
        state.notifications.get("not_1").unwrap().get("seen"),
        Some(&Json::Bool(true))
    );

    let (_, actions) = apply(
        &mut state,
        PipelineEvent::NotificationV2Delete(NotificationV2Delete {
            ids: vec!["not_1".to_string()],
            version: 2,
        }),
        4,
        2,
    );
    assert!(state.notifications.is_empty());
    assert_eq!(actions, vec![CacheAction::RemoveNotification("not_1".to_string())]);
}

#[test]
fn clear_notification_empties_the_table() {
    let mut state = AppSnapshot::default();
    apply(&mut state, PipelineEvent::NotificationV2(json(r#"{"id": "a"}"#)), 1, 10);
    apply(&mut state, PipelineEvent::Notification(json(r#"{"id": "b"}"#)), 2, 10);
    assert!(!state.notifications.is_empty());
    apply(&mut state, PipelineEvent::ClearNotification, 3, 10);
    assert!(state.notifications.is_empty());
}

#[test]
fn deleted_friend_is_gone() {
    let mut state = AppSnapshot::default();
    apply(
        &mut state,
        PipelineEvent::FriendOnline(FriendOnlineContent {
            user_id: "usr_9".to_string(),
            platform: "android".to_string(),
            location: "private".to_string(),
            can_request_invite: false,
            user: json(r#"{"displayName": "Bo"}"#),
        }),
        1,
        10,
    );
    assert!(state.friends.get("usr_9").is_some());
    let (_, actions) = apply(&mut state, PipelineEvent::FriendDelete { user_id: "usr_9".to_string() }, 2, 10);
    assert!(state.friends.get("usr_9").is_none());
    assert_eq!(actions, vec![CacheAction::RemoveFriend("usr_9".to_string())]);
}

fn online(sequence: u64, user_id: &str) -> RecentPipelineEvent {
    RecentPipelineEvent {
        sequence,
        received_at_unix_ms: sequence,
        event: PipelineEvent::FriendOnline(FriendOnlineContent {
            user_id: user_id.into(),
            user: json(r#"{"displayName": "Alice"}"#),
            platform: "standalonewindows".into(),
            location: "wrld_test:1".into(),
            can_request_invite: true,
        }),
    }
}

fn events(items: Vec<RecentPipelineEvent>) -> VecDeque<RecentPipelineEvent> {
    items.into_iter().collect()
}

#[test]
fn cached_events_are_ignored_and_new_events_are_emitted_once() {
    let mut overlay = ScreenOverlay::from_config(ScreenOverlayConfig::default());
    assert!(overlay.ingest(&events(vec![online(1, "usr_a")])).is_empty());
    assert_eq!(
        overlay
            .ingest(&events(vec![online(1, "usr_a"), online(2, "usr_a")]))
            .len(),
        1
    );
    assert!(overlay.ingest(&events(vec![online(2, "usr_a")])).is_empty());
}

#[test]
fn an_older_batch_does_not_lower_the_watermark() {
    let mut overlay = ScreenOverlay::from_config(ScreenOverlayConfig::default());
    assert!(overlay.ingest(&events(vec![online(1, "usr_a")])).is_empty());
    assert_eq!(overlay.ingest(&events(vec![online(1, "usr_a"), online(2, "usr_a")])).len(), 1);
    assert!(overlay.ingest(&events(vec![online(1, "usr_a")])).is_empty());
    assert!(overlay.ingest(&events(vec![online(1, "usr_a"), online(2, "usr_a")])).is_empty());
    assert_eq!(overlay.ingest(&events(vec![online(3, "usr_a")])).len(), 1);
}

#[test]
fn selected_user_filter_is_applied() {
    let mut overlay = ScreenOverlay::from_config(ScreenOverlayConfig::default());
    let mut rule = overlay.config.rules.get("friend-online").unwrap().copy();
    rule.selected_users = vec!["usr_wanted".to_string()];
    overlay.config.rules.insert("friend-online".to_string(), rule);
    overlay.ingest(&events(vec![online(1, "usr_wanted")]));
    assert!(overlay.ingest(&events(vec![online(2, "usr_other")])).is_empty());
    assert_eq!(overlay.ingest(&events(vec![online(3, "usr_wanted")])).len(), 1);
}

#[test]
fn preview_works_even_when_live_overlay_is_disabled() {
    let mut config = ScreenOverlayConfig::default();
    config.enabled = false;
    let mut overlay = ScreenOverlay::from_config(config);
    let toast = overlay.preview("friend-online");
    assert!(overlay.has_toasts());
    assert!(toast.title.contains("Utilisateur test"));
    assert!(overlay.expire(toast.id));
}

#[test]
fn emitted_toast_is_rendered_from_the_rule() {
    let mut overlay = ScreenOverlay::from_config(ScreenOverlayConfig::default());
    overlay.ingest(&events(vec![online(0, "usr_a")]));
    let made = overlay.ingest(&events(vec![online(5, "usr_a")]));
    assert_eq!(made.len(), 1);
    assert_eq!(made[0].id, 1);
    assert_eq!(made[0].title, "Alice est en ligne");
    assert_eq!(made[0].body, "Connecte depuis standalonewindows");
    assert_eq!(made[0].accent, Rgb { red: 0x6C, green: 0x8C, blue: 0xFF });
    assert_eq!(made[0].background, Rgb { red: 0x11, green: 0x13, blue: 0x1E });
    assert_eq!(made[0].foreground, Rgb { red: 0xF5, green: 0xF7, blue: 0xFF });
    assert_eq!(made[0].rule, "friend-online");
}

#[test]
fn disabled_overlay_emits_nothing_but_moves_the_watermark() {
    let mut config = ScreenOverlayConfig::default();
    config.enabled = false;
    let mut overlay = ScreenOverlay::from_config(config);
    overlay.ingest(&events(vec![online(1, "usr_a")]));
    assert!(overlay.ingest(&events(vec![online(2, "usr_a")])).is_empty());
    overlay.config.enabled = true;
    assert!(overlay.ingest(&events(vec![online(2, "usr_a")])).is_empty());
    assert_eq!(overlay.ingest(&events(vec![online(3, "usr_a")])).len(), 1);
}

#[test]
fn visible_toasts_are_capped() {
    let mut overlay = ScreenOverlay::from_config(ScreenOverlayConfig::default());
    overlay.ingest(&events(vec![online(0, "usr_a")]));
    let made = overlay.ingest(&events((1..=6).map(|s| online(s, "usr_a")).collect()));
    assert_eq!(made.len(), 6);
    assert_eq!(overlay.toasts().len(), 4);
    assert_eq!(overlay.toasts()[0].id, 3);
    assert!(!overlay.expire(99));
    assert_eq!(overlay.toasts().len(), 4);
    assert!(!overlay.expire(3));
    assert_eq!(overlay.toasts().len(), 3);
}

#[test]
fn an_empty_first_snapshot_sets_no_watermark() {
    let mut overlay = ScreenOverlay::from_config(ScreenOverlayConfig::default());
    assert!(overlay.ingest(&events(vec![])).is_empty());
    assert!(overlay.ingest(&events(vec![online(7, "usr_a")])).is_empty());
    assert_eq!(overlay.ingest(&events(vec![online(8, "usr_a")])).len(), 1);
}

#[test]
fn reset_forgets_toasts_and_watermark() {
    let mut overlay = ScreenOverlay::from_config(ScreenOverlayConfig::default());
    overlay.ingest(&events(vec![online(0, "usr_a")]));
    overlay.ingest(&events(vec![online(1, "usr_a")]));
    assert!(overlay.has_toasts());
    overlay.reset();
    assert!(!overlay.has_toasts());
    assert!(overlay.ingest(&events(vec![online(2, "usr_a")])).is_empty());
}

#[test]
fn colours_parse_as_hex_triples() {
    assert_eq!(parse_color(" #0a0B0c "), Some(Rgb { red: 10, green: 11, blue: 12 }));
    assert_eq!(parse_color("0a0b0c"), None);
    assert_eq!(parse_color("#0a0b0"), None);
    assert_eq!(parse_color("#0g0b0c"), None);
    assert_eq!(parse_color("#+a0b0c"), Some(Rgb { red: 10, green: 11, blue: 12 }));
    assert_eq!(parse_color("#é1234"), None);
    assert!(color_text_readable("#é1234"));
    assert!(!color_text_readable("#1é234"));
}

#[test]
fn frames_are_sorted_into_messages_and_signals() {
    assert_eq!(frame_text(Frame::Text("{}".to_string())), FrameText::Text("{}".to_string()));
    assert_eq!(frame_text(Frame::Binary("hé".as_bytes().to_vec())), FrameText::Text("hé".to_string()));
    assert!(matches!(frame_text(Frame::Binary(vec![0xff, 0x41])), FrameText::NotText(_)));
    assert_eq!(frame_text(Frame::Control), FrameText::Skip);
    assert_eq!(frame_text(Frame::Close), FrameText::Closed);
    assert_eq!(
        not_text_error("bad byte"),
        PipelineParseError::Json("binary message is not UTF-8: bad byte".to_string())
    );
}

#[test]
fn pipeline_error_messages_fail_the_connection() {
    let parsed = parse_message(r#"{"err":"bad auth"}"#);
    assert_eq!(message_result(parsed), Err(ConnectionFailure::Remote("bad auth".to_string())));
    let parsed = parse_message(r#"{"type":"clear-notification"}"#);
    assert_eq!(
        message_result(parsed),
        Ok(PipelineMessage::Event(PipelineEvent::ClearNotification))
    );
    let parsed = parse_message("[]");
    assert_eq!(
        message_result(parsed),
        Err(ConnectionFailure::Parse(PipelineParseError::NotAnObject))
    );
}

#[test]
fn text_that_is_not_json_is_a_parse_error() {
    assert!(matches!(parse_pipeline_message("not json"), Err(PipelineParseError::Json(_))));
    assert!(matches!(
        parse_pipeline_message(r#"{"type":"friend-delete","content":"{not json"}"#),
        Err(_)
    ));
}

#[test]
fn sanitizing_twice_changes_nothing() {
    let mut config = ScreenOverlayConfig::default();
    config.width = 10_000;
    config.margin = 500;
    config.spacing = 49;
    config.max_visible = 0;
    config.rules = vrcx_bir::table::Table::new();
    let once = config.sanitized();
    assert_eq!((once.width, once.margin, once.spacing, once.max_visible), (720, 128, 48, 1));
    let mut keys = once.rules.keys();
    keys.sort();
    let twice = once.clone().sanitized();
    assert_eq!((twice.width, twice.margin, twice.spacing, twice.max_visible), (720, 128, 48, 1));
    let mut keys_twice = twice.rules.keys();
    keys_twice.sort();
    assert_eq!(keys, keys_twice);
    assert_eq!(keys.len(), 10);
}

#[test]
fn preview_ids_start_at_one_and_differ() {
    let mut overlay = ScreenOverlay::from_config(ScreenOverlayConfig::default());
    let first = overlay.preview("friend-online");
    let second = overlay.preview("friend-online");
    assert_eq!(first.id, 1);
    assert_ne!(first.id, second.id);
}
