use vrcx_bir::json::Json;
use vrcx_bir::vr_overlay::config::{effective_refresh_hz, NotificationConfig, NotificationTarget};
use vrcx_bir::vr_overlay::notification::{Delivery, Notification, NotificationRouter, Priority};
use vrcx_bir::vr_overlay::wrist::{OpenXrCapability, WristError, WristFrame};

#[test]
fn category_filters_are_applied() {
    let mut c = NotificationConfig::default();
    c.categories = vec!["invite".into()];
    let r = NotificationRouter::new(c);
    assert!(r.accepts("invite"));
    assert!(!r.accepts("friend-online"));
}

#[test]
fn muted_categories_win_over_listed_ones() {
    let mut c = NotificationConfig::default();
    c.categories = vec!["invite".into()];
    c.muted_categories = vec!["invite".into()];
    let r = NotificationRouter::new(c);
    assert!(!r.accepts("invite"));
    assert!(r.deliveries("invite").is_empty());
}

#[test]
fn deliveries_follow_the_targets() {
    let mut c = NotificationConfig::default();
    c.targets = vec![
        NotificationTarget::XsOverlay,
        NotificationTarget::Custom,
        NotificationTarget::OvrToolkit,
    ];
    let plain = NotificationRouter::new(c);
    assert_eq!(
        plain.deliveries("friend-online"),
        vec![Delivery::XsOverlay, Delivery::OvrToolkit]
    );
    let with_sink = plain.with_custom_sink();
    assert_eq!(
        with_sink.deliveries("friend-online"),
        vec![Delivery::XsOverlay, Delivery::Custom, Delivery::OvrToolkit]
    );
}

#[test]
fn xs_texts_follow_the_settings() {
    let mut c = NotificationConfig::default();
    c.include_body = false;
    let r = NotificationRouter::new(c);
    let n = Notification {
        title: "Ada".to_string(),
        body: "is online".to_string(),
        category: "friend-online".to_string(),
        icon: None,
        priority: Priority::default(),
        metadata: Json::Null,
    };
    let (title, body, icon) = r.xs_texts(&n);
    assert_eq!(title, "Ada");
    assert_eq!(body, "");
    assert_eq!(icon, "default");
    assert_eq!(n.priority, Priority::Normal);
}

#[test]
fn frames_must_hold_four_bytes_a_pixel() {
    let ok = WristFrame::new(2, 1, vec![0; 8]).unwrap();
    assert_eq!(ok.width, 2);
    let err = WristFrame::new(2, 2, vec![0; 8]).unwrap_err();
    assert_eq!(
        err,
        WristError::Render("invalid RGBA frame: 8 bytes, expected 16".to_string())
    );
    assert_eq!(
        err.message(),
        "wrist renderer failed: invalid RGBA frame: 8 bytes, expected 16"
    );
}

#[test]
fn oversized_frames_are_an_error() {
    let err = WristFrame::new(u32::MAX, u32::MAX, Vec::new()).unwrap_err();
    assert_eq!(
        err,
        WristError::Render(
            "invalid RGBA frame: 0 bytes, expected 73786976260478468100".to_string()
        )
    );
}

#[test]
fn openxr_without_overlay_extension_explains_why() {
    let cap = OpenXrCapability::from_probe(Some("Monado".to_string()), false);
    assert_eq!(
        cap.reason.as_deref(),
        Some("XR_EXTX_overlay is unavailable; use WayVR as the compositor bridge")
    );
    assert!(OpenXrCapability::from_probe(None, true).reason.is_none());
}

#[test]
fn refresh_rate_is_at_least_one() {
    assert_eq!(effective_refresh_hz(0), 1);
    assert_eq!(effective_refresh_hz(10), 10);
}
