use serde_json::Value;
use vrcx_bir::json::{Json, JsonEntry, JsonNumber};
use vrcx_bir::models::friend::Friend;
use vrcx_bir::models::users::{flat_user_from_json, SupporterState, TrustRank, UserStatus};
use vrcx_bir::models::world::World;
use vrcx_bir::session::auth::{
    build_basic_auth, detect_two_factor_methods, expired_cookie, find_cookie, login_status,
    logout_status, session_cookie, two_factor_endpoint, verify_status, LoginStatus,
    LogoutStatus, TwoFactorMethod, VerifyStatus,
};
use vrcx_bir::store::{friend_avatar_url, trust_rank_from_tags};

fn to_json(v: &Value) -> Json {
    match v {
        Value::Null => Json::Null,
        Value::Bool(b) => Json::Bool(*b),
        Value::Number(n) => Json::Number(JsonNumber {
            unsigned: n.as_u64(),
            signed: n.as_i64(),
            text: n.to_string(),
        }),
        Value::String(s) => Json::Str(s.clone()),
        Value::Array(items) => Json::Array(items.iter().map(to_json).collect()),
        Value::Object(members) => Json::Object(
            members
                .iter()
                .map(|(k, v)| JsonEntry { key: k.clone(), value: to_json(v) })
                .collect(),
        ),
    }
}

fn json(text: &str) -> Json {
    to_json(&serde_json::from_str::<Value>(text).unwrap())
}

#[test]
fn deserializes_flat_current_user_response() {
    let user = flat_user_from_json(&json(
        r#"{
            "id": "usr_123",
            "username": "legacy-name",
            "displayName": "DrapNard",
            "status": "active",
            "statusDescription": "working",
            "bio": "hello",
            "bioLinks": ["https://example.test"],
            "pronouns": "",
            "userIcon": "",
            "profilePicOverride": "",
            "profilePicOverrideThumbnail": "",
            "currentAvatarImageUrl": "https://example.test/avatar.png",
            "date_joined": "2020-01-01",
            "last_activity": "2026-07-08",
            "last_login": "2026-07-08",
            "last_mobile": null,
            "last_platform": "standalonewindows",
            "presence": {
                "platform": "web"
            },
            "isFriend": false,
            "friendKey": "friend-key",
            "tags": ["system_trust_veteran", "system_trust_trusted", "system_supporter", "language_fra"]
        }"#,
    ));

    assert_eq!(user.identity.id, "usr_123");
    assert_eq!(user.identity.display_name, "DrapNard");
    assert_eq!(user.presence.platform, "web");
    assert_eq!(user.tags.trust_rank, TrustRank::TrustedUser);
    assert_eq!(user.tags.supporter_state, SupporterState::Supporter);
    assert_eq!(user.tags.languages, vec!["fra"]);
    assert_eq!(
        user.profile.current_avatar_image_url,
        "https://example.test/avatar.png"
    );
}

#[test]
fn deserializes_two_factor_required_response() {
    let user = flat_user_from_json(&json(r#"{"requiresTwoFactorAuth": ["totp", "emailOtp"]}"#));

    assert_eq!(
        user.requires_two_factor_auth,
        Some(vec!["totp".to_string(), "emailOtp".to_string()])
    );
}

#[test]
fn flat_user_defaults_and_status() {
    let user = flat_user_from_json(&json(
        r#"{"status": "joinMe", "last_platform": "android", "requiresTwoFactorAuth": []}"#,
    ));
    assert_eq!(user.identity.status.status, UserStatus::JoinMe);
    assert_eq!(user.presence.platform, "android");
    assert_eq!(user.requires_two_factor_auth, None);
    assert_eq!(user.tags.trust_rank, TrustRank::Unknown);
    assert!(!user.social.is_friend);
}

#[test]
fn two_factor_methods_are_detected() {
    let user = flat_user_from_json(&json(r#"{"requiresTwoFactorAuth": ["totp", "otp", "sms"]}"#));
    let methods = detect_two_factor_methods(&user);
    assert_eq!(
        methods,
        vec![
            TwoFactorMethod::Totp,
            TwoFactorMethod::RecoveryCode,
            TwoFactorMethod::Unknown("sms".to_string())
        ]
    );
    assert_eq!(
        two_factor_endpoint(&methods[1]).as_deref(),
        Some("auth/twofactorauth/otp/verify")
    );
    assert_eq!(two_factor_endpoint(&methods[2]), None);
}

#[test]
fn decodes_flat_world_response() {
    let raw = r#"{
        "authorId":"usr_author",
        "authorName":"spacebaar",
        "capacity":80,
        "created_at":"2023-12-08T11:02:11.556Z",
        "defaultContentSettings":{},
        "favorites":405801,
        "heat":8,
        "id":"wrld_266523e8-9161-40da-acd0-6bd82e075833",
        "imageUrl":"https://example.com/image.png",
        "labsPublicationDate":"2024-01-13T03:31:45.106Z",
        "name":"Popcorn Palace",
        "occupants":4343,
        "popularity":10,
        "previewYoutubeId":null,
        "publicationDate":"2024-01-13T03:31:45.107Z",
        "recommendedCapacity":80,
        "releaseStatus":"public",
        "tags":["author_tag_Chill","system_approved"],
        "thumbnailImageUrl":"https://example.com/thumb.png",
        "udonProducts":[],
        "unityPackages":[{"platform":"android"}],
        "updated_at":"2024-01-14T00:00:00.000Z"
    }"#;

    let world = World::from_json(&json(raw));

    assert_eq!(
        world.identifier.id,
        "wrld_266523e8-9161-40da-acd0-6bd82e075833"
    );
    assert_eq!(world.identifier.author.display_name, "spacebaar");
    assert_eq!(world.capacity.capacity, 80);
    assert_eq!(world.capacity.recommended_capacity, 80);
    assert_eq!(world.media.preview_youtube_id, "");
    assert_eq!(world.tags.raw.len(), 2);
}

#[test]
fn friend_avatar_ignores_empty_urls_and_uses_avatar_image() {
    let friend = Friend {
        user_icon: Some(" ".to_string()),
        profile_pic_override_thumbnail: Some(String::new()),
        current_avatar_thumbnail_image_url: None,
        current_avatar_image_url: Some("https://example.test/avatar.png".to_string()),
        ..Friend::decode(&Json::Object(Vec::new())).unwrap()
    };

    assert_eq!(
        friend_avatar_url(&friend).as_deref(),
        Some("https://example.test/avatar.png")
    );
}

#[test]
fn trust_rank_prefers_the_highest_tag() {
    let tags = vec!["system_trust_basic".to_string(), "system_trust_trusted".to_string()];
    assert_eq!(trust_rank_from_tags(&tags).as_deref(), Some("known"));
    assert_eq!(trust_rank_from_tags(&Vec::new()).as_deref(), Some("visitor"));
}

#[test]
fn basic_auth_percent_encodes_then_base64_encodes() {
    assert_eq!(build_basic_auth("user", "p@ss"), "Basic dXNlcjpwJTQwc3M=");
    assert_eq!(build_basic_auth("Adéle", "a b"), "Basic QWQlQzMlQTlsZTphJTIwYg==");
}

#[test]
fn cookies_are_found_and_written() {
    assert_eq!(
        find_cookie("a=1; auth=authcookie_1; b=2", "auth").as_deref(),
        Some("authcookie_1")
    );
    assert_eq!(find_cookie("a=1; b", "auth"), None);
    assert_eq!(session_cookie("auth", "x"), "auth=x; Path=/; Secure; HttpOnly");
    assert_eq!(expired_cookie("auth"), "auth=; Path=/; Max-Age=0; Secure; HttpOnly");
}

#[test]
fn http_statuses_are_classified() {
    assert_eq!(login_status(200), LoginStatus::Accepted);
    assert_eq!(login_status(401), LoginStatus::InvalidCredentials);
    assert_eq!(login_status(500), LoginStatus::HttpError(500));
    assert_eq!(verify_status(403), VerifyStatus::InvalidCode);
    assert_eq!(verify_status(204), VerifyStatus::Accepted);
    assert_eq!(logout_status(401), LogoutStatus::AlreadyLoggedOut);
    assert_eq!(logout_status(502), LogoutStatus::HttpError(502));
}

use vrcx_bir::models::users::{user_from_json, Permissions, Traveling};

const NESTED_USER: &str = r#"{
    "profile": {"bio": "b", "bioLinks": [], "pronouns": "", "userIcon": "", "profilePicOverride": "",
                "profilePicOverrideThumbnail": "", "currentAvatarImageUrl": "", "currentAvatarThumbnailImageUrl": ""},
    "identity": {"id": "usr_1", "username": "u", "displayName": "Ada",
                 "status": {"status": "joinMe", "statusDescription": "hi"}},
    "metadata": {"dateJoined": "d", "lastActivity": "a", "lastLogin": "l", "lastMobile": "m"},
    "presence": {"instance": null, "travelingToInstance": null, "travels": ["none", "traveling"],
                 "platform": "android", "lastPlatform": "web"},
    "social": {"isFriend": true, "friendKey": "k", "friendRequestStatus": "", "mutuals": [], "groups": [], "note": ""},
    "badges": [],
    "tags": {"trustRank": "trustedUser", "trollState": "none", "adminTags": [], "supporterState": "earlySupporter",
             "permissions": ["hasWorldAccess"], "languages": ["fra"], "raw": []},
    "requiresTwoFactorAuth": ["totp"]
}"#;

#[test]
fn reads_nested_user_records() {
    let user = user_from_json(&json(NESTED_USER)).unwrap();
    assert_eq!(user.identity.display_name, "Ada");
    assert_eq!(user.identity.status.status, UserStatus::JoinMe);
    assert_eq!(user.presence.travels, vec![Traveling::Idle, Traveling::Traveling]);
    assert_eq!(user.presence.instance, None);
    assert_eq!(user.tags.trust_rank, TrustRank::TrustedUser);
    assert_eq!(user.tags.supporter_state, SupporterState::EarlySupporter);
    assert_eq!(user.tags.permissions, vec![Permissions::HasWorldAccess]);
    assert!(user.social.is_friend);
    assert!(!user.age_verified);
    assert_eq!(user.requires_two_factor_auth, Some(vec!["totp".to_string()]));
}

#[test]
fn nested_user_records_must_be_complete() {
    let missing = NESTED_USER.replace(r#""metadata": {"dateJoined": "d", "lastActivity": "a", "lastLogin": "l", "lastMobile": "m"},"#, "");
    assert_eq!(
        user_from_json(&json(&missing)).unwrap_err(),
        "missing field `metadata`"
    );
    let unknown = NESTED_USER.replace("trustedUser", "boss");
    assert_eq!(user_from_json(&json(&unknown)).unwrap_err(), "unknown variant `boss`");
}

#[test]
fn flat_records_go_through_the_flat_reader() {
    let user = user_from_json(&json(r#"{"id": "usr_7", "displayName": "Flat"}"#)).unwrap();
    assert_eq!(user.identity.id, "usr_7");
    assert_eq!(user.identity.display_name, "Flat");
}
