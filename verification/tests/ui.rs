use vrcx_bir::ui::world_names::world_name_reply;
use serde_json::Value;
use vrcx_bir::json::{Json, JsonEntry, JsonNumber};
use vrcx_bir::ui::activity::{compact_json, compact_text, pipeline_event_summary};
use vrcx_bir::ui::resources::{
    friend_status, is_traveling, resource_avatar_performance, resource_badges,
    resource_trust_rank, user_status_from_value, AvatarPerformance, PresenceStatus,
};
use vrcx_bir::websocket::event::{FriendOnlineContent, PipelineEvent};
use vrcx_bir::models::favorite::{Favorite, FavoriteGroup, FavoriteType};
use vrcx_bir::store::state::FriendPresence;
use vrcx_bir::table::Table;
use vrcx_bir::ui::favorites::favorite_display_groups;
use vrcx_bir::ui::friends::{friend_secondary_text, public_instance_location};

#[test]
fn favorite_tags_create_distinct_categories_even_without_matching_metadata() {
    let groups = vec![FavoriteGroup {
        id: "fvgrp_1".to_string(),
        name: "custom-internal-name".to_string(),
        display_name: "Proches".to_string(),
        owner_id: "usr_1".to_string(),
        owner_display_name: String::new(),
        favorite_type: FavoriteType::Friend,
        visibility: "private".to_string(),
        tags: vec!["group_0".to_string()],
    }];
    let first = Favorite {
        id: "fvrt_1".to_string(),
        favorite_id: "usr_2".to_string(),
        favorite_type: FavoriteType::Friend,
        tags: vec!["group_0".to_string()],
    };
    let second = Favorite {
        id: "fvrt_2".to_string(),
        favorite_id: "usr_3".to_string(),
        favorite_type: FavoriteType::Friend,
        tags: vec!["group_1".to_string()],
    };

    assert_eq!(favorite_display_groups(&first, &groups), vec!["Proches"]);
    assert_eq!(favorite_display_groups(&second, &groups), vec!["group_1"]);
}

#[test]
fn separates_public_instances_and_prefers_custom_status_text() {
    let public = FriendPresence {
        online: true,
        location: Some("wrld_1:123~region(eu)".to_string()),
        status_description: Some("Je construis un avatar".to_string()),
        ..FriendPresence::default()
    };
    assert_eq!(
        public_instance_location(&public).as_deref(),
        Some("wrld_1:123~region(eu)")
    );
    assert_eq!(
        friend_secondary_text(&public, &Table::new()).as_deref(),
        Some("Je construis un avatar")
    );

    let private = FriendPresence {
        online: true,
        location: Some("wrld_1:123~private(usr_1)".to_string()),
        ..FriendPresence::default()
    };
    assert!(public_instance_location(&private).is_none());
}

fn to_json(v: &Value) -> Json {
    match v {
        Value::Null => Json::Null,
        Value::Bool(b) => Json::Bool(*b),
        Value::Number(n) => Json::Number(JsonNumber {
            unsigned: n.as_u64(),
            signed: n.as_i64(),
            text: n.to_string(),
        }),
        Value::String(s) => Json::Str(s.clone()),
        Value::Array(items) => Json::Array(items.iter().map(to_json).collect()),
        Value::Object(members) => Json::Object(
            members
                .iter()
                .map(|(k, v)| JsonEntry { key: k.clone(), value: to_json(v) })
                .collect(),
        ),
    }
}

fn json(text: &str) -> Json {
    to_json(&serde_json::from_str::<Value>(text).unwrap())
}

#[test]
fn activity_summary_does_not_expose_profile_payload() {
    let event = PipelineEvent::FriendOnline(FriendOnlineContent {
        user_id: "usr_123".to_string(),
        platform: "android".to_string(),
        location: "private".to_string(),
        can_request_invite: true,
        user: json(
            r#"{
                "displayName": "Alice",
                "bio": "private profile content",
                "tags": ["private-tag"]
            }"#,
        ),
    });

    let (title, detail) = pipeline_event_summary(&event, &Table::new());

    assert_eq!(title, "Friend online");
    assert_eq!(detail, "Alice on android");
    assert!(!detail.contains("private profile content"));
    assert!(!detail.contains("private-tag"));
}

#[test]
fn compact_json_truncates_unicode_on_character_boundaries() {
    let value = json(&format!(r#"{{"bio": "{}"}}"#, "é".repeat(300)));
    let compact = compact_json(&value);

    assert!(compact.ends_with("..."));
    assert!(compact.chars().count() <= 240);
}

#[test]
fn compact_json_writes_compact_text() {
    assert_eq!(compact_json(&json(r#"{"b": [1, 2], "a": "x"}"#)), r#"{"a":"x","b":[1,2]}"#);
}

#[test]
fn compact_text_keeps_short_text() {
    assert_eq!(compact_text("{}"), "{}");
    let exact = "a".repeat(237);
    assert_eq!(compact_text(&exact), exact);
    let longer = "a".repeat(238);
    assert_eq!(compact_text(&longer), format!("{}...", "a".repeat(237)));
}

#[test]
fn user_badges_include_age_verification_and_friendship() {
    let value = json(
        r#"{
            "ageVerified": true,
            "social": {"isFriend": true},
            "identity": {"status": {"status": "active"}}
        }"#,
    );

    assert_eq!(
        resource_badges(&value),
        vec!["18+ VERIFIED", "FRIEND", "ACTIVE"]
    );
}

#[test]
fn maps_vrchat_presence_statuses() {
    assert_eq!(friend_status(Some("active"), true), PresenceStatus::Online);
    assert_eq!(friend_status(Some("joinMe"), true), PresenceStatus::JoinMe);
    assert_eq!(friend_status(Some("askMe"), true), PresenceStatus::AskMe);
    assert_eq!(
        friend_status(Some("busy"), true),
        PresenceStatus::DoNotDisturb
    );
    assert_eq!(
        user_status_from_value(&json(r#"{"status": "offline"}"#)),
        PresenceStatus::Offline
    );
}

#[test]
fn offline_friends_show_offline_whatever_their_status() {
    assert_eq!(friend_status(Some("joinMe"), false), PresenceStatus::Offline);
}

#[test]
fn maps_trust_rank_and_travel_state() {
    let user = json(
        r#"{
            "tags": {"trustRank": "trustedUser"},
            "travelingToLocation": "wrld_123:instance"
        }"#,
    );

    assert_eq!(resource_trust_rank(&user).as_deref(), Some("trusted"));
    assert!(is_traveling(&user));
}

#[test]
fn avatar_performance_uses_worst_available_platform_rating() {
    let avatar = json(
        r#"{
            "id": "avtr_123",
            "performance": {
                "android": "VeryPoor",
                "ios": "good",
                "standalonewindows": "Poor",
                "android_sort": 1
            }
        }"#,
    );

    assert_eq!(
        resource_avatar_performance(&avatar),
        Some(AvatarPerformance::VeryPoor)
    );
}

use vrcx_bir::screen_overlay::config::EventRule;
use vrcx_bir::ui::friends::FriendSection;
use vrcx_bir::ui::navigation::{
    add_page_to_nav, create_nav_category, grown_limit, remove_page_from_nav, select_everyone,
    select_favorites, toggle_name, toggle_rule_user, toggle_section, NavCategory,
};
use vrcx_bir::ui::pages::Page;

#[test]
fn nav_categories_are_created_once_per_name() {
    let mut cats = vec![NavCategory::essentials("Essentials".to_string())];
    assert_eq!(cats[0].pages.len(), 7);
    assert!(create_nav_category(&mut cats, "  Social  "));
    assert_eq!(cats[1].name, "Social");
    assert!(cats[1].pages.is_empty());
    assert!(!create_nav_category(&mut cats, "SOCIAL"));
    assert!(!create_nav_category(&mut cats, "   "));
    assert_eq!(cats.len(), 2);
}

#[test]
fn pages_are_added_once_and_removed() {
    let mut cats = vec![
        NavCategory::essentials("Essentials".to_string()),
        NavCategory { name: "Social".to_string(), pages: Vec::new() },
    ];
    add_page_to_nav(&mut cats, "Social", Page::Friends);
    add_page_to_nav(&mut cats, "Social", Page::Friends);
    add_page_to_nav(&mut cats, "Missing", Page::Api);
    assert_eq!(cats[1].pages, vec![Page::Friends]);
    assert!(!remove_page_from_nav(&mut cats, "Essentials", Page::Worlds, Page::Dashboard));
    assert!(!cats[0].pages.contains(&Page::Worlds));
    assert!(remove_page_from_nav(&mut cats, "Social", Page::Friends, Page::Friends));
    assert!(cats[1].pages.is_empty());
    cats[1].pages.push(Page::Groups);
    assert!(!remove_page_from_nav(&mut cats, "Essentials", Page::Groups, Page::Groups));
}

#[test]
fn row_limits_grow_to_the_total() {
    assert_eq!(grown_limit(28, 28, 100), Some(56));
    assert_eq!(grown_limit(84, 28, 100), Some(100));
    assert_eq!(grown_limit(100, 28, 100), None);
}

#[test]
fn toggling_twice_restores_the_collapsed_sections() {
    let mut sections = vec![FriendSection::Offline];
    toggle_section(&mut sections, FriendSection::Web);
    assert_eq!(sections, vec![FriendSection::Offline, FriendSection::Web]);
    toggle_section(&mut sections, FriendSection::Web);
    assert_eq!(sections, vec![FriendSection::Offline]);
    let mut names = vec!["a".to_string()];
    toggle_name(&mut names, "a".to_string());
    assert!(names.is_empty());
}

#[test]
fn rule_audience_is_edited() {
    let mut rule = EventRule::default();
    assert!(rule.favorites_only);
    toggle_rule_user(&mut rule, "usr_1".to_string());
    assert_eq!(rule.selected_users, vec!["usr_1".to_string()]);
    assert!(!rule.favorites_only);
    toggle_rule_user(&mut rule, "usr_1".to_string());
    assert!(rule.selected_users.is_empty());
    toggle_rule_user(&mut rule, "usr_2".to_string());
    select_favorites(&mut rule);
    assert!(rule.selected_users.is_empty() && rule.favorites_only);
    select_everyone(&mut rule);
    assert!(!rule.favorites_only);
}

use vrcx_bir::ui::favorites::{favorite_resource_path, favorite_resource_record, friend_group_records};

fn friend_group(id: &str, name: &str, display: &str, ty: FavoriteType) -> FavoriteGroup {
    FavoriteGroup {
        id: id.to_string(),
        name: name.to_string(),
        display_name: display.to_string(),
        owner_id: "usr_me".to_string(),
        owner_display_name: String::new(),
        favorite_type: ty,
        visibility: "private".to_string(),
        tags: vec![],
    }
}

#[test]
fn favorite_resources_are_labelled() {
    let groups = vec![FavoriteGroup {
        tags: vec!["worlds1".to_string()],
        ..friend_group("fvgrp_w", "worlds1", "Chill", FavoriteType::World)
    }];
    let favorite = Favorite {
        id: "fvrt_9".to_string(),
        favorite_id: "wrld_1".to_string(),
        favorite_type: FavoriteType::World,
        tags: vec!["worlds1".to_string()],
    };
    assert_eq!(favorite_resource_path(&favorite).as_deref(), Some("worlds/wrld_1"));
    let record = favorite_resource_record(json(r#"{"id":"wrld_1","name":"Cafe"}"#), &favorite, &groups);
    assert_eq!(record.get("name"), Some(&Json::Str("Cafe".to_string())));
    assert_eq!(record.get("_favoriteId"), Some(&Json::Str("fvrt_9".to_string())));
    assert_eq!(record.get("_favoriteType"), Some(&Json::Str("world".to_string())));
    assert_eq!(record.get("_favoriteGroups"), Some(&json(r#"["Chill"]"#)));
    let missing = favorite_resource_record(Json::Null, &favorite, &groups);
    assert_eq!(
        missing.get("description"),
        Some(&Json::Str("Favorite resource unavailable".to_string()))
    );
    assert_eq!(missing.get("name"), Some(&Json::Str("wrld_1".to_string())));
    let unknown = Favorite { favorite_type: FavoriteType::Unknown, ..favorite };
    assert_eq!(favorite_resource_path(&unknown), None);
}

#[test]
fn friend_favorite_groups_list_their_members() {
    let groups = vec![
        friend_group("fvgrp_1", "group_0", "Proches", FavoriteType::Friend),
        friend_group("fvgrp_2", "avatars1", "Avatars", FavoriteType::Avatar),
    ];
    let favorites = vec![
        Favorite {
            id: "fvrt_1".to_string(),
            favorite_id: "usr_2".to_string(),
            favorite_type: FavoriteType::Friend,
            tags: vec!["group_0".to_string()],
        },
        Favorite {
            id: "fvrt_2".to_string(),
            favorite_id: "usr_3".to_string(),
            favorite_type: FavoriteType::Friend,
            tags: vec!["group_1".to_string()],
        },
    ];
    let mut friends = Table::new();
    friends.insert(
        "usr_2".to_string(),
        FriendPresence {
            user_id: "usr_2".to_string(),
            display_name: Some("Bea".to_string()),
            ..FriendPresence::default()
        },
    );
    let records = friend_group_records(&groups, &favorites, &friends);
    assert_eq!(records.len(), 1);
    assert_eq!(records[0].get("description"), Some(&Json::Str("1 friends".to_string())));
    let members = records[0].get("members").and_then(|m| m.as_array()).unwrap();
    assert_eq!(members.len(), 1);
    assert_eq!(members[0].get("id"), Some(&Json::Str("usr_2".to_string())));
    assert_eq!(members[0].get("displayName"), Some(&Json::Str("Bea".to_string())));
    assert_eq!(members[0].get("userIcon"), Some(&Json::Null));
}

use vrcx_bir::ui::cards::{current_avatar_first, page_user_id};

#[test]
fn records_pages_need_a_user() {
    assert_eq!(page_user_id("  usr_9 ".to_string(), None), Ok("  usr_9 ".to_string()));
    assert_eq!(page_user_id(" ".to_string(), Some("usr_me".to_string())), Ok("usr_me".to_string()));
    assert_eq!(page_user_id(String::new(), None), Err("A user ID is required".to_string()));
}

#[test]
fn worn_avatar_is_listed_first_once() {
    let listed = vec![json(r#"{"id":"avtr_1"}"#), json(r#"{"id":"avtr_2"}"#)];
    let again = current_avatar_first(listed.clone(), Some(json(r#"{"id":"avtr_2"}"#)));
    assert_eq!(again.len(), 2);
    let front = current_avatar_first(listed.clone(), Some(json(r#"{"id":"avtr_3"}"#)));
    assert_eq!(front.len(), 3);
    assert_eq!(front[0].get("id"), Some(&Json::Str("avtr_3".to_string())));
    assert_eq!(current_avatar_first(listed.clone(), Some(Json::Null)).len(), 2);
    assert_eq!(current_avatar_first(listed, None).len(), 2);
}

use vrcx_bir::ui::ordering::{friends_page_records, sort_friends, FriendRank};

fn presence(id: &str, name: &str, online: bool) -> FriendPresence {
    FriendPresence {
        user_id: id.to_string(),
        display_name: Some(name.to_string()),
        online,
        ..FriendPresence::default()
    }
}

#[test]
fn friends_are_listed_online_first_then_by_lowercase_name() {
    let friends = vec![
        presence("usr_1", "bob", false),
        presence("usr_2", "B", true),
        presence("usr_3", "a", true),
    ];
    let sorted = sort_friends(friends, &FriendRank::OnlineFirst);
    let ids: Vec<&str> = sorted.iter().map(|f| f.user_id.as_str()).collect();
    assert_eq!(ids, vec!["usr_3", "usr_2", "usr_1"]);
}

#[test]
fn friends_are_listed_by_section() {
    let friends = vec![
        presence("usr_1", "Cy", true),
        presence("usr_2", "Al", false),
        presence("usr_3", "Bo", false),
    ];
    let sorted = sort_friends(friends, &FriendRank::BySection(vec!["usr_3".to_string()]));
    let ids: Vec<&str> = sorted.iter().map(|f| f.user_id.as_str()).collect();
    assert_eq!(ids, vec!["usr_3", "usr_1", "usr_2"]);
}

#[test]
fn users_page_lists_friend_records() {
    let records = friends_page_records(vec![presence("usr_1", "Zoe", false), presence("usr_2", "Ann", true)]);
    assert_eq!(records.len(), 2);
    assert_eq!(records[0].get("id"), Some(&Json::Str("usr_2".to_string())));
    assert_eq!(records[1].get("displayName"), Some(&Json::Str("Zoe".to_string())));
}

use vrcx_bir::ui::friends::sidebar_section_indices;

#[test]
fn sidebar_sections_pick_their_friends() {
    let friends = vec![
        FriendPresence {
            location: Some("wrld_1:1~region(eu)".to_string()),
            ..presence("usr_1", "Pub", true)
        },
        FriendPresence {
            location: Some("wrld_1:2~private(usr_9)".to_string()),
            ..presence("usr_2", "Priv", true)
        },
        presence("usr_3", "Web", true),
        presence("usr_4", "Off", false),
        presence("usr_5", "Fav", false),
    ];
    let favorites = vec!["usr_5".to_string()];
    assert_eq!(sidebar_section_indices(&friends, &favorites, FriendSection::Favorites), vec![4]);
    assert_eq!(sidebar_section_indices(&friends, &favorites, FriendSection::InVrchat), vec![0]);
    assert_eq!(sidebar_section_indices(&friends, &favorites, FriendSection::Private), vec![1]);
    assert_eq!(sidebar_section_indices(&friends, &favorites, FriendSection::Web), vec![2]);
    assert_eq!(sidebar_section_indices(&friends, &favorites, FriendSection::Offline), vec![3]);
}

use vrcx_bir::screen_overlay::Rgb;
use vrcx_bir::ui::pages::{locale_for_language, Locale};
use vrcx_bir::ui::resources::{rank_color, status_color};

#[test]
fn locale_follows_the_language_setting() {
    assert_eq!(locale_for_language(Some("FR_fr.UTF-8")), Locale::French);
    assert_eq!(locale_for_language(Some("en_US.UTF-8")), Locale::English);
    assert_eq!(locale_for_language(None), Locale::English);
}

#[test]
fn status_and_rank_colours() {
    assert_eq!(status_color(PresenceStatus::Online), Rgb { red: 52, green: 199, blue: 89 });
    assert_eq!(rank_color(Some("trusted")), Rgb { red: 31, green: 18, blue: 44 });
    assert_eq!(rank_color(None), Rgb { red: 19, green: 21, blue: 31 });
}

use vrcx_bir::ui::favorite_friends::{favorite_friend_groups, favorite_friend_ids, FavoriteFriendGroup};

fn tagged(id: &str, tags: &[&str]) -> Favorite {
    Favorite {
        id: format!("fvrt_{id}"),
        favorite_id: id.to_string(),
        favorite_type: FavoriteType::Friend,
        tags: tags.iter().map(|t| t.to_string()).collect(),
    }
}

fn sorted_ids(group: &FavoriteFriendGroup) -> Vec<String> {
    let mut ids = group.friend_ids.clone();
    ids.sort();
    ids.dedup();
    ids
}

#[test]
fn favorite_friends_are_grouped_by_group_and_unclaimed_tag() {
    let groups = vec![
        friend_group("fvgrp_2", "group_2", "  ", FavoriteType::Friend),
        friend_group("fvgrp_1", "group_0", "Proches", FavoriteType::Friend),
        friend_group("fvgrp_3", "avatars1", "Avatars", FavoriteType::Avatar),
    ];
    let favorites = vec![
        tagged("usr_2", &["group_0"]),
        tagged("usr_3", &["group_1"]),
        tagged("usr_4", &["group_1", "group_0"]),
        tagged("usr_5", &[]),
    ];
    let listed = favorite_friend_groups(&groups, &favorites);
    let names: Vec<&str> = listed.iter().map(|g| g.name.as_str()).collect();
    assert_eq!(names, vec!["group_0", "group_1", "group_2"]);
    let displays: Vec<&str> = listed.iter().map(|g| g.display_name.as_str()).collect();
    assert_eq!(displays, vec!["Proches", "group_1", "group_2"]);
    assert_eq!(sorted_ids(&listed[0]), vec!["usr_2", "usr_4"]);
    assert_eq!(sorted_ids(&listed[1]), vec!["usr_3", "usr_4"]);
    assert!(listed[2].friend_ids.is_empty());
}

#[test]
fn favorite_friend_groups_claim_tags_through_group_tags() {
    let groups = vec![FavoriteGroup {
        tags: vec!["close".to_string()],
        ..friend_group("fvgrp_1", "group_0", "Close friends", FavoriteType::Friend)
    }];
    let favorites = vec![tagged("usr_7", &["close"]), tagged("usr_8", &["zeta"])];
    let listed = favorite_friend_groups(&groups, &favorites);
    let names: Vec<&str> = listed.iter().map(|g| g.name.as_str()).collect();
    assert_eq!(names, vec!["group_0", "zeta"]);
    assert_eq!(sorted_ids(&listed[0]), vec!["usr_7"]);
    assert_eq!(sorted_ids(&listed[1]), vec!["usr_8"]);
    assert!(favorite_friend_groups(&vec![], &vec![]).is_empty());
}

#[test]
fn favorite_friend_ids_lists_every_favorite() {
    let favorites = vec![tagged("usr_2", &["group_0"]), tagged("usr_3", &[])];
    let mut ids = favorite_friend_ids(&favorites);
    ids.sort();
    assert_eq!(ids, vec!["usr_2", "usr_3"]);
    assert!(favorite_friend_ids(&vec![]).is_empty());
}

#[test]
fn world_lookups_give_name_and_image() {
    assert_eq!(
        world_name_reply(&json(r#"{"name":"Cafe","thumbnailImageUrl":"https://t","imageUrl":"https://i"}"#)),
        Ok(("Cafe".to_string(), Some("https://t".to_string())))
    );
    assert_eq!(
        world_name_reply(&json(r#"{"name":"Cafe","imageUrl":"https://i"}"#)),
        Ok(("Cafe".to_string(), Some("https://i".to_string())))
    );
    assert_eq!(
        world_name_reply(&json(r#"{"name":"Cafe","thumbnailImageUrl":""}"#)),
        Ok(("Cafe".to_string(), None))
    );
    assert_eq!(
        world_name_reply(&json(r#"{"id":"wrld_1"}"#)),
        Err("world response is missing name".to_string())
    );
}
