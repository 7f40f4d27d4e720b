//! The activity feed: one line per pipeline event, and the worlds an event mentions.
use vstd::prelude::*;
use crate::decode::opt_str;
use crate::json::{Json, JsonView};
use crate::store::location_world;
use crate::table::Table;
use crate::json_text::{json_to_text, text_of_json};
use crate::text::{concat, copy_string, decimal, owned, slice_chars, chars_of, string_of, strs, u64_text};
use crate::ui::friends::{location_label, location_text, names_view, world_id_from_location};
use crate::websocket::event::{FriendOnlineContent, PipelineEvent};

verus! {

/// A user's display name from their record, else `fallback`.
pub open spec fn user_name(user: JsonView, fallback: Seq<char>) -> Seq<char> {
    match user.field_text("displayName"@) {
        Some(n) => n,
        None => fallback,
    }
}

pub fn user_label(user: &Json, fallback: &str) -> (r: String)
    ensures
        r@ == user_name(user@, fallback@),
{
    match user.get_str("displayName") {
        Some(n) => n.clone(),
        None => owned(fallback),
    }
}

/// The first 120 characters of a notification's message, or a stand-in.
pub open spec fn message_line(v: JsonView) -> Seq<char> {
    let m = match v.field_text("message"@) {
        Some(m) => m,
        None => "New notification"@,
    };
    if m.len() <= 120 {
        m
    } else {
        m.take(120)
    }
}

fn notification_line(value: &Json) -> (r: String)
    ensures
        r@ == message_line(value@),
{
    let m = match value.get_str("message") {
        Some(m) => chars_of(m.as_str()),
        None => chars_of("New notification"),
    };
    if m.len() <= 120 {
        string_of(&m)
    } else {
        string_of(&slice_chars(&m, 0, 120))
    }
}

/// The title and line an event shows in the activity feed.
pub open spec fn summary_of(event: PipelineEvent, names: Map<Seq<char>, Seq<char>>) -> (Seq<char>, Seq<char>) {
    match event {
        PipelineEvent::FriendAdd(c) => ("Friend added"@, user_name(c.user@, c.user_id@)),
        PipelineEvent::FriendDelete { user_id } => ("Friend removed"@, user_id@),
        PipelineEvent::FriendOnline(c) => (
            "Friend online"@,
            user_name(c.user@, c.user_id@) + " on "@ + c.platform@,
        ),
        PipelineEvent::FriendActive(c) => (
            "Friend active"@,
            user_name(c.user@, c.user_id@) + " on "@ + c.platform@,
        ),
        PipelineEvent::FriendOffline(c) => ("Friend offline"@, c.user_id@ + " on "@ + c.platform@),
        PipelineEvent::FriendUpdate(c) => ("Friend updated"@, user_name(c.user@, c.user_id@)),
        PipelineEvent::FriendLocation(c) => (
            "Friend location changed"@,
            user_name(c.user@, c.user_id@) + " - "@ + location_text(c.location@, names),
        ),
        PipelineEvent::UserUpdate(c) => ("User updated"@, user_name(c.user@, c.user_id@)),
        PipelineEvent::UserLocation(c) => ("Your location changed"@, location_text(c.location@, names)),
        PipelineEvent::Notification(v) => ("Notification received"@, message_line(v@)),
        PipelineEvent::NotificationV2(v) => ("Notification received"@, message_line(v@)),
        PipelineEvent::ResponseNotification(_) => ("Notification answered"@, "A response was sent"@),
        PipelineEvent::SeeNotification(_) => ("Notification seen"@, "Marked as seen"@),
        PipelineEvent::HideNotification(_) => ("Notification hidden"@, "Removed from the active list"@),
        PipelineEvent::ClearNotification => ("Notifications cleared"@, "All notifications were cleared"@),
        PipelineEvent::NotificationV2Update(_) => ("Notification updated"@, "Notification content changed"@),
        PipelineEvent::NotificationV2Delete(d) => (
            "Notification deleted"@,
            decimal(d.ids@.len()) + " item(s)"@,
        ),
        PipelineEvent::UserBadgeAssigned(_) => ("Badge assigned"@, "A badge was added"@),
        PipelineEvent::UserBadgeUnassigned(_) => ("Badge removed"@, "A badge was removed"@),
        PipelineEvent::ContentRefresh(c) => (
            "Content refreshed"@,
            c.content_type@ + " - "@ + c.action_type@,
        ),
        PipelineEvent::EconomyUpdate(_) => ("Economy updated"@, "Purchase data changed"@),
        PipelineEvent::ModifiedImageUpdate(_) => ("Image updated"@, "Image processing status changed"@),
        PipelineEvent::InstanceQueueJoined(c) => (
            "Instance queue joined"@,
            "Position "@ + decimal(c.position as nat),
        ),
        PipelineEvent::InstanceQueueReady(_) => ("Instance ready"@, "The queued instance is available"@),
        PipelineEvent::GroupJoined(c) => ("Group joined"@, c.group_id@),
        PipelineEvent::GroupLeft(c) => ("Group left"@, c.group_id@),
        PipelineEvent::GroupMemberUpdated(_) => ("Group member updated"@, "Membership data changed"@),
        PipelineEvent::GroupRoleUpdated(_) => ("Group role updated"@, "Role data changed"@),
        PipelineEvent::Unknown { event_type, .. } => ("Pipeline event"@, event_type@),
    }
}

/// `a`, then `sep`, then `b`.
fn join3(a: &String, sep: &str, b: &str) -> (r: String)
    ensures
        r@ == a@ + sep@ + b@,
{
    let s = concat(a, sep);
    concat(&s, b)
}

/// The title and line an event shows in the activity feed.
pub fn pipeline_event_summary(event: &PipelineEvent, world_names: &Table<String>) -> (r: (&'static str, String))
    ensures
        (r.0@, r.1@) == summary_of(*event, names_view(world_names@)),
{
    match event {
        PipelineEvent::FriendAdd(c) => ("Friend added", user_label(&c.user, c.user_id.as_str())),
        PipelineEvent::FriendDelete { user_id } => ("Friend removed", user_id.clone()),
        PipelineEvent::FriendOnline(c) => (
            "Friend online",
            join3(&user_label(&c.user, c.user_id.as_str()), " on ", c.platform.as_str()),
        ),
        PipelineEvent::FriendActive(c) => (
            "Friend active",
            join3(&user_label(&c.user, c.user_id.as_str()), " on ", c.platform.as_str()),
        ),
        PipelineEvent::FriendOffline(c) => ("Friend offline", join3(&c.user_id, " on ", c.platform.as_str())),
        PipelineEvent::FriendUpdate(c) => ("Friend updated", user_label(&c.user, c.user_id.as_str())),
        PipelineEvent::FriendLocation(c) => {
            let place = location_label(c.location.as_str(), world_names);
            (
                "Friend location changed",
                join3(&user_label(&c.user, c.user_id.as_str()), " - ", place.as_str()),
            )
        },
        PipelineEvent::UserUpdate(c) => ("User updated", user_label(&c.user, c.user_id.as_str())),
        PipelineEvent::UserLocation(c) => (
            "Your location changed",
            location_label(c.location.as_str(), world_names),
        ),
        PipelineEvent::Notification(v) => ("Notification received", notification_line(v)),
        PipelineEvent::NotificationV2(v) => ("Notification received", notification_line(v)),
        PipelineEvent::ResponseNotification(_) => ("Notification answered", owned("A response was sent")),
        PipelineEvent::SeeNotification(_) => ("Notification seen", owned("Marked as seen")),
        PipelineEvent::HideNotification(_) => ("Notification hidden", owned("Removed from the active list")),
        PipelineEvent::ClearNotification => ("Notifications cleared", owned("All notifications were cleared")),
        PipelineEvent::NotificationV2Update(_) => (
            "Notification updated",
            owned("Notification content changed"),
        ),
        PipelineEvent::NotificationV2Delete(d) => {
            let count = u64_text(d.ids.len() as u64);
            ("Notification deleted", concat(&count, " item(s)"))
        },
        PipelineEvent::UserBadgeAssigned(_) => ("Badge assigned", owned("A badge was added")),
        PipelineEvent::UserBadgeUnassigned(_) => ("Badge removed", owned("A badge was removed")),
        PipelineEvent::ContentRefresh(c) => (
            "Content refreshed",
            join3(&c.content_type, " - ", c.action_type.as_str()),
        ),
        PipelineEvent::EconomyUpdate(_) => ("Economy updated", owned("Purchase data changed")),
        PipelineEvent::ModifiedImageUpdate(_) => ("Image updated", owned("Image processing status changed")),
        PipelineEvent::InstanceQueueJoined(c) => {
            let position = u64_text(c.position);
            ("Instance queue joined", concat(&owned("Position "), position.as_str()))
        },
        PipelineEvent::InstanceQueueReady(_) => ("Instance ready", owned("The queued instance is available")),
        PipelineEvent::GroupJoined(c) => ("Group joined", c.group_id.clone()),
        PipelineEvent::GroupLeft(c) => ("Group left", c.group_id.clone()),
        PipelineEvent::GroupMemberUpdated(_) => ("Group member updated", owned("Membership data changed")),
        PipelineEvent::GroupRoleUpdated(_) => ("Group role updated", owned("Role data changed")),
        PipelineEvent::Unknown { event_type, .. } => ("Pipeline event", event_type.clone()),
    }
}

/// The world ids among some locations, in order.
pub open spec fn worlds_among(locations: Seq<Seq<char>>) -> Seq<Seq<char>>
    decreases locations.len(),
{
    if locations.len() == 0 {
        Seq::empty()
    } else {
        let rest = worlds_among(locations.drop_last());
        match location_world(locations.last()) {
            Some(w) => rest.push(w),
            None => rest,
        }
    }
}

/// The worlds an event mentions, whose names the feed may need.
pub open spec fn event_worlds(event: PipelineEvent) -> Seq<Seq<char>> {
    match event {
        PipelineEvent::FriendOnline(c) => worlds_among(seq![c.location@]),
        PipelineEvent::FriendLocation(c) => worlds_among(
            seq![c.location@, c.traveling_to_location@, c.world_id@],
        ),
        PipelineEvent::UserLocation(c) => worlds_among(seq![c.location@, c.traveling_to_location@]),
        _ => Seq::empty(),
    }
}

/// Adds the world a location names, if it names one.
fn push_world(out: &mut Vec<String>, location: &str)
    ensures
        strs(final(out)@) == match location_world(location@) {
            Some(w) => strs(old(out)@).push(w),
            None => strs(old(out)@),
        },
{
    let ghost before = strs(out@);
    match world_id_from_location(location) {
        Some(w) => {
            out.push(w);
        },
        None => {},
    }
    assert(strs(out@) =~= match location_world(location@) {
        Some(w) => before.push(w),
        None => before,
    });
}

pub fn event_world_ids(event: &PipelineEvent) -> (r: Vec<String>)
    ensures
        strs(r@) == event_worlds(*event),
{
    let mut out: Vec<String> = Vec::new();
    assert(strs(out@) =~= Seq::<Seq<char>>::empty());
    assert(worlds_among(Seq::<Seq<char>>::empty()) == Seq::<Seq<char>>::empty());
    match event {
        PipelineEvent::FriendOnline(c) => {
            push_world(&mut out, c.location.as_str());
            assert(seq![c.location@].drop_last() =~= Seq::<Seq<char>>::empty());
            assert(strs(out@) == worlds_among(seq![c.location@]));
        },
        PipelineEvent::FriendLocation(c) => {
            let ghost l1 = seq![c.location@];
            let ghost l2 = seq![c.location@, c.traveling_to_location@];
            let ghost l3 = seq![c.location@, c.traveling_to_location@, c.world_id@];
            assert(l1.drop_last() =~= Seq::<Seq<char>>::empty());
            assert(l2.drop_last() =~= l1);
            assert(l3.drop_last() =~= l2);
            push_world(&mut out, c.location.as_str());
            assert(strs(out@) == worlds_among(l1));
            push_world(&mut out, c.traveling_to_location.as_str());
            assert(strs(out@) == worlds_among(l2));
            push_world(&mut out, c.world_id.as_str());
            assert(strs(out@) == worlds_among(l3));
        },
        PipelineEvent::UserLocation(c) => {
            let ghost l1 = seq![c.location@];
            let ghost l2 = seq![c.location@, c.traveling_to_location@];
            assert(l1.drop_last() =~= Seq::<Seq<char>>::empty());
            assert(l2.drop_last() =~= l1);
            push_world(&mut out, c.location.as_str());
            assert(strs(out@) == worlds_among(l1));
            push_world(&mut out, c.traveling_to_location.as_str());
            assert(strs(out@) == worlds_among(l2));
        },
        _ => {},
    }
    out
}

/// A group record with its `groupId` copied to `id` where it has no `id`.
pub open spec fn group_record(v: JsonView) -> JsonView {
    match v {
        JsonView::Object(es) => if v.field("id"@) is None && v.field("groupId"@) is Some {
            JsonView::Object(crate::json::set_member(es, "id"@, v.field("groupId"@).unwrap()))
        } else {
            v
        },
        _ => v,
    }
}

pub fn normalize_group_value(value: Json) -> (r: Json)
    ensures
        r@ == group_record(value@),
{
    let mut value = value;
    if crate::decode::is_object(&value) && value.get("id").is_none() {
        match value.get("groupId") {
            Some(g) => {
                let id = g.copy();
                value.insert_member("id", id);
            },
            None => {},
        }
    }
    value
}

/// Kinds of favorites, by the `_favoriteType` a record carries.
#[derive(Debug, Clone, Copy, PartialEq, Eq, Structural)]
pub enum FavoriteKind {
    Friend,
    World,
    Avatar,
    Other,
}

pub open spec fn favorite_kind_of(v: JsonView) -> FavoriteKind {
    match v.field_text("_favoriteType"@) {
        Some(t) => if t == "friend"@ {
            FavoriteKind::Friend
        } else if t == "world"@ {
            FavoriteKind::World
        } else if t == "avatar"@ {
            FavoriteKind::Avatar
        } else {
            FavoriteKind::Other
        },
        None => FavoriteKind::Other,
    }
}

pub fn favorite_kind(value: &Json) -> (r: FavoriteKind)
    ensures
        r == favorite_kind_of(value@),
{
    match value.get_str("_favoriteType") {
        Some(t) => if crate::text::str_eq(t.as_str(), "friend") {
            FavoriteKind::Friend
        } else if crate::text::str_eq(t.as_str(), "world") {
            FavoriteKind::World
        } else if crate::text::str_eq(t.as_str(), "avatar") {
            FavoriteKind::Avatar
        } else {
            FavoriteKind::Other
        },
        None => FavoriteKind::Other,
    }
}

/// The non-blank group names of a favorite record, each after `kind` and ` · `.
pub open spec fn group_labels(names: Seq<Seq<char>>, kind: Seq<char>) -> Seq<Seq<char>>
    decreases names.len(),
{
    if names.len() == 0 {
        Seq::empty()
    } else {
        let rest = group_labels(names.drop_last(), kind);
        if crate::text::is_blank(names.last()) {
            rest
        } else {
            rest.push(kind + " · "@ + names.last())
        }
    }
}

/// The `_favoriteGroups` strings of a record.
pub open spec fn favorite_groups_of(v: JsonView) -> Seq<Seq<char>> {
    match v.field("_favoriteGroups"@) {
        Some(JsonView::Array(items)) => crate::json::text_items(items),
        _ => Seq::empty(),
    }
}

/// The labels of the groups a favorite record names, after the label of its kind;
/// empty where it names none (the caller then shows a fallback group).
pub fn favorite_group_labels(value: &Json, kind: &str) -> (r: Vec<String>)
    ensures
        strs(r@) == group_labels(favorite_groups_of(value@), kind@),
{
    let names = match value.get("_favoriteGroups") {
        Some(g) => match g.as_array() {
            Some(items) => crate::json::json_texts(items),
            None => Vec::new(),
        },
        None => Vec::new(),
    };
    let ghost all = strs(names@);
    assert(all =~= favorite_groups_of(value@));
    let mut out: Vec<String> = Vec::new();
    let n = names.len();
    assert(all.take(0) =~= Seq::<Seq<char>>::empty());
    assert(strs(out@) =~= Seq::<Seq<char>>::empty());
    for i in 0..n
        invariant
            n == names@.len(),
            all == strs(names@),
            strs(out@) == group_labels(all.take(i as int), kind@),
    {
        assert(all.take(i + 1).drop_last() =~= all.take(i as int));
        assert(all.take(i + 1).last() == names@[i as int]@);
        if !crate::text::is_blank_str(names[i].as_str()) {
            let ghost before = strs(out@);
            let label = join3(&owned(kind), " · ", names[i].as_str());
            out.push(label);
            assert(strs(out@) =~= before.push(kind@ + " · "@ + names@[i as int]@));
        }
    }
    assert(all.take(n as int) =~= all);
    out
}

/// A serialized record cut to 237 characters, with `...` where it was longer.
pub open spec fn compacted(text: Seq<char>) -> Seq<char> {
    if text.len() <= 237 {
        text
    } else {
        text.take(237) + "..."@
    }
}

pub fn compact_text(text: &str) -> (r: String)
    ensures
        r@ == compacted(text@),
{
    let cs = chars_of(text);
    if cs.len() <= 237 {
        owned(text)
    } else {
        let head = string_of(&slice_chars(&cs, 0, 237));
        concat(&head, "...")
    }
}

/// The activity summary of a friend coming online shows nothing of the embedded
/// profile but its display name: two such events that differ only in the rest of the
/// profile read the same.
pub proof fn law_summary_shows_only_the_display_name(
    c1: FriendOnlineContent,
    c2: FriendOnlineContent,
    names: Map<Seq<char>, Seq<char>>,
)
    requires
        c1.user_id@ == c2.user_id@,
        c1.platform@ == c2.platform@,
        c1.user@.field_text("displayName"@) == c2.user@.field_text("displayName"@),
    ensures
        summary_of(PipelineEvent::FriendOnline(c1), names) == summary_of(PipelineEvent::FriendOnline(c2), names),
{
}

/// A record as compact JSON text, cut to 237 characters with `...` where it was
/// longer.
pub fn compact_json(value: &Json) -> (r: String)
    ensures
        r@ == compacted(text_of_json(value@)),
{
    compact_text(json_to_text(value).as_str())
}

/// Compacted text is never longer than 240 characters, and text that was cut ends
/// with an ellipsis after its first 237 characters.
pub proof fn law_compact_text_is_short(text: Seq<char>)
    ensures
        compacted(text).len() <= 240,
        text.len() > 237 ==> compacted(text) == text.take(237) + "..."@,
        text.len() <= 237 ==> compacted(text) == text,
{
    reveal_strlit("...");
}

} // verus!
