//! How a pipeline event changes the client's state.
use vstd::prelude::*;
use std::collections::VecDeque;
use crate::decode::opt_str;
use crate::json::{
    json_texts, lemma_set_member, lookup, text_items,
    entries_view, lemma_entries_view, lemma_member_index, member_index, set_member, Json,
    JsonEntry, JsonView,
};
use crate::models::friend::{decoded_friend, Friend, FriendView};
use crate::store::state::{
    empty_presence, empty_presence_view, notes, presences, AppSnapshot, FriendPresence, PresenceView,
};
use crate::store::{presence_from_friend, presence_of, trust_rank_from_tags, trust_rank_name};
use crate::table::Table;
use crate::text::{owned, str_eq, strs};
use crate::websocket::event::{
    opt_json,
    FriendActiveContent, FriendLocationContent, FriendOfflineContent, FriendOnlineContent,
    PipelineEvent, UserContent,
};

verus! {

/// A pipeline event as it was recorded.
#[derive(Debug, Clone, PartialEq)]
pub struct RecentPipelineEvent {
    pub sequence: u64,
    pub received_at_unix_ms: u64,
    pub event: PipelineEvent,
}

/// What an event did to the state.
#[derive(Debug, Clone, Copy, PartialEq, Eq, Structural)]
pub enum EventEffect {
    StateChanged,
    CacheInvalidated,
    RecordedOnly,
}

/// A write to the persistent cache that an event calls for.
#[derive(Debug, Clone, PartialEq)]
pub enum CacheAction {
    PutFriend(Friend),
    RemoveFriend(String),
    PutNotification { id: String, value: Json },
    RemoveNotification(String),
}

/// The abstract value of a [`CacheAction`].
pub enum CacheActionView {
    PutFriend(FriendView),
    RemoveFriend(Seq<char>),
    PutNotification(Seq<char>, JsonView),
    RemoveNotification(Seq<char>),
}

impl View for CacheAction {
    type V = CacheActionView;

    open spec fn view(&self) -> CacheActionView {
        match self {
            CacheAction::PutFriend(f) => CacheActionView::PutFriend(f@),
            CacheAction::RemoveFriend(id) => CacheActionView::RemoveFriend(id@),
            CacheAction::PutNotification { id, value } => CacheActionView::PutNotification(
                id@,
                value@,
            ),
            CacheAction::RemoveNotification(id) => CacheActionView::RemoveNotification(id@),
        }
    }
}

/// The views of a list of cache writes.
pub open spec fn actions_view(s: Seq<CacheAction>) -> Seq<CacheActionView> {
    s.map_values(|a: CacheAction| a@)
}

// ---------------------------------------------------------------------------
// Merging partial updates into a notification
// ---------------------------------------------------------------------------
/// The value of the member `key`, `null` where there is none.
pub open spec fn member_value(es: Seq<(Seq<char>, JsonView)>, key: Seq<char>) -> JsonView {
    match member_index(es, key) {
        Some(i) => es[i].1,
        None => JsonView::Null,
    }
}

/// `updates` merged into `target`: objects merge member by member, recursively;
/// anything else replaces what was there.
pub open spec fn merged(target: JsonView, updates: JsonView) -> JsonView
    decreases updates,
{
    match updates {
        JsonView::Object(us) => match target {
            JsonView::Object(ts) => JsonView::Object(merged_members(ts, us)),
            _ => updates,
        },
        _ => updates,
    }
}

/// The members `us` merged one after the other into the members `ts`.
pub open spec fn merged_members(ts: Seq<(Seq<char>, JsonView)>, us: Seq<(Seq<char>, JsonView)>) -> Seq<
    (Seq<char>, JsonView),
>
    decreases us,
{
    if us.len() == 0 {
        ts
    } else {
        proof {
            assert(decreases_to!(us => us[us.len() - 1]));
        }
        let prev = merged_members(ts, us.drop_last());
        let key = us.last().0;
        set_member(prev, key, merged(member_value(prev, key), us.last().1))
    }
}

/// Merges `updates` into `target` (a missing member counts as `null`).
#[verifier::loop_isolation(false)]
pub fn merge_json(target: Json, updates: &Json) -> (r: Json)
    ensures
        r@ == merged(target@, updates@),
    decreases updates,
{
    match updates {
        Json::Object(us) => match target {
            Json::Object(ts) => {
                let ghost tv = entries_view(ts@);
                let ghost uv = entries_view(us@);
                proof {
                    lemma_entries_view(us@);
                    assert(uv.take(0) =~= Seq::<(Seq<char>, JsonView)>::empty());
                }
                let mut es = ts;
                let n = us.len();
                for i in 0..n
                    invariant
                        n == us.len(),
                        updates@ == JsonView::Object(uv),
                        uv == entries_view(us@),
                        uv.len() == us@.len(),
                        forall|k: int| 0 <= k < us@.len() ==> #[trigger] uv[k] == (us@[k].key@, us@[k].value@),
                        entries_view(es@) == merged_members(tv, uv.take(i as int)),
                {
                    proof {
                        assert(decreases_to!(*updates => us[i as int].value));
                    }
                    let ghost prev = entries_view(es@);
                    proof {
                        lemma_entries_view(es@);
                        lemma_member_index(prev, us@[i as int].key@);
                        assert(uv.take(i + 1).drop_last() =~= uv.take(i as int));
                        assert(uv.take(i + 1).last() == uv[i as int]);
                    }
                    match Json::member_position(&es, us[i].key.as_str()) {
                        Some(p) => {
                            let old = es[p].value.copy();
                            let value = merge_json(old, &us[i].value);
                            es[p] = JsonEntry { key: us[i].key.clone(), value };
                            proof {
                                lemma_entries_view(es@);
                                assert(entries_view(es@) =~= prev.update(
                                    p as int,
                                    (us@[i as int].key@, value@),
                                ));
                            }
                        },
                        None => {
                            let value = merge_json(Json::Null, &us[i].value);
                            es.push(JsonEntry { key: us[i].key.clone(), value });
                            proof {
                                lemma_entries_view(es@);
                                assert(entries_view(es@) =~= prev.push((us@[i as int].key@, value@)));
                            }
                        },
                    }
                }
                proof {
                    assert(uv.take(n as int) =~= uv);
                }
                Json::Object(es)
            },
            _ => updates.copy(),
        },
        _ => updates.copy(),
    }
}

// ---------------------------------------------------------------------------
// Presence
// ---------------------------------------------------------------------------
/// The presence stored for `id`, or an empty one.
pub open spec fn entry_of(friends: Map<Seq<char>, PresenceView>, id: Seq<char>) -> PresenceView {
    if friends.contains_key(id) {
        friends[id]
    } else {
        empty_presence_view(id)
    }
}

/// `s` where it is not empty, else `rest`.
pub open spec fn nonempty_or(s: Option<Seq<char>>, rest: Option<Seq<char>>) -> Option<Seq<char>> {
    match s {
        Some(u) => if u.len() > 0 {
            Some(u)
        } else {
            rest
        },
        None => rest,
    }
}

/// The first non-empty picture member of a user record.
pub open spec fn user_avatar(user: JsonView) -> Option<Seq<char>> {
    nonempty_or(
        user.field_text("userIcon"@),
        nonempty_or(
            user.field_text("profilePicOverrideThumbnail"@),
            nonempty_or(
                user.field_text("currentAvatarThumbnailImageUrl"@),
                nonempty_or(
                    user.field_text("currentAvatarImageUrl"@),
                    nonempty_or(user.field_text("imageUrl"@), None),
                ),
            ),
        ),
    )
}

/// `new` where there is one, else `old`.
pub open spec fn or_keep(new: Option<Seq<char>>, old: Option<Seq<char>>) -> Option<Seq<char>> {
    match new {
        Some(x) => Some(x),
        None => old,
    }
}

/// `p` with what a user record says of the name, platform, status, picture and
/// trust rank.
pub open spec fn with_user_fields(p: PresenceView, user: JsonView) -> PresenceView {
    PresenceView {
        display_name: or_keep(user.field_text("displayName"@), p.display_name),
        platform: or_keep(user.field_text("platform"@), p.platform),
        status: or_keep(user.field_text("status"@), p.status),
        avatar_url: or_keep(user_avatar(user), p.avatar_url),
        trust_rank: match user.field("tags"@) {
            Some(JsonView::Array(items)) => Some(trust_rank_name(text_items(items))),
            _ => p.trust_rank,
        },
        ..p
    }
}

/// `s` where it is not empty.
pub open spec fn non_empty_view(s: Seq<char>) -> Option<Seq<char>> {
    if s.len() == 0 {
        None
    } else {
        Some(s)
    }
}

pub open spec fn online_presence(p: PresenceView, c: FriendOnlineContent) -> PresenceView {
    PresenceView {
        online: true,
        active: true,
        platform: Some(c.platform@),
        location: Some(c.location@),
        can_request_invite: c.can_request_invite,
        ..with_user_fields(p, c.user@)
    }
}

pub open spec fn active_presence(p: PresenceView, c: FriendActiveContent) -> PresenceView {
    PresenceView {
        online: true,
        active: true,
        platform: Some(c.platform@),
        ..with_user_fields(p, c.user@)
    }
}

pub open spec fn offline_presence(p: PresenceView, c: FriendOfflineContent) -> PresenceView {
    PresenceView {
        online: false,
        active: false,
        platform: Some(c.platform@),
        location: None,
        traveling_to_location: None,
        world_id: None,
        can_request_invite: false,
        ..p
    }
}

pub open spec fn located_presence(p: PresenceView, c: FriendLocationContent) -> PresenceView {
    PresenceView {
        online: true,
        location: Some(c.location@),
        traveling_to_location: non_empty_view(c.traveling_to_location@),
        world_id: non_empty_view(c.world_id@),
        can_request_invite: c.can_request_invite,
        ..with_user_fields(p, c.user@)
    }
}

/// A friend added or updated: a full friend record replaces the presence; anything
/// else is read field by field into it.
pub open spec fn upserted(friends: Map<Seq<char>, PresenceView>, c: UserContent) -> Map<
    Seq<char>,
    PresenceView,
> {
    match decoded_friend(c.user@) {
        Some(f) => friends.insert(c.user_id@, presence_of(f)),
        None => friends.insert(c.user_id@, with_user_fields(entry_of(friends, c.user_id@), c.user@)),
    }
}

/// The friends' presence after an event.
pub open spec fn friends_after(friends: Map<Seq<char>, PresenceView>, event: PipelineEvent) -> Map<
    Seq<char>,
    PresenceView,
> {
    match event {
        PipelineEvent::FriendAdd(c) => upserted(friends, c),
        PipelineEvent::FriendUpdate(c) => upserted(friends, c),
        PipelineEvent::FriendDelete { user_id } => friends.remove(user_id@),
        PipelineEvent::FriendOnline(c) => friends.insert(
            c.user_id@,
            online_presence(entry_of(friends, c.user_id@), c),
        ),
        PipelineEvent::FriendActive(c) => friends.insert(
            c.user_id@,
            active_presence(entry_of(friends, c.user_id@), c),
        ),
        PipelineEvent::FriendOffline(c) => friends.insert(
            c.user_id@,
            offline_presence(entry_of(friends, c.user_id@), c),
        ),
        PipelineEvent::FriendLocation(c) => friends.insert(
            c.user_id@,
            located_presence(entry_of(friends, c.user_id@), c),
        ),
        _ => friends,
    }
}

// ---------------------------------------------------------------------------
// Notifications
// ---------------------------------------------------------------------------
/// A notification marked as seen.
pub open spec fn seen_flagged(v: JsonView) -> JsonView {
    match v {
        JsonView::Object(es) => JsonView::Object(set_member(es, "seen"@, JsonView::Bool(true))),
        _ => v,
    }
}

/// A notification marked as hidden.
pub open spec fn hidden_flagged(v: JsonView) -> JsonView {
    match v {
        JsonView::Object(es) => JsonView::Object(
            set_member(es, "status"@, JsonView::Str("hidden"@)),
        ),
        _ => v,
    }
}

/// `notes` without the ids `ids`.
pub open spec fn removed_all(notes: Map<Seq<char>, JsonView>, ids: Seq<Seq<char>>) -> Map<
    Seq<char>,
    JsonView,
>
    decreases ids.len(),
{
    if ids.len() == 0 {
        notes
    } else {
        removed_all(notes, ids.drop_last()).remove(ids.last())
    }
}

/// The notifications after an event; `cached` is what the cache held for the
/// notification the event names.
pub open spec fn notifications_after(
    notes: Map<Seq<char>, JsonView>,
    event: PipelineEvent,
    cached: Option<JsonView>,
) -> Map<Seq<char>, JsonView> {
    match event {
        PipelineEvent::Notification(v) => match v@.field_text("id"@) {
            Some(id) => notes.insert(id, v@),
            None => notes,
        },
        PipelineEvent::NotificationV2(v) => match v@.field_text("id"@) {
            Some(id) => notes.insert(id, v@),
            None => notes,
        },
        PipelineEvent::SeeNotification(id) => match cached {
            Some(c) => notes.insert(id@, seen_flagged(c)),
            None => notes,
        },
        PipelineEvent::HideNotification(id) => match cached {
            Some(c) => notes.insert(id@, hidden_flagged(c)),
            None => notes,
        },
        PipelineEvent::ClearNotification => Map::empty(),
        PipelineEvent::NotificationV2Update(u) => match cached {
            Some(c) => notes.insert(u.id@, merged(c, u.updates@)),
            None => notes,
        },
        PipelineEvent::NotificationV2Delete(d) => removed_all(notes, strs(d.ids@)),
        _ => notes,
    }
}

/// The id of the notification whose cached copy an event needs.
pub open spec fn needed_notification(event: PipelineEvent) -> Option<Seq<char>> {
    match event {
        PipelineEvent::SeeNotification(id) => Some(id@),
        PipelineEvent::HideNotification(id) => Some(id@),
        PipelineEvent::NotificationV2Update(u) => Some(u.id@),
        _ => None,
    }
}

// ---------------------------------------------------------------------------
// Effects and cache writes
// ---------------------------------------------------------------------------
/// What an event does.
pub open spec fn effect_of(event: PipelineEvent, cached: Option<JsonView>) -> EventEffect {
    match event {
        PipelineEvent::FriendAdd(_) => EventEffect::StateChanged,
        PipelineEvent::FriendUpdate(_) => EventEffect::StateChanged,
        PipelineEvent::FriendDelete { .. } => EventEffect::StateChanged,
        PipelineEvent::FriendOnline(_) => EventEffect::StateChanged,
        PipelineEvent::FriendActive(_) => EventEffect::StateChanged,
        PipelineEvent::FriendOffline(_) => EventEffect::StateChanged,
        PipelineEvent::FriendLocation(_) => EventEffect::StateChanged,
        PipelineEvent::Notification(v) => if v@.field_text("id"@) is Some {
            EventEffect::StateChanged
        } else {
            EventEffect::RecordedOnly
        },
        PipelineEvent::NotificationV2(v) => if v@.field_text("id"@) is Some {
            EventEffect::StateChanged
        } else {
            EventEffect::RecordedOnly
        },
        PipelineEvent::SeeNotification(_) => EventEffect::StateChanged,
        PipelineEvent::HideNotification(_) => EventEffect::StateChanged,
        PipelineEvent::ClearNotification => EventEffect::StateChanged,
        PipelineEvent::NotificationV2Update(_) => if cached is Some {
            EventEffect::StateChanged
        } else {
            EventEffect::CacheInvalidated
        },
        PipelineEvent::NotificationV2Delete(_) => EventEffect::StateChanged,
        PipelineEvent::ContentRefresh(_) => EventEffect::CacheInvalidated,
        _ => EventEffect::RecordedOnly,
    }
}

/// The friend record embedded in a user payload, to be cached where it decodes.
pub open spec fn friend_write(user: JsonView) -> Seq<CacheActionView> {
    match decoded_friend(user) {
        Some(f) => seq![CacheActionView::PutFriend(f)],
        None => Seq::empty(),
    }
}

/// The cache writes an event calls for (a cleared list removes each of its ids, in
/// no particular order, and is stated apart).
pub open spec fn actions_of(event: PipelineEvent, cached: Option<JsonView>) -> Seq<CacheActionView> {
    match event {
        PipelineEvent::FriendAdd(c) => friend_write(c.user@),
        PipelineEvent::FriendUpdate(c) => friend_write(c.user@),
        PipelineEvent::FriendDelete { user_id } => seq![CacheActionView::RemoveFriend(user_id@)],
        PipelineEvent::FriendOnline(c) => friend_write(c.user@),
        PipelineEvent::FriendActive(c) => friend_write(c.user@),
        PipelineEvent::FriendLocation(c) => friend_write(c.user@),
        PipelineEvent::Notification(v) => match v@.field_text("id"@) {
            Some(id) => seq![CacheActionView::PutNotification(id, v@)],
            None => Seq::empty(),
        },
        PipelineEvent::NotificationV2(v) => match v@.field_text("id"@) {
            Some(id) => seq![CacheActionView::PutNotification(id, v@)],
            None => Seq::empty(),
        },
        PipelineEvent::SeeNotification(id) => match cached {
            Some(c) => seq![CacheActionView::PutNotification(id@, seen_flagged(c))],
            None => Seq::empty(),
        },
        PipelineEvent::HideNotification(id) => match cached {
            Some(c) => seq![CacheActionView::PutNotification(id@, hidden_flagged(c))],
            None => Seq::empty(),
        },
        PipelineEvent::NotificationV2Update(u) => match cached {
            Some(c) => seq![CacheActionView::PutNotification(u.id@, merged(c, u.updates@))],
            None => Seq::empty(),
        },
        PipelineEvent::NotificationV2Delete(d) => strs(d.ids@).map_values(
            |id: Seq<char>| CacheActionView::RemoveNotification(id),
        ),
        _ => Seq::empty(),
    }
}

// ---------------------------------------------------------------------------
// Recording
// ---------------------------------------------------------------------------
/// The sequence number of the next record: one past the last, but never behind the
/// clock.
pub open spec fn next_sequence(recent: Seq<RecentPipelineEvent>, now: u64) -> u64 {
    if recent.len() == 0 {
        now
    } else {
        let next = recent.last().sequence.saturating_add(1);
        if next > now {
            next
        } else {
            now
        }
    }
}

/// The last `max` of `s`.
pub open spec fn kept<T>(s: Seq<T>, max: nat) -> Seq<T> {
    if s.len() > max {
        s.subrange(s.len() - max, s.len() as int)
    } else {
        s
    }
}

/// The recent events after recording `event` at `now`, keeping at most `max`.
pub open spec fn recorded(recent: Seq<RecentPipelineEvent>, event: PipelineEvent, now: u64, max: nat) -> Seq<
    RecentPipelineEvent,
> {
    kept(
        recent.push(
            RecentPipelineEvent {
                sequence: next_sequence(recent, now),
                received_at_unix_ms: now,
                event,
            },
        ),
        max,
    )
}

// ---------------------------------------------------------------------------
// Executable steps
// ---------------------------------------------------------------------------
/// The string member `key` where it is not empty.
fn nonempty_text(user: &Json, key: &str) -> (r: Option<String>)
    ensures
        opt_str(r) == nonempty_or(user@.field_text(key@), None),
{
    match user.get_str(key) {
        Some(s) => {
            proof {
                reveal_strlit("");
            }
            if str_eq(s.as_str(), "") {
                None
            } else {
                assert(s@.len() != 0) by {
                    if s@.len() == 0 {
                        assert(s@ =~= ""@);
                    }
                }
                Some(s.clone())
            }
        },
        None => None,
    }
}

/// Reads the name, platform, status, picture and trust rank of a user record into a
/// presence.
pub fn apply_user_fields(presence: &mut FriendPresence, user: &Json)
    ensures
        final(presence)@ == with_user_fields(old(presence)@, user@),
{
    if let Some(display_name) = user.get_str("displayName") {
        presence.display_name = Some(display_name.clone());
    }
    if let Some(platform) = user.get_str("platform") {
        presence.platform = Some(platform.clone());
    }
    if let Some(status) = user.get_str("status") {
        presence.status = Some(status.clone());
    }
    let avatar = match nonempty_text(user, "userIcon") {
        Some(u) => Some(u),
        None => match nonempty_text(user, "profilePicOverrideThumbnail") {
            Some(u) => Some(u),
            None => match nonempty_text(user, "currentAvatarThumbnailImageUrl") {
                Some(u) => Some(u),
                None => match nonempty_text(user, "currentAvatarImageUrl") {
                    Some(u) => Some(u),
                    None => nonempty_text(user, "imageUrl"),
                },
            },
        },
    };
    if avatar.is_some() {
        presence.avatar_url = avatar;
    }
    if let Some(tags) = user.get("tags") {
        if let Some(items) = tags.as_array() {
            let texts = json_texts(items);
            presence.trust_rank = trust_rank_from_tags(&texts);
        }
    }
}

/// `value` where it is not empty.
pub fn non_empty(value: &str) -> (r: Option<String>)
    ensures
        opt_str(r) == non_empty_view(value@),
{
    if str_eq(value, "") {
        proof {
            reveal_strlit("");
        }
        None
    } else {
        proof {
            reveal_strlit("");
            assert(value@.len() != 0) by {
                if value@.len() == 0 {
                    assert(value@ =~= ""@);
                }
            }
        }
        Some(value.to_string())
    }
}

/// Takes the presence stored for `id` out of the table, or an empty one.
fn take_presence(friends: &mut Table<FriendPresence>, id: &str) -> (r: FriendPresence)
    ensures
        final(friends)@ == old(friends)@.remove(id@),
        r@ == entry_of(presences(old(friends)@), id@),
{
    match friends.remove(id) {
        Some(p) => p,
        None => empty_presence(id),
    }
}

/// Stores `p` for `id`, where the table held no entry for `id`.
fn put_presence(friends: &mut Table<FriendPresence>, id: &String, p: FriendPresence, Ghost(before): Ghost<Map<Seq<char>, FriendPresence>>)
    requires
        old(friends)@ == before.remove(id@),
    ensures
        presences(final(friends)@) == presences(before).insert(id@, p@),
{
    let ghost v = p@;
    friends.insert(id.clone(), p);
    assert(presences(friends@) =~= presences(before).insert(id@, v));
}

/// The cache write for a friend record embedded in a user payload.
fn cache_friend(user: &Json, actions: &mut Vec<CacheAction>)
    ensures
        actions_view(final(actions)@) == actions_view(old(actions)@) + friend_write(user@),
{
    let ghost before = actions@;
    if let Some(friend) = Friend::decode(user) {
        actions.push(CacheAction::PutFriend(friend));
    }
    assert(actions_view(actions@) =~= actions_view(before) + friend_write(user@));
}

/// A friend added or updated.
fn upsert_friend(friends: &mut Table<FriendPresence>, c: &UserContent, actions: &mut Vec<CacheAction>)
    ensures
        presences(final(friends)@) == upserted(presences(old(friends)@), *c),
        actions_view(final(actions)@) == actions_view(old(actions)@) + friend_write(c.user@),
{
    let ghost before = friends@;
    let ghost acts = actions@;
    match Friend::decode(&c.user) {
        Some(friend) => {
            let presence = presence_from_friend(&friend);
            let ghost pv = presence@;
            actions.push(CacheAction::PutFriend(friend));
            assert(actions_view(actions@) =~= actions_view(acts) + friend_write(c.user@));
            friends.insert(c.user_id.clone(), presence);
            assert(presences(friends@) =~= presences(before).insert(c.user_id@, pv));
        },
        None => {
            let mut p = take_presence(friends, c.user_id.as_str());
            apply_user_fields(&mut p, &c.user);
            put_presence(friends, &c.user_id, p, Ghost(before));
            assert(actions_view(actions@) =~= actions_view(acts) + friend_write(c.user@));
        },
    }
}

/// A friend came online.
fn friend_online(friends: &mut Table<FriendPresence>, c: &FriendOnlineContent, actions: &mut Vec<CacheAction>)
    ensures
        presences(final(friends)@) == presences(old(friends)@).insert(
            c.user_id@,
            online_presence(entry_of(presences(old(friends)@), c.user_id@), *c),
        ),
        actions_view(final(actions)@) == actions_view(old(actions)@) + friend_write(c.user@),
{
    cache_friend(&c.user, actions);
    let ghost before = friends@;
    let mut p = take_presence(friends, c.user_id.as_str());
    apply_user_fields(&mut p, &c.user);
    p.online = true;
    p.active = true;
    p.platform = Some(c.platform.clone());
    p.location = Some(c.location.clone());
    p.can_request_invite = c.can_request_invite;
    put_presence(friends, &c.user_id, p, Ghost(before));
}

/// A friend is active on the website.
fn friend_active(friends: &mut Table<FriendPresence>, c: &FriendActiveContent, actions: &mut Vec<CacheAction>)
    ensures
        presences(final(friends)@) == presences(old(friends)@).insert(
            c.user_id@,
            active_presence(entry_of(presences(old(friends)@), c.user_id@), *c),
        ),
        actions_view(final(actions)@) == actions_view(old(actions)@) + friend_write(c.user@),
{
    cache_friend(&c.user, actions);
    let ghost before = friends@;
    let mut p = take_presence(friends, c.user_id.as_str());
    apply_user_fields(&mut p, &c.user);
    p.online = true;
    p.active = true;
    p.platform = Some(c.platform.clone());
    put_presence(friends, &c.user_id, p, Ghost(before));
}

/// A friend went offline.
fn friend_offline(friends: &mut Table<FriendPresence>, c: &FriendOfflineContent)
    ensures
        presences(final(friends)@) == presences(old(friends)@).insert(
            c.user_id@,
            offline_presence(entry_of(presences(old(friends)@), c.user_id@), *c),
        ),
{
    let ghost before = friends@;
    let mut p = take_presence(friends, c.user_id.as_str());
    p.online = false;
    p.active = false;
    p.platform = Some(c.platform.clone());
    p.location = None;
    p.traveling_to_location = None;
    p.world_id = None;
    p.can_request_invite = false;
    put_presence(friends, &c.user_id, p, Ghost(before));
}

/// A friend changed instance.
fn friend_location(friends: &mut Table<FriendPresence>, c: &FriendLocationContent, actions: &mut Vec<CacheAction>)
    ensures
        presences(final(friends)@) == presences(old(friends)@).insert(
            c.user_id@,
            located_presence(entry_of(presences(old(friends)@), c.user_id@), *c),
        ),
        actions_view(final(actions)@) == actions_view(old(actions)@) + friend_write(c.user@),
{
    cache_friend(&c.user, actions);
    let ghost before = friends@;
    let mut p = take_presence(friends, c.user_id.as_str());
    apply_user_fields(&mut p, &c.user);
    p.online = true;
    p.location = Some(c.location.clone());
    p.traveling_to_location = non_empty(c.traveling_to_location.as_str());
    p.world_id = non_empty(c.world_id.as_str());
    p.can_request_invite = c.can_request_invite;
    put_presence(friends, &c.user_id, p, Ghost(before));
}

/// Stores a notification and the cache write for it.
fn store_notification(notifications: &mut Table<Json>, id: &String, value: Json, actions: &mut Vec<CacheAction>)
    ensures
        notes(final(notifications)@) == notes(old(notifications)@).insert(id@, value@),
        actions_view(final(actions)@) == actions_view(old(actions)@).push(
            CacheActionView::PutNotification(id@, value@),
        ),
{
    let ghost before = notifications@;
    let ghost acts = actions@;
    let ghost v = value@;
    notifications.insert(id.clone(), value.copy());
    assert(notes(notifications@) =~= notes(before).insert(id@, v));
    actions.push(CacheAction::PutNotification { id: id.clone(), value });
    assert(actions_view(actions@) =~= actions_view(acts).push(CacheActionView::PutNotification(id@, v)));
}

/// Every item of `actions` removes a notification of `ids`, and each of `ids` is
/// removed exactly once.
pub open spec fn removes_each(actions: Seq<CacheActionView>, ids: Set<Seq<char>>) -> bool {
    &&& forall|i: int| 0 <= i < actions.len() ==> (#[trigger] actions[i] matches CacheActionView::RemoveNotification(k) && ids.contains(k))
    &&& forall|k: Seq<char>| ids.contains(k) ==> exists|i: int| 0 <= i < actions.len() && #[trigger] actions[i] == CacheActionView::RemoveNotification(k)
    &&& forall|i: int, j: int| 0 <= i < actions.len() && 0 <= j < actions.len() && i != j ==> #[trigger] actions[i] != #[trigger] actions[j]
}

/// Removes every notification.
fn clear_notifications(notifications: &mut Table<Json>, actions: &mut Vec<CacheAction>)
    requires
        old(actions)@.len() == 0,
    ensures
        notes(final(notifications)@) == Map::<Seq<char>, JsonView>::empty(),
        removes_each(actions_view(final(actions)@), old(notifications)@.dom()),
{
    let ids = notifications.keys();
    let n = ids.len();
    for i in 0..n
        invariant
            n == ids@.len(),
            actions@.len() == i,
            forall|j: int| 0 <= j < i ==> #[trigger] actions_view(actions@)[j] == CacheActionView::RemoveNotification(ids@[j]@),
    {
        let ghost acts = actions@;
        actions.push(CacheAction::RemoveNotification(ids[i].clone()));
        assert(actions_view(actions@) =~= actions_view(acts).push(CacheActionView::RemoveNotification(ids@[i as int]@)));
    }
    let ghost av = actions_view(actions@);
    assert forall|i: int, j: int| 0 <= i < av.len() && 0 <= j < av.len() && i != j implies #[trigger] av[i] != #[trigger] av[j] by {
        assert(av[i] == CacheActionView::RemoveNotification(ids@[i]@));
        assert(av[j] == CacheActionView::RemoveNotification(ids@[j]@));
    }
    assert forall|k: Seq<char>| notifications@.dom().contains(k) implies exists|i: int| 0 <= i < av.len() && #[trigger] av[i] == CacheActionView::RemoveNotification(k) by {
        let i = choose|i: int| 0 <= i < ids@.len() && #[trigger] ids@[i]@ == k;
        assert(av[i] == CacheActionView::RemoveNotification(k));
    }
    assert forall|i: int| 0 <= i < av.len() implies (#[trigger] av[i] matches CacheActionView::RemoveNotification(k) && notifications@.dom().contains(k)) by {
        assert(av[i] == CacheActionView::RemoveNotification(ids@[i]@));
        assert(notifications@.contains_key(ids@[i]@));
    }
    notifications.clear();
    assert(notes(notifications@) =~= Map::<Seq<char>, JsonView>::empty());
}

/// Removes the notifications `ids`.
fn delete_notifications(notifications: &mut Table<Json>, ids: &Vec<String>, actions: &mut Vec<CacheAction>)
    ensures
        notes(final(notifications)@) == removed_all(notes(old(notifications)@), strs(ids@)),
        actions_view(final(actions)@) == actions_view(old(actions)@) + strs(ids@).map_values(
            |id: Seq<char>| CacheActionView::RemoveNotification(id),
        ),
{
    let ghost start = notes(notifications@);
    let ghost acts = actions_view(actions@);
    let ghost all = strs(ids@);
    let n = ids.len();
    assert(all.take(0) =~= Seq::<Seq<char>>::empty());
    assert(acts + all.take(0).map_values(|id: Seq<char>| CacheActionView::RemoveNotification(id)) =~= acts);
    for i in 0..n
        invariant
            n == ids@.len(),
            all == strs(ids@),
            notes(notifications@) == removed_all(start, all.take(i as int)),
            actions_view(actions@) == acts + all.take(i as int).map_values(
                |id: Seq<char>| CacheActionView::RemoveNotification(id),
            ),
    {
        let ghost before = notifications@;
        let ghost before_acts = actions_view(actions@);
        assert(all.take(i + 1).drop_last() =~= all.take(i as int));
        assert(all.take(i + 1).last() == ids@[i as int]@);
        actions.push(CacheAction::RemoveNotification(ids[i].clone()));
        notifications.remove(ids[i].as_str());
        assert(notes(notifications@) =~= notes(before).remove(ids@[i as int]@));
        assert(actions_view(actions@) =~= before_acts.push(
            CacheActionView::RemoveNotification(ids@[i as int]@),
        ));
        assert(all.take(i + 1).map_values(|id: Seq<char>| CacheActionView::RemoveNotification(id))
            =~= all.take(i as int).map_values(|id: Seq<char>| CacheActionView::RemoveNotification(id)).push(
            CacheActionView::RemoveNotification(ids@[i as int]@),
        ));
        assert(actions_view(actions@) =~= acts + all.take(i + 1).map_values(
            |id: Seq<char>| CacheActionView::RemoveNotification(id),
        ));
    }
    assert(all.take(n as int) =~= all);
}

/// Records an event, keeping at most `max_recent_events`.
fn record_event(recent: &mut VecDeque<RecentPipelineEvent>, event: PipelineEvent, now_unix_ms: u64, max_recent_events: usize)
    ensures
        final(recent)@ == recorded(old(recent)@, event, now_unix_ms, max_recent_events as nat),
{
    let ghost start = recent@;
    let sequence = if recent.len() == 0 {
        now_unix_ms
    } else {
        let next = recent[recent.len() - 1].sequence.saturating_add(1);
        if next > now_unix_ms {
            next
        } else {
            now_unix_ms
        }
    };
    recent.push_back(RecentPipelineEvent { sequence, received_at_unix_ms: now_unix_ms, event });
    let ghost full = recent@;
    assert(full =~= start.push(RecentPipelineEvent { sequence: next_sequence(start, now_unix_ms), received_at_unix_ms: now_unix_ms, event }));
    while recent.len() > max_recent_events
        invariant
            recent@.len() <= full.len(),
            recent@ == full.subrange(full.len() - recent@.len(), full.len() as int),
            full.len() <= max_recent_events ==> recent@.len() == full.len(),
            full.len() > max_recent_events ==> recent@.len() >= max_recent_events,
        decreases recent@.len(),
    {
        let ghost before = recent@;
        recent.pop_front();
        assert(recent@ =~= full.subrange(full.len() - recent@.len(), full.len() as int));
    }
    assert(recent@ =~= kept(full, max_recent_events as nat)) by {
        if full.len() <= max_recent_events {
            assert(full.subrange(0, full.len() as int) =~= full);
        }
    }
}

/// The id of the notification whose cached copy [`apply_event`] needs for `event`.
pub fn notification_to_load(event: &PipelineEvent) -> (r: Option<String>)
    ensures
        opt_str(r) == needed_notification(*event),
{
    match event {
        PipelineEvent::SeeNotification(id) => Some(id.clone()),
        PipelineEvent::HideNotification(id) => Some(id.clone()),
        PipelineEvent::NotificationV2Update(u) => Some(u.id.clone()),
        _ => None,
    }
}

/// Applies a pipeline event to the state and records it. `cached_notification` is
/// what the cache holds for the notification that [`notification_to_load`] names
/// (`None` where it names none or the cache holds none); the cache writes the event
/// calls for are returned, in order, for the caller to perform.
pub fn apply_event(
    state: &mut AppSnapshot,
    event: PipelineEvent,
    cached_notification: Option<Json>,
    now_unix_ms: u64,
    max_recent_events: usize,
) -> (r: (EventEffect, Vec<CacheAction>))
    ensures
        final(state).session == old(state).session,
        final(state).friends_view() == friends_after(old(state).friends_view(), event),
        final(state).notifications_view() == notifications_after(
            old(state).notifications_view(),
            event,
            opt_json(cached_notification),
        ),
        final(state).recent_events@ == recorded(
            old(state).recent_events@,
            event,
            now_unix_ms,
            max_recent_events as nat,
        ),
        r.0 == effect_of(event, opt_json(cached_notification)),
        !(event is ClearNotification) ==> actions_view(r.1@) == actions_of(
            event,
            opt_json(cached_notification),
        ),
        event is ClearNotification ==> removes_each(
            actions_view(r.1@),
            old(state).notifications@.dom(),
        ),
{
    let mut actions: Vec<CacheAction> = Vec::new();
    let ghost no_actions = actions_view(actions@);
    assert(no_actions =~= Seq::<CacheActionView>::empty());
    let effect = match &event {
        PipelineEvent::FriendAdd(c) => {
            upsert_friend(&mut state.friends, c, &mut actions);
            EventEffect::StateChanged
        },
        PipelineEvent::FriendUpdate(c) => {
            upsert_friend(&mut state.friends, c, &mut actions);
            EventEffect::StateChanged
        },
        PipelineEvent::FriendDelete { user_id } => {
            let ghost before = state.friends@;
            actions.push(CacheAction::RemoveFriend(user_id.clone()));
            state.friends.remove(user_id.as_str());
            assert(presences(state.friends@) =~= presences(before).remove(user_id@));
            assert(actions_view(actions@) =~= seq![CacheActionView::RemoveFriend(user_id@)]);
            EventEffect::StateChanged
        },
        PipelineEvent::FriendOnline(c) => {
            friend_online(&mut state.friends, c, &mut actions);
            EventEffect::StateChanged
        },
        PipelineEvent::FriendActive(c) => {
            friend_active(&mut state.friends, c, &mut actions);
            EventEffect::StateChanged
        },
        PipelineEvent::FriendOffline(c) => {
            friend_offline(&mut state.friends, c);
            EventEffect::StateChanged
        },
        PipelineEvent::FriendLocation(c) => {
            friend_location(&mut state.friends, c, &mut actions);
            EventEffect::StateChanged
        },
        PipelineEvent::Notification(value) => match value.get_str("id") {
            Some(id) => {
                store_notification(&mut state.notifications, id, value.copy(), &mut actions);
                EventEffect::StateChanged
            },
            None => EventEffect::RecordedOnly,
        },
        PipelineEvent::NotificationV2(value) => match value.get_str("id") {
            Some(id) => {
                store_notification(&mut state.notifications, id, value.copy(), &mut actions);
                EventEffect::StateChanged
            },
            None => EventEffect::RecordedOnly,
        },
        PipelineEvent::SeeNotification(id) => {
            match cached_notification {
                Some(mut value) => {
                    value.insert_member("seen", Json::Bool(true));
                    proof {
                        reveal_strlit("seen");
                    }
                    store_notification(&mut state.notifications, id, value, &mut actions);
                },
                None => {},
            }
            EventEffect::StateChanged
        },
        PipelineEvent::HideNotification(id) => {
            match cached_notification {
                Some(mut value) => {
                    value.insert_member("status", Json::Str(owned("hidden")));
                    store_notification(&mut state.notifications, id, value, &mut actions);
                },
                None => {},
            }
            EventEffect::StateChanged
        },
        PipelineEvent::ClearNotification => {
            clear_notifications(&mut state.notifications, &mut actions);
            EventEffect::StateChanged
        },
        PipelineEvent::NotificationV2Update(update) => match cached_notification {
            Some(value) => {
                let merged_value = merge_json(value, &update.updates);
                store_notification(&mut state.notifications, &update.id, merged_value, &mut actions);
                EventEffect::StateChanged
            },
            None => EventEffect::CacheInvalidated,
        },
        PipelineEvent::NotificationV2Delete(deleted) => {
            delete_notifications(&mut state.notifications, &deleted.ids, &mut actions);
            EventEffect::StateChanged
        },
        PipelineEvent::ContentRefresh(_) => EventEffect::CacheInvalidated,
        _ => EventEffect::RecordedOnly,
    };
    record_event(&mut state.recent_events, event, now_unix_ms, max_recent_events);
    (effect, actions)
}

// ---------------------------------------------------------------------------
// Laws
// ---------------------------------------------------------------------------
/// Sequence numbers strictly increase along `s`.
pub open spec fn increasing(s: Seq<RecentPipelineEvent>) -> bool {
    forall|i: int, j: int| 0 <= i < j < s.len() ==> #[trigger] s[i].sequence < #[trigger] s[j].sequence
}

/// The friend an event is about, if it is about one.
pub open spec fn event_friend(event: PipelineEvent) -> Option<Seq<char>> {
    match event {
        PipelineEvent::FriendAdd(c) => Some(c.user_id@),
        PipelineEvent::FriendUpdate(c) => Some(c.user_id@),
        PipelineEvent::FriendDelete { user_id } => Some(user_id@),
        PipelineEvent::FriendOnline(c) => Some(c.user_id@),
        PipelineEvent::FriendActive(c) => Some(c.user_id@),
        PipelineEvent::FriendOffline(c) => Some(c.user_id@),
        PipelineEvent::FriendLocation(c) => Some(c.user_id@),
        _ => None,
    }
}

/// The list of recent events never holds more than its limit.
pub proof fn law_recent_events_bounded(recent: Seq<RecentPipelineEvent>, event: PipelineEvent, now: u64, max: nat)
    ensures
        recorded(recent, event, now, max).len() <= max,
{
}

/// Where the limit allows any, the newest record is the event just applied, stamped
/// with the time it arrived and a sequence number no earlier than that time.
pub proof fn law_newest_record_is_the_event(recent: Seq<RecentPipelineEvent>, event: PipelineEvent, now: u64, max: nat)
    requires
        max > 0,
    ensures
        recorded(recent, event, now, max).last().event == event,
        recorded(recent, event, now, max).last().received_at_unix_ms == now,
        recorded(recent, event, now, max).last().sequence >= now,
{
}

/// Sequence numbers keep increasing as events are recorded, as long as the last one
/// has not reached the largest `u64`: the new record is newer than every one before it,
/// the list keeps `min(len + 1, max)` records, and they are the last ones of the old
/// list with the new record after them.
pub proof fn law_sequences_increase(recent: Seq<RecentPipelineEvent>, event: PipelineEvent, now: u64, max: nat)
    requires
        increasing(recent),
        recent.len() > 0 ==> recent.last().sequence < u64::MAX,
    ensures
        increasing(recorded(recent, event, now, max)),
        recorded(recent, event, now, max).len() == if recent.len() + 1 <= max {
            recent.len() + 1int
        } else {
            max as int
        },
        max > 0 ==> forall|i: int| 0 <= i < recent.len() ==> #[trigger] recent[i].sequence
            < recorded(recent, event, now, max).last().sequence,
        ({
            let full = recent.push(
                RecentPipelineEvent { sequence: next_sequence(recent, now), received_at_unix_ms: now, event },
            );
            let r = recorded(recent, event, now, max);
            r == full.subrange(full.len() - r.len(), full.len() as int)
        }),
{
    let full = recent.push(
        RecentPipelineEvent { sequence: next_sequence(recent, now), received_at_unix_ms: now, event },
    );
    assert(increasing(full)) by {
        assert forall|i: int, j: int| 0 <= i < j < full.len() implies #[trigger] full[i].sequence
            < #[trigger] full[j].sequence by {
            if j == full.len() - 1 {
                assert(recent[i].sequence <= recent.last().sequence);
            } else {
                assert(full[i] == recent[i] && full[j] == recent[j]);
            }
        }
    }
    let r = recorded(recent, event, now, max);
    if full.len() > max {
        assert forall|i: int, j: int| 0 <= i < j < r.len() implies #[trigger] r[i].sequence
            < #[trigger] r[j].sequence by {
            let d = full.len() - max;
            assert(r[i] == full[i + d] && r[j] == full[j + d]);
        }
    } else {
        assert(full.subrange(0, full.len() as int) =~= full);
    }
    if max > 0 {
        assert(r.last() == full.last());
        assert forall|i: int| 0 <= i < recent.len() implies #[trigger] recent[i].sequence < r.last().sequence by {
            assert(full[i] == recent[i]);
        }
    }
}

/// An event about one friend leaves every other friend as it was.
pub proof fn law_other_friends_untouched(friends: Map<Seq<char>, PresenceView>, event: PipelineEvent, id: Seq<char>)
    requires
        event_friend(event) != Some(id),
    ensures
        friends_after(friends, event).contains_key(id) == friends.contains_key(id),
        friends.contains_key(id) ==> friends_after(friends, event)[id] == friends[id],
{
}

/// A deleted friend is gone.
pub proof fn law_deleted_friend_is_gone(friends: Map<Seq<char>, PresenceView>, user_id: String)
    ensures
        !friends_after(friends, PipelineEvent::FriendDelete { user_id }).contains_key(user_id@),
{
}

/// A friend who went offline shows as offline, inactive, nowhere, on the platform
/// the event names.
pub proof fn law_offline_friend_is_nowhere(friends: Map<Seq<char>, PresenceView>, c: FriendOfflineContent)
    ensures
        ({
            let p = friends_after(friends, PipelineEvent::FriendOffline(c))[c.user_id@];
            &&& !p.online
            &&& !p.active
            &&& p.location is None
            &&& p.traveling_to_location is None
            &&& p.world_id is None
            &&& !p.can_request_invite
            &&& p.platform == Some(c.platform@)
        }),
{
}

/// A friend who came online shows as online and active, at the location the event
/// names.
pub proof fn law_online_friend_is_online(friends: Map<Seq<char>, PresenceView>, c: FriendOnlineContent)
    ensures
        ({
            let p = friends_after(friends, PipelineEvent::FriendOnline(c))[c.user_id@];
            &&& p.online
            &&& p.active
            &&& p.location == Some(c.location@)
            &&& p.platform == Some(c.platform@)
            &&& p.can_request_invite == c.can_request_invite
        }),
{
}

/// What an event's embedded user record changes in a presence: the display name,
/// status and platform it gives (the old ones where it gives none), and nothing of
/// where the friend is or whether they are online.
pub proof fn law_user_record_updates_presence_fields(p: PresenceView, user: JsonView)
    ensures
        ({
            let q = with_user_fields(p, user);
            &&& (user.field_text("displayName"@) matches Some(n) ==> q.display_name == Some(n))
            &&& (user.field_text("displayName"@) is None ==> q.display_name == p.display_name)
            &&& (user.field_text("status"@) matches Some(t) ==> q.status == Some(t))
            &&& (user.field_text("status"@) is None ==> q.status == p.status)
            &&& (user.field_text("platform"@) matches Some(t) ==> q.platform == Some(t))
            &&& (user.field_text("platform"@) is None ==> q.platform == p.platform)
            &&& q.user_id == p.user_id
            &&& q.online == p.online
            &&& q.active == p.active
            &&& q.location == p.location
            &&& q.traveling_to_location == p.traveling_to_location
            &&& q.world_id == p.world_id
            &&& q.can_request_invite == p.can_request_invite
        }),
{
}

/// A friend who became active shows as online and active, on the platform the event
/// names, whatever they showed before; every other friend stays as they were.
pub proof fn law_active_friend_is_online(friends: Map<Seq<char>, PresenceView>, c: FriendActiveContent, other: Seq<char>)
    ensures
        friends_after(friends, PipelineEvent::FriendActive(c)).contains_key(c.user_id@),
        ({
            let p = friends_after(friends, PipelineEvent::FriendActive(c))[c.user_id@];
            &&& p.online
            &&& p.active
            &&& p.platform == Some(c.platform@)
        }),
        other != c.user_id@ ==> friends_after(friends, PipelineEvent::FriendActive(c)).contains_key(other)
            == friends.contains_key(other),
        other != c.user_id@ && friends.contains_key(other) ==> friends_after(friends, PipelineEvent::FriendActive(c))[other]
            == friends[other],
{
}

/// A friend who changed instance shows as online at the new location, in the world
/// the event names (none where it names none).
pub proof fn law_moved_friend_is_there(friends: Map<Seq<char>, PresenceView>, c: FriendLocationContent)
    ensures
        ({
            let p = friends_after(friends, PipelineEvent::FriendLocation(c))[c.user_id@];
            &&& p.online
            &&& p.location == Some(c.location@)
            &&& p.world_id == non_empty_view(c.world_id@)
            &&& p.traveling_to_location == non_empty_view(c.traveling_to_location@)
        }),
{
}

/// A notification received with an id is stored under it, as received; every other
/// notification stays as it was.
pub proof fn law_received_notification_is_stored(notes: Map<Seq<char>, JsonView>, v: Json, cached: Option<JsonView>, other: Seq<char>)
    requires
        v@.field_text("id"@) is Some,
    ensures
        ({
            let id = v@.field_text("id"@).unwrap();
            let after = notifications_after(notes, PipelineEvent::NotificationV2(v), cached);
            &&& after.contains_key(id)
            &&& after[id] == v@
            &&& other != id ==> after.contains_key(other) == notes.contains_key(other)
            &&& other != id && notes.contains_key(other) ==> after[other] == notes[other]
        }),
{
}

/// Clearing the notifications leaves none.
pub proof fn law_clear_leaves_no_notification(notes: Map<Seq<char>, JsonView>, cached: Option<JsonView>)
    ensures
        notifications_after(notes, PipelineEvent::ClearNotification, cached) == Map::<
            Seq<char>,
            JsonView,
        >::empty(),
{
}

/// Deleting notifications removes each listed id and keeps every other one.
pub proof fn law_deleted_notifications_are_gone(notes: Map<Seq<char>, JsonView>, ids: Seq<Seq<char>>, id: Seq<char>)
    ensures
        ids.contains(id) ==> !removed_all(notes, ids).contains_key(id),
        !ids.contains(id) ==> removed_all(notes, ids).contains_key(id) == notes.contains_key(id),
        !ids.contains(id) && notes.contains_key(id) ==> removed_all(notes, ids)[id] == notes[id],
    decreases ids.len(),
{
    if ids.len() > 0 {
        law_deleted_notifications_are_gone(notes, ids.drop_last(), id);
        if ids.contains(id) && id != ids.last() {
            let i = choose|i: int| 0 <= i < ids.len() && ids[i] == id;
            assert(ids.drop_last()[i] == id);
        }
        if !ids.contains(id) {
            assert forall|i: int| 0 <= i < ids.drop_last().len() implies ids.drop_last()[i] != id by {
                assert(ids.drop_last()[i] == ids[i]);
            }
        }
    }
}

/// A notification marked as seen reads `seen: true`, and keeps its other members.
pub proof fn law_seen_sets_seen(es: Seq<(Seq<char>, JsonView)>, other: Seq<char>)
    ensures
        seen_flagged(JsonView::Object(es)).field("seen"@) == Some(JsonView::Bool(true)),
        other != "seen"@ ==> seen_flagged(JsonView::Object(es)).field(other) == lookup(es, other),
{
    lemma_set_member(es, "seen"@, JsonView::Bool(true), other);
}

/// A notification marked as hidden reads `status: "hidden"`, and keeps its other
/// members.
pub proof fn law_hidden_sets_status(es: Seq<(Seq<char>, JsonView)>, other: Seq<char>)
    ensures
        hidden_flagged(JsonView::Object(es)).field("status"@) == Some(JsonView::Str("hidden"@)),
        other != "status"@ ==> hidden_flagged(JsonView::Object(es)).field(other) == lookup(es, other),
{
    lemma_set_member(es, "status"@, JsonView::Str("hidden"@), other);
}

/// The keys that a list of members names.
pub open spec fn names(us: Seq<(Seq<char>, JsonView)>, key: Seq<char>) -> bool {
    exists|i: int| 0 <= i < us.len() && #[trigger] us[i].0 == key
}

/// Merging an update into an object keeps every member the update does not name; an
/// update that is not an object replaces the value whole.
pub proof fn law_merge_keeps_unnamed_members(ts: Seq<(Seq<char>, JsonView)>, us: Seq<(Seq<char>, JsonView)>, key: Seq<char>)
    ensures
        !names(us, key) ==> lookup(merged_members(ts, us), key) == lookup(ts, key),
    decreases us.len(),
{
    if us.len() > 0 && !names(us, key) {
        let prev = us.drop_last();
        assert(!names(prev, key)) by {
            if names(prev, key) {
                let i = choose|i: int| 0 <= i < prev.len() && #[trigger] prev[i].0 == key;
                assert(us[i].0 == key);
            }
        }
        law_merge_keeps_unnamed_members(ts, prev, key);
        let m = merged_members(ts, prev);
        let k = us.last().0;
        assert(us[us.len() - 1].0 == k);
        lemma_set_member(m, k, merged(member_value(m, k), us.last().1), key);
    }
}

/// An update that is not an object replaces the value whole.
pub proof fn law_merge_replaces_non_objects(target: JsonView, updates: JsonView)
    requires
        !(updates is Object),
    ensures
        merged(target, updates) == updates,
{
}

} // verus!
