//! The client's state and the rules by which pipeline events change it.
pub mod state;
pub mod reducer;
pub mod cache;

use vstd::prelude::*;
use crate::decode::opt_str;
use crate::models::friend::{Friend, FriendView};
use crate::store::state::{FriendPresence, PresenceView};
use crate::text::{
    any_eq, before_char, before_char_exec, chars_of, is_blank, is_blank_str, owned, starts_with,
    str_eq, string_of,
};

verus! {

/// `url` where it is not blank, else `rest`.
pub open spec fn usable(url: Option<Seq<char>>, rest: Option<Seq<char>>) -> Option<Seq<char>> {
    match url {
        Some(u) => if is_blank(u) {
            rest
        } else {
            Some(u)
        },
        None => rest,
    }
}

/// The picture shown for a friend: the first non-blank of the user icon, the profile
/// picture override, the avatar thumbnail, the avatar image and the image.
pub open spec fn friend_avatar(f: FriendView) -> Option<Seq<char>> {
    usable(
        f.user_icon,
        usable(
            f.profile_pic_override_thumbnail,
            usable(
                f.current_avatar_thumbnail_image_url,
                usable(f.current_avatar_image_url, usable(f.image_url, None)),
            ),
        ),
    )
}

/// The trust rank named by a user's tags; the highest one wins.
pub open spec fn trust_rank_name(tags: Seq<Seq<char>>) -> Seq<char> {
    if tags.contains("system_trust_veteran"@) {
        "trusted"@
    } else if tags.contains("system_trust_trusted"@) {
        "known"@
    } else if tags.contains("system_trust_known"@) {
        "user"@
    } else if tags.contains("system_trust_basic"@) {
        "new"@
    } else {
        "visitor"@
    }
}

/// The world of an instance location: the part before the first `:`, where it is a
/// world id.
pub open spec fn location_world(location: Seq<char>) -> Option<Seq<char>> {
    let head = before_char(location, ':');
    if "wrld_"@.is_prefix_of(head) {
        Some(head)
    } else {
        None
    }
}

/// The world of an optional location.
pub open spec fn opt_location_world(location: Option<Seq<char>>) -> Option<Seq<char>> {
    match location {
        Some(l) => location_world(l),
        None => None,
    }
}

/// A status that counts as online.
pub open spec fn is_online_status(status: Option<Seq<char>>) -> bool {
    match status {
        Some(s) => s != "offline"@,
        None => false,
    }
}

/// The presence a friend record gives.
pub open spec fn presence_of(f: FriendView) -> PresenceView {
    PresenceView {
        user_id: f.id,
        display_name: Some(f.display_name),
        status: f.status,
        status_description: None,
        avatar_url: friend_avatar(f),
        trust_rank: Some(trust_rank_name(f.tags)),
        online: is_online_status(f.status),
        active: false,
        platform: f.platform,
        location: f.location,
        traveling_to_location: None,
        world_id: opt_location_world(f.location),
        can_request_invite: false,
    }
}

/// The presence of a friend from the friends list, which also keeps the status text.
pub open spec fn listed_presence_of(f: FriendView) -> PresenceView {
    PresenceView { status_description: f.status_description, ..presence_of(f) }
}

/// The first usable picture of a friend.
pub fn friend_avatar_url(friend: &Friend) -> (r: Option<String>)
    ensures
        opt_str(r) == friend_avatar(friend@),
{
    if let Some(u) = &friend.user_icon {
        if !is_blank_str(u.as_str()) {
            return Some(u.clone());
        }
    }
    if let Some(u) = &friend.profile_pic_override_thumbnail {
        if !is_blank_str(u.as_str()) {
            return Some(u.clone());
        }
    }
    if let Some(u) = &friend.current_avatar_thumbnail_image_url {
        if !is_blank_str(u.as_str()) {
            return Some(u.clone());
        }
    }
    if let Some(u) = &friend.current_avatar_image_url {
        if !is_blank_str(u.as_str()) {
            return Some(u.clone());
        }
    }
    if let Some(u) = &friend.image_url {
        if !is_blank_str(u.as_str()) {
            return Some(u.clone());
        }
    }
    None
}

/// The trust rank that a user's tags name; there always is one.
pub fn trust_rank_from_tags(tags: &Vec<String>) -> (r: Option<String>)
    ensures
        r is Some,
        r.unwrap()@ == trust_rank_name(crate::text::strs(tags@)),
{
    if any_eq(tags, "system_trust_veteran") {
        Some(owned("trusted"))
    } else if any_eq(tags, "system_trust_trusted") {
        Some(owned("known"))
    } else if any_eq(tags, "system_trust_known") {
        Some(owned("user"))
    } else if any_eq(tags, "system_trust_basic") {
        Some(owned("new"))
    } else {
        Some(owned("visitor"))
    }
}

/// The world id of a location, where it names one.
pub fn location_world_id(location: &Option<String>) -> (r: Option<String>)
    ensures
        opt_str(r) == opt_location_world(opt_str(*location)),
{
    match location {
        Some(l) => {
            let head = string_of(&before_char_exec(&chars_of(l.as_str()), ':'));
            if starts_with(head.as_str(), "wrld_") {
                Some(head)
            } else {
                None
            }
        },
        None => None,
    }
}

/// Whether a status counts as online.
pub fn online_status(status: &Option<String>) -> (r: bool)
    ensures
        r == is_online_status(opt_str(*status)),
{
    match status {
        Some(s) => !str_eq(s.as_str(), "offline"),
        None => false,
    }
}

/// The presence a friend record gives.
pub fn presence_from_friend(friend: &Friend) -> (r: FriendPresence)
    ensures
        r@ == presence_of(friend@),
{
    FriendPresence {
        user_id: friend.id.clone(),
        display_name: Some(friend.display_name.clone()),
        status: friend.status.clone(),
        status_description: None,
        avatar_url: friend_avatar_url(friend),
        trust_rank: trust_rank_from_tags(&friend.tags),
        online: online_status(&friend.status),
        active: false,
        platform: friend.platform.clone(),
        location: friend.location.clone(),
        traveling_to_location: None,
        world_id: location_world_id(&friend.location),
        can_request_invite: false,
    }
}

/// The presence of a friend from the friends list.
pub fn listed_presence(friend: &Friend) -> (r: FriendPresence)
    ensures
        r@ == listed_presence_of(friend@),
{
    let mut p = presence_from_friend(friend);
    p.status_description = friend.status_description.clone();
    p
}

/// The trust rank is the highest trust tag's: a veteran is shown as "trusted", a
/// trusted user as "known", a known user as "user", a basic one as "new", and a user
/// with none of these tags as a "visitor".
pub proof fn law_trust_rank_follows_the_highest_tag(tags: Seq<Seq<char>>)
    ensures
        tags.contains("system_trust_veteran"@) ==> trust_rank_name(tags) == "trusted"@,
        !tags.contains("system_trust_veteran"@) && tags.contains("system_trust_trusted"@) ==> trust_rank_name(tags)
            == "known"@,
        !tags.contains("system_trust_veteran"@) && !tags.contains("system_trust_trusted"@) && tags.contains(
            "system_trust_known"@,
        ) ==> trust_rank_name(tags) == "user"@,
        !tags.contains("system_trust_veteran"@) && !tags.contains("system_trust_trusted"@) && !tags.contains(
            "system_trust_known"@,
        ) && tags.contains("system_trust_basic"@) ==> trust_rank_name(tags) == "new"@,
        !tags.contains("system_trust_veteran"@) && !tags.contains("system_trust_trusted"@) && !tags.contains(
            "system_trust_known"@,
        ) && !tags.contains("system_trust_basic"@) ==> trust_rank_name(tags) == "visitor"@,
{
}

/// The presence a friend record gives: the friend is online unless their status is
/// missing or "offline"; their picture is the first non-blank of the user icon, the
/// profile picture override, the avatar thumbnail, the avatar image and the image;
/// their trust rank is their highest trust tag's; and they are never shown as active
/// or travelling until an event says so.
pub proof fn law_presence_from_friend_record(f: FriendView)
    ensures
        presence_of(f).user_id == f.id,
        presence_of(f).display_name == Some(f.display_name),
        presence_of(f).online == (f.status is Some && f.status != Some("offline"@)),
        !presence_of(f).active,
        presence_of(f).traveling_to_location is None,
        presence_of(f).location == f.location && presence_of(f).platform == f.platform,
        presence_of(f).trust_rank == Some(trust_rank_name(f.tags)),
        f.location is None ==> presence_of(f).world_id is None,
        f.user_icon matches Some(u) ==> (!is_blank(u) ==> presence_of(f).avatar_url == Some(u)),
        presence_of(f).avatar_url matches Some(u) ==> !is_blank(u) && (f.user_icon == Some(u)
            || f.profile_pic_override_thumbnail == Some(u) || f.current_avatar_thumbnail_image_url == Some(u)
            || f.current_avatar_image_url == Some(u) || f.image_url == Some(u)),
        (f.user_icon matches Some(u) ==> is_blank(u)) && (f.profile_pic_override_thumbnail matches Some(u)
            ==> is_blank(u)) && (f.current_avatar_thumbnail_image_url matches Some(u) ==> is_blank(u))
            && (f.current_avatar_image_url matches Some(u) ==> is_blank(u)) && (f.image_url matches Some(u)
            ==> is_blank(u)) ==> presence_of(f).avatar_url is None,
{
}

} // verus!
