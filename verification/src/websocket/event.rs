//! The messages of the realtime pipeline: events about notifications, friends, the
//! signed-in user, content and groups, and the error the service sends back.
//!
//! The text of a message is parsed as JSON before it reaches this module; a string
//! `content` member is itself JSON text whose parse, where it succeeds, is handed in
//! beside the message.
use vstd::prelude::*;
use crate::decode::{
    Content,
    aliased_text_member, any_member, either, err_of, flag_member, invalid_message, invalid_msg,
    is_object, not_struct_message, opt_str, opt_text_member, read_aliased_text, read_any,
    read_flag, read_opt_text, read_text, read_text_list, read_u32, read_u64, record_problem,
    text_list_member, text_member, u32_member, u64_member,
};
use crate::json_text::{json_of_text, parse_json};
use crate::json::{entries_view, lemma_set_member, lookup, set_member, without_key, Json, JsonEntry, JsonView};
use crate::text::{concat, owned, str_eq, strs};

verus! {

/// The answer to a notification that another user responded to.
#[derive(Debug, Clone, PartialEq, Eq)]
pub struct NotificationResponseContent {
    pub notification_id: String,
    pub receiver_id: String,
    pub response_id: String,
}

impl Content for NotificationResponseContent {
    open spec fn problem(v: JsonView) -> Option<Seq<char>> {
        record_problem(v, "NotificationResponseContent"@, either(err_of(text_member(v, "notificationId"@)), either(err_of(text_member(v, "receiverId"@)), err_of(text_member(v, "responseId"@)))))
    }

    open spec fn decoded(&self, v: JsonView) -> bool {
        &&& text_member(v, "notificationId"@) == Ok::<Seq<char>, Seq<char>>(self.notification_id@)
        &&& text_member(v, "receiverId"@) == Ok::<Seq<char>, Seq<char>>(self.receiver_id@)
        &&& text_member(v, "responseId"@) == Ok::<Seq<char>, Seq<char>>(self.response_id@)
    }

    fn from_json(v: &Json) -> (r: Result<Self, String>) {
        if !is_object(v) {
            return Err(not_struct_message("NotificationResponseContent"));
        }
        let notification_id = match read_text(v, "notificationId") {
            Ok(x) => x,
            Err(e) => return Err(e),
        };
        let receiver_id = match read_text(v, "receiverId") {
            Ok(x) => x,
            Err(e) => return Err(e),
        };
        let response_id = match read_text(v, "responseId") {
            Ok(x) => x,
            Err(e) => return Err(e),
        };
        Ok(NotificationResponseContent { notification_id, receiver_id, response_id })
    }
}

/// Changed properties of a second-generation notification.
#[derive(Debug, Clone, PartialEq)]
pub struct NotificationV2Update {
    pub id: String,
    pub version: u32,
    pub updates: Json,
}

impl Content for NotificationV2Update {
    open spec fn problem(v: JsonView) -> Option<Seq<char>> {
        record_problem(v, "NotificationV2Update"@, either(err_of(text_member(v, "id"@)), either(err_of(u32_member(v, "version"@)), err_of(any_member(v, "updates"@)))))
    }

    open spec fn decoded(&self, v: JsonView) -> bool {
        &&& text_member(v, "id"@) == Ok::<Seq<char>, Seq<char>>(self.id@)
        &&& u32_member(v, "version"@) == Ok::<u32, Seq<char>>(self.version)
        &&& any_member(v, "updates"@) == Ok::<JsonView, Seq<char>>(self.updates@)
    }

    fn from_json(v: &Json) -> (r: Result<Self, String>) {
        if !is_object(v) {
            return Err(not_struct_message("NotificationV2Update"));
        }
        let id = match read_text(v, "id") {
            Ok(x) => x,
            Err(e) => return Err(e),
        };
        let version = match read_u32(v, "version") {
            Ok(x) => x,
            Err(e) => return Err(e),
        };
        let updates = match read_any(v, "updates") {
            Ok(x) => x,
            Err(e) => return Err(e),
        };
        Ok(NotificationV2Update { id, version, updates })
    }
}

/// Second-generation notifications that were withdrawn.
#[derive(Debug, Clone, PartialEq, Eq)]
pub struct NotificationV2Delete {
    pub ids: Vec<String>,
    pub version: u32,
}

impl Content for NotificationV2Delete {
    open spec fn problem(v: JsonView) -> Option<Seq<char>> {
        record_problem(v, "NotificationV2Delete"@, either(err_of(text_list_member(v, "ids"@)), err_of(u32_member(v, "version"@))))
    }

    open spec fn decoded(&self, v: JsonView) -> bool {
        &&& text_list_member(v, "ids"@) == Ok::<Seq<Seq<char>>, Seq<char>>(strs(self.ids@))
        &&& u32_member(v, "version"@) == Ok::<u32, Seq<char>>(self.version)
    }

    fn from_json(v: &Json) -> (r: Result<Self, String>) {
        if !is_object(v) {
            return Err(not_struct_message("NotificationV2Delete"));
        }
        let ids = match read_text_list(v, "ids") {
            Ok(x) => x,
            Err(e) => return Err(e),
        };
        let version = match read_u32(v, "version") {
            Ok(x) => x,
            Err(e) => return Err(e),
        };
        Ok(NotificationV2Delete { ids, version })
    }
}

/// A user id with the user record it refers to.
#[derive(Debug, Clone, PartialEq)]
pub struct UserContent {
    pub user_id: String,
    pub user: Json,
}

impl Content for UserContent {
    open spec fn problem(v: JsonView) -> Option<Seq<char>> {
        record_problem(v, "UserContent"@, either(err_of(text_member(v, "userId"@)), err_of(any_member(v, "user"@))))
    }

    open spec fn decoded(&self, v: JsonView) -> bool {
        &&& text_member(v, "userId"@) == Ok::<Seq<char>, Seq<char>>(self.user_id@)
        &&& any_member(v, "user"@) == Ok::<JsonView, Seq<char>>(self.user@)
    }

    fn from_json(v: &Json) -> (r: Result<Self, String>) {
        if !is_object(v) {
            return Err(not_struct_message("UserContent"));
        }
        let user_id = match read_text(v, "userId") {
            Ok(x) => x,
            Err(e) => return Err(e),
        };
        let user = match read_any(v, "user") {
            Ok(x) => x,
            Err(e) => return Err(e),
        };
        Ok(UserContent { user_id, user })
    }
}

/// A friend who came online.
#[derive(Debug, Clone, PartialEq)]
pub struct FriendOnlineContent {
    pub user_id: String,
    pub platform: String,
    pub location: String,
    pub can_request_invite: bool,
    pub user: Json,
}

impl Content for FriendOnlineContent {
    open spec fn problem(v: JsonView) -> Option<Seq<char>> {
        record_problem(v, "FriendOnlineContent"@, either(err_of(text_member(v, "userId"@)), either(err_of(text_member(v, "platform"@)), either(err_of(text_member(v, "location"@)), either(err_of(flag_member(v, "canRequestInvite"@)), err_of(any_member(v, "user"@)))))))
    }

    open spec fn decoded(&self, v: JsonView) -> bool {
        &&& text_member(v, "userId"@) == Ok::<Seq<char>, Seq<char>>(self.user_id@)
        &&& text_member(v, "platform"@) == Ok::<Seq<char>, Seq<char>>(self.platform@)
        &&& text_member(v, "location"@) == Ok::<Seq<char>, Seq<char>>(self.location@)
        &&& flag_member(v, "canRequestInvite"@) == Ok::<bool, Seq<char>>(self.can_request_invite)
        &&& any_member(v, "user"@) == Ok::<JsonView, Seq<char>>(self.user@)
    }

    fn from_json(v: &Json) -> (r: Result<Self, String>) {
        if !is_object(v) {
            return Err(not_struct_message("FriendOnlineContent"));
        }
        let user_id = match read_text(v, "userId") {
            Ok(x) => x,
            Err(e) => return Err(e),
        };
        let platform = match read_text(v, "platform") {
            Ok(x) => x,
            Err(e) => return Err(e),
        };
        let location = match read_text(v, "location") {
            Ok(x) => x,
            Err(e) => return Err(e),
        };
        let can_request_invite = match read_flag(v, "canRequestInvite") {
            Ok(x) => x,
            Err(e) => return Err(e),
        };
        let user = match read_any(v, "user") {
            Ok(x) => x,
            Err(e) => return Err(e),
        };
        Ok(FriendOnlineContent { user_id, platform, location, can_request_invite, user })
    }
}

/// A friend who is active on the website.
#[derive(Debug, Clone, PartialEq)]
pub struct FriendActiveContent {
    pub user_id: String,
    pub platform: String,
    pub user: Json,
}

impl Content for FriendActiveContent {
    open spec fn problem(v: JsonView) -> Option<Seq<char>> {
        record_problem(v, "FriendActiveContent"@, either(err_of(aliased_text_member(v, "userId"@, "userid"@)), either(err_of(text_member(v, "platform"@)), err_of(any_member(v, "user"@)))))
    }

    open spec fn decoded(&self, v: JsonView) -> bool {
        &&& aliased_text_member(v, "userId"@, "userid"@) == Ok::<Seq<char>, Seq<char>>(self.user_id@)
        &&& text_member(v, "platform"@) == Ok::<Seq<char>, Seq<char>>(self.platform@)
        &&& any_member(v, "user"@) == Ok::<JsonView, Seq<char>>(self.user@)
    }

    fn from_json(v: &Json) -> (r: Result<Self, String>) {
        if !is_object(v) {
            return Err(not_struct_message("FriendActiveContent"));
        }
        let user_id = match read_aliased_text(v, "userId", "userid") {
            Ok(x) => x,
            Err(e) => return Err(e),
        };
        let platform = match read_text(v, "platform") {
            Ok(x) => x,
            Err(e) => return Err(e),
        };
        let user = match read_any(v, "user") {
            Ok(x) => x,
            Err(e) => return Err(e),
        };
        Ok(FriendActiveContent { user_id, platform, user })
    }
}

/// A friend who went offline.
#[derive(Debug, Clone, PartialEq, Eq)]
pub struct FriendOfflineContent {
    pub user_id: String,
    pub platform: String,
}

impl Content for FriendOfflineContent {
    open spec fn problem(v: JsonView) -> Option<Seq<char>> {
        record_problem(v, "FriendOfflineContent"@, either(err_of(text_member(v, "userId"@)), err_of(text_member(v, "platform"@))))
    }

    open spec fn decoded(&self, v: JsonView) -> bool {
        &&& text_member(v, "userId"@) == Ok::<Seq<char>, Seq<char>>(self.user_id@)
        &&& text_member(v, "platform"@) == Ok::<Seq<char>, Seq<char>>(self.platform@)
    }

    fn from_json(v: &Json) -> (r: Result<Self, String>) {
        if !is_object(v) {
            return Err(not_struct_message("FriendOfflineContent"));
        }
        let user_id = match read_text(v, "userId") {
            Ok(x) => x,
            Err(e) => return Err(e),
        };
        let platform = match read_text(v, "platform") {
            Ok(x) => x,
            Err(e) => return Err(e),
        };
        Ok(FriendOfflineContent { user_id, platform })
    }
}

/// A friend who changed instance.
#[derive(Debug, Clone, PartialEq)]
pub struct FriendLocationContent {
    pub user_id: String,
    pub location: String,
    pub traveling_to_location: String,
    pub world_id: String,
    pub can_request_invite: bool,
    pub user: Json,
}

impl Content for FriendLocationContent {
    open spec fn problem(v: JsonView) -> Option<Seq<char>> {
        record_problem(v, "FriendLocationContent"@, either(err_of(text_member(v, "userId"@)), either(err_of(text_member(v, "location"@)), either(err_of(text_member(v, "travelingToLocation"@)), either(err_of(text_member(v, "worldId"@)), either(err_of(flag_member(v, "canRequestInvite"@)), err_of(any_member(v, "user"@))))))))
    }

    open spec fn decoded(&self, v: JsonView) -> bool {
        &&& text_member(v, "userId"@) == Ok::<Seq<char>, Seq<char>>(self.user_id@)
        &&& text_member(v, "location"@) == Ok::<Seq<char>, Seq<char>>(self.location@)
        &&& text_member(v, "travelingToLocation"@) == Ok::<Seq<char>, Seq<char>>(self.traveling_to_location@)
        &&& text_member(v, "worldId"@) == Ok::<Seq<char>, Seq<char>>(self.world_id@)
        &&& flag_member(v, "canRequestInvite"@) == Ok::<bool, Seq<char>>(self.can_request_invite)
        &&& any_member(v, "user"@) == Ok::<JsonView, Seq<char>>(self.user@)
    }

    fn from_json(v: &Json) -> (r: Result<Self, String>) {
        if !is_object(v) {
            return Err(not_struct_message("FriendLocationContent"));
        }
        let user_id = match read_text(v, "userId") {
            Ok(x) => x,
            Err(e) => return Err(e),
        };
        let location = match read_text(v, "location") {
            Ok(x) => x,
            Err(e) => return Err(e),
        };
        let traveling_to_location = match read_text(v, "travelingToLocation") {
            Ok(x) => x,
            Err(e) => return Err(e),
        };
        let world_id = match read_text(v, "worldId") {
            Ok(x) => x,
            Err(e) => return Err(e),
        };
        let can_request_invite = match read_flag(v, "canRequestInvite") {
            Ok(x) => x,
            Err(e) => return Err(e),
        };
        let user = match read_any(v, "user") {
            Ok(x) => x,
            Err(e) => return Err(e),
        };
        Ok(FriendLocationContent { user_id, location, traveling_to_location, world_id, can_request_invite, user })
    }
}

/// The signed-in user changed instance.
#[derive(Debug, Clone, PartialEq)]
pub struct UserLocationContent {
    pub user_id: String,
    pub user: Json,
    pub location: String,
    pub instance: String,
    pub traveling_to_location: String,
}

impl Content for UserLocationContent {
    open spec fn problem(v: JsonView) -> Option<Seq<char>> {
        record_problem(v, "UserLocationContent"@, either(err_of(text_member(v, "userId"@)), either(err_of(any_member(v, "user"@)), either(err_of(text_member(v, "location"@)), either(err_of(text_member(v, "instance"@)), err_of(text_member(v, "travelingToLocation"@)))))))
    }

    open spec fn decoded(&self, v: JsonView) -> bool {
        &&& text_member(v, "userId"@) == Ok::<Seq<char>, Seq<char>>(self.user_id@)
        &&& any_member(v, "user"@) == Ok::<JsonView, Seq<char>>(self.user@)
        &&& text_member(v, "location"@) == Ok::<Seq<char>, Seq<char>>(self.location@)
        &&& text_member(v, "instance"@) == Ok::<Seq<char>, Seq<char>>(self.instance@)
        &&& text_member(v, "travelingToLocation"@) == Ok::<Seq<char>, Seq<char>>(self.traveling_to_location@)
    }

    fn from_json(v: &Json) -> (r: Result<Self, String>) {
        if !is_object(v) {
            return Err(not_struct_message("UserLocationContent"));
        }
        let user_id = match read_text(v, "userId") {
            Ok(x) => x,
            Err(e) => return Err(e),
        };
        let user = match read_any(v, "user") {
            Ok(x) => x,
            Err(e) => return Err(e),
        };
        let location = match read_text(v, "location") {
            Ok(x) => x,
            Err(e) => return Err(e),
        };
        let instance = match read_text(v, "instance") {
            Ok(x) => x,
            Err(e) => return Err(e),
        };
        let traveling_to_location = match read_text(v, "travelingToLocation") {
            Ok(x) => x,
            Err(e) => return Err(e),
        };
        Ok(UserLocationContent { user_id, user, location, instance, traveling_to_location })
    }
}

/// A badge given to the signed-in user.
#[derive(Debug, Clone, PartialEq)]
pub struct BadgeAssignedContent {
    pub badge: Json,
}

impl Content for BadgeAssignedContent {
    open spec fn problem(v: JsonView) -> Option<Seq<char>> {
        record_problem(v, "BadgeAssignedContent"@, err_of(any_member(v, "badge"@)))
    }

    open spec fn decoded(&self, v: JsonView) -> bool {
        any_member(v, "badge"@) == Ok::<JsonView, Seq<char>>(self.badge@)
    }

    fn from_json(v: &Json) -> (r: Result<Self, String>) {
        if !is_object(v) {
            return Err(not_struct_message("BadgeAssignedContent"));
        }
        let badge = match read_any(v, "badge") {
            Ok(x) => x,
            Err(e) => return Err(e),
        };
        Ok(BadgeAssignedContent { badge })
    }
}

/// A badge taken from the signed-in user.
#[derive(Debug, Clone, PartialEq, Eq)]
pub struct BadgeUnassignedContent {
    pub badge_id: String,
}

impl Content for BadgeUnassignedContent {
    open spec fn problem(v: JsonView) -> Option<Seq<char>> {
        record_problem(v, "BadgeUnassignedContent"@, err_of(text_member(v, "badgeId"@)))
    }

    open spec fn decoded(&self, v: JsonView) -> bool {
        text_member(v, "badgeId"@) == Ok::<Seq<char>, Seq<char>>(self.badge_id@)
    }

    fn from_json(v: &Json) -> (r: Result<Self, String>) {
        if !is_object(v) {
            return Err(not_struct_message("BadgeUnassignedContent"));
        }
        let badge_id = match read_text(v, "badgeId") {
            Ok(x) => x,
            Err(e) => return Err(e),
        };
        Ok(BadgeUnassignedContent { badge_id })
    }
}

/// Uploaded content of the signed-in user changed.
#[derive(Debug, Clone, PartialEq, Eq)]
pub struct ContentRefreshContent {
    pub content_type: String,
    pub file_id: Option<String>,
    pub item_id: Option<String>,
    pub item_type: Option<String>,
    pub action_type: String,
}

impl Content for ContentRefreshContent {
    open spec fn problem(v: JsonView) -> Option<Seq<char>> {
        record_problem(v, "ContentRefreshContent"@, either(err_of(text_member(v, "contentType"@)), either(err_of(opt_text_member(v, "fileId"@)), either(err_of(opt_text_member(v, "itemId"@)), either(err_of(opt_text_member(v, "itemType"@)), err_of(text_member(v, "actionType"@)))))))
    }

    open spec fn decoded(&self, v: JsonView) -> bool {
        &&& text_member(v, "contentType"@) == Ok::<Seq<char>, Seq<char>>(self.content_type@)
        &&& opt_text_member(v, "fileId"@) == Ok::<Option<Seq<char>>, Seq<char>>(opt_str(self.file_id))
        &&& opt_text_member(v, "itemId"@) == Ok::<Option<Seq<char>>, Seq<char>>(opt_str(self.item_id))
        &&& opt_text_member(v, "itemType"@) == Ok::<Option<Seq<char>>, Seq<char>>(opt_str(self.item_type))
        &&& text_member(v, "actionType"@) == Ok::<Seq<char>, Seq<char>>(self.action_type@)
    }

    fn from_json(v: &Json) -> (r: Result<Self, String>) {
        if !is_object(v) {
            return Err(not_struct_message("ContentRefreshContent"));
        }
        let content_type = match read_text(v, "contentType") {
            Ok(x) => x,
            Err(e) => return Err(e),
        };
        let file_id = match read_opt_text(v, "fileId") {
            Ok(x) => x,
            Err(e) => return Err(e),
        };
        let item_id = match read_opt_text(v, "itemId") {
            Ok(x) => x,
            Err(e) => return Err(e),
        };
        let item_type = match read_opt_text(v, "itemType") {
            Ok(x) => x,
            Err(e) => return Err(e),
        };
        let action_type = match read_text(v, "actionType") {
            Ok(x) => x,
            Err(e) => return Err(e),
        };
        Ok(ContentRefreshContent { content_type, file_id, item_id, item_type, action_type })
    }
}

/// Purchases of the signed-in user changed.
#[derive(Debug, Clone, PartialEq, Eq)]
pub struct EconomyUpdateContent {
    pub dirty_purchases: bool,
}

impl Content for EconomyUpdateContent {
    open spec fn problem(v: JsonView) -> Option<Seq<char>> {
        record_problem(v, "EconomyUpdateContent"@, err_of(flag_member(v, "dirtyPurchases"@)))
    }

    open spec fn decoded(&self, v: JsonView) -> bool {
        flag_member(v, "dirtyPurchases"@) == Ok::<bool, Seq<char>>(self.dirty_purchases)
    }

    fn from_json(v: &Json) -> (r: Result<Self, String>) {
        if !is_object(v) {
            return Err(not_struct_message("EconomyUpdateContent"));
        }
        let dirty_purchases = match read_flag(v, "dirtyPurchases") {
            Ok(x) => x,
            Err(e) => return Err(e),
        };
        Ok(EconomyUpdateContent { dirty_purchases })
    }
}

/// An image file finished processing.
#[derive(Debug, Clone, PartialEq, Eq)]
pub struct ModifiedImageUpdateContent {
    pub file_id: String,
    pub pixel_size: u64,
    pub version_number: u64,
    pub needs_processing: bool,
}

impl Content for ModifiedImageUpdateContent {
    open spec fn problem(v: JsonView) -> Option<Seq<char>> {
        record_problem(v, "ModifiedImageUpdateContent"@, either(err_of(text_member(v, "fileId"@)), either(err_of(u64_member(v, "pixelSize"@)), either(err_of(u64_member(v, "versionNumber"@)), err_of(flag_member(v, "needsProcessing"@))))))
    }

    open spec fn decoded(&self, v: JsonView) -> bool {
        &&& text_member(v, "fileId"@) == Ok::<Seq<char>, Seq<char>>(self.file_id@)
        &&& u64_member(v, "pixelSize"@) == Ok::<u64, Seq<char>>(self.pixel_size)
        &&& u64_member(v, "versionNumber"@) == Ok::<u64, Seq<char>>(self.version_number)
        &&& flag_member(v, "needsProcessing"@) == Ok::<bool, Seq<char>>(self.needs_processing)
    }

    fn from_json(v: &Json) -> (r: Result<Self, String>) {
        if !is_object(v) {
            return Err(not_struct_message("ModifiedImageUpdateContent"));
        }
        let file_id = match read_text(v, "fileId") {
            Ok(x) => x,
            Err(e) => return Err(e),
        };
        let pixel_size = match read_u64(v, "pixelSize") {
            Ok(x) => x,
            Err(e) => return Err(e),
        };
        let version_number = match read_u64(v, "versionNumber") {
            Ok(x) => x,
            Err(e) => return Err(e),
        };
        let needs_processing = match read_flag(v, "needsProcessing") {
            Ok(x) => x,
            Err(e) => return Err(e),
        };
        Ok(ModifiedImageUpdateContent { file_id, pixel_size, version_number, needs_processing })
    }
}

/// The signed-in user joined the queue of an instance.
#[derive(Debug, Clone, PartialEq, Eq)]
pub struct InstanceQueueJoinedContent {
    pub instance_location: String,
    pub position: u64,
}

impl Content for InstanceQueueJoinedContent {
    open spec fn problem(v: JsonView) -> Option<Seq<char>> {
        record_problem(v, "InstanceQueueJoinedContent"@, either(err_of(text_member(v, "instanceLocation"@)), err_of(u64_member(v, "position"@))))
    }

    open spec fn decoded(&self, v: JsonView) -> bool {
        &&& text_member(v, "instanceLocation"@) == Ok::<Seq<char>, Seq<char>>(self.instance_location@)
        &&& u64_member(v, "position"@) == Ok::<u64, Seq<char>>(self.position)
    }

    fn from_json(v: &Json) -> (r: Result<Self, String>) {
        if !is_object(v) {
            return Err(not_struct_message("InstanceQueueJoinedContent"));
        }
        let instance_location = match read_text(v, "instanceLocation") {
            Ok(x) => x,
            Err(e) => return Err(e),
        };
        let position = match read_u64(v, "position") {
            Ok(x) => x,
            Err(e) => return Err(e),
        };
        Ok(InstanceQueueJoinedContent { instance_location, position })
    }
}

/// The queued instance can be joined now.
#[derive(Debug, Clone, PartialEq, Eq)]
pub struct InstanceQueueReadyContent {
    pub instance_location: String,
    pub expiry: String,
}

impl Content for InstanceQueueReadyContent {
    open spec fn problem(v: JsonView) -> Option<Seq<char>> {
        record_problem(v, "InstanceQueueReadyContent"@, either(err_of(text_member(v, "instanceLocation"@)), err_of(text_member(v, "expiry"@))))
    }

    open spec fn decoded(&self, v: JsonView) -> bool {
        &&& text_member(v, "instanceLocation"@) == Ok::<Seq<char>, Seq<char>>(self.instance_location@)
        &&& text_member(v, "expiry"@) == Ok::<Seq<char>, Seq<char>>(self.expiry@)
    }

    fn from_json(v: &Json) -> (r: Result<Self, String>) {
        if !is_object(v) {
            return Err(not_struct_message("InstanceQueueReadyContent"));
        }
        let instance_location = match read_text(v, "instanceLocation") {
            Ok(x) => x,
            Err(e) => return Err(e),
        };
        let expiry = match read_text(v, "expiry") {
            Ok(x) => x,
            Err(e) => return Err(e),
        };
        Ok(InstanceQueueReadyContent { instance_location, expiry })
    }
}

/// A group the signed-in user joined or left.
#[derive(Debug, Clone, PartialEq, Eq)]
pub struct GroupIdContent {
    pub group_id: String,
}

impl Content for GroupIdContent {
    open spec fn problem(v: JsonView) -> Option<Seq<char>> {
        record_problem(v, "GroupIdContent"@, err_of(text_member(v, "groupId"@)))
    }

    open spec fn decoded(&self, v: JsonView) -> bool {
        text_member(v, "groupId"@) == Ok::<Seq<char>, Seq<char>>(self.group_id@)
    }

    fn from_json(v: &Json) -> (r: Result<Self, String>) {
        if !is_object(v) {
            return Err(not_struct_message("GroupIdContent"));
        }
        let group_id = match read_text(v, "groupId") {
            Ok(x) => x,
            Err(e) => return Err(e),
        };
        Ok(GroupIdContent { group_id })
    }
}

/// A changed group membership.
#[derive(Debug, Clone, PartialEq)]
pub struct GroupMemberUpdatedContent {
    pub member: Json,
}

impl Content for GroupMemberUpdatedContent {
    open spec fn problem(v: JsonView) -> Option<Seq<char>> {
        record_problem(v, "GroupMemberUpdatedContent"@, err_of(any_member(v, "member"@)))
    }

    open spec fn decoded(&self, v: JsonView) -> bool {
        any_member(v, "member"@) == Ok::<JsonView, Seq<char>>(self.member@)
    }

    fn from_json(v: &Json) -> (r: Result<Self, String>) {
        if !is_object(v) {
            return Err(not_struct_message("GroupMemberUpdatedContent"));
        }
        let member = match read_any(v, "member") {
            Ok(x) => x,
            Err(e) => return Err(e),
        };
        Ok(GroupMemberUpdatedContent { member })
    }
}

/// A changed group role.
#[derive(Debug, Clone, PartialEq)]
pub struct GroupRoleUpdatedContent {
    pub role: Json,
}

impl Content for GroupRoleUpdatedContent {
    open spec fn problem(v: JsonView) -> Option<Seq<char>> {
        record_problem(v, "GroupRoleUpdatedContent"@, err_of(any_member(v, "role"@)))
    }

    open spec fn decoded(&self, v: JsonView) -> bool {
        any_member(v, "role"@) == Ok::<JsonView, Seq<char>>(self.role@)
    }

    fn from_json(v: &Json) -> (r: Result<Self, String>) {
        if !is_object(v) {
            return Err(not_struct_message("GroupRoleUpdatedContent"));
        }
        let role = match read_any(v, "role") {
            Ok(x) => x,
            Err(e) => return Err(e),
        };
        Ok(GroupRoleUpdatedContent { role })
    }
}

/// Content that names a user and nothing more.
#[derive(Debug, Clone, PartialEq, Eq)]
pub struct UserIdOnly {
    pub user_id: String,
}

impl Content for UserIdOnly {
    open spec fn problem(v: JsonView) -> Option<Seq<char>> {
        record_problem(v, "UserIdOnly"@, err_of(text_member(v, "userId"@)))
    }

    open spec fn decoded(&self, v: JsonView) -> bool {
        text_member(v, "userId"@) == Ok::<Seq<char>, Seq<char>>(self.user_id@)
    }

    fn from_json(v: &Json) -> (r: Result<Self, String>) {
        if !is_object(v) {
            return Err(not_struct_message("UserIdOnly"));
        }
        let user_id = match read_text(v, "userId") {
            Ok(x) => x,
            Err(e) => return Err(e),
        };
        Ok(UserIdOnly { user_id })
    }
}


/// An event pushed by the pipeline. Payloads that the library does not interpret
/// further stay JSON.
#[derive(Debug, Clone, PartialEq)]
pub enum PipelineEvent {
    Notification(Json),
    ResponseNotification(NotificationResponseContent),
    SeeNotification(String),
    HideNotification(String),
    ClearNotification,
    NotificationV2(Json),
    NotificationV2Update(NotificationV2Update),
    NotificationV2Delete(NotificationV2Delete),
    FriendAdd(UserContent),
    FriendDelete { user_id: String },
    FriendOnline(FriendOnlineContent),
    FriendActive(FriendActiveContent),
    FriendOffline(FriendOfflineContent),
    FriendUpdate(UserContent),
    FriendLocation(FriendLocationContent),
    UserUpdate(UserContent),
    UserLocation(UserLocationContent),
    UserBadgeAssigned(BadgeAssignedContent),
    UserBadgeUnassigned(BadgeUnassignedContent),
    ContentRefresh(ContentRefreshContent),
    EconomyUpdate(EconomyUpdateContent),
    ModifiedImageUpdate(ModifiedImageUpdateContent),
    InstanceQueueJoined(InstanceQueueJoinedContent),
    InstanceQueueReady(InstanceQueueReadyContent),
    GroupJoined(GroupIdContent),
    GroupLeft(GroupIdContent),
    GroupMemberUpdated(GroupMemberUpdatedContent),
    GroupRoleUpdated(GroupRoleUpdatedContent),
    Unknown { event_type: String, content: Json },
}

/// An error the pipeline reported: its `err` text and every other member.
#[derive(Debug, Clone, PartialEq)]
pub struct PipelineError {
    pub err: String,
    pub extra: Vec<JsonEntry>,
}

/// One message of the pipeline.
#[derive(Debug, Clone, PartialEq)]
pub enum PipelineMessage {
    Event(PipelineEvent),
    Error(PipelineError),
}

/// Why a message could not be read.
#[derive(Debug, Clone, PartialEq)]
pub enum PipelineParseError {
    NotAnObject,
    MissingType,
    Json(String),
    InvalidContent { event_type: String, reason: String, content: Json },
}

impl PipelineParseError {
    /// `self` reports that the content `content` of an event `event_type` did not
    /// decode, for the reason `reason`.
    pub open spec fn is_invalid(&self, event_type: Seq<char>, reason: Seq<char>, content: JsonView) -> bool {
        match self {
            PipelineParseError::InvalidContent { event_type: t, reason: r, content: c } => {
                &&& t@ == event_type
                &&& r@ == reason
                &&& c@ == content
            },
            _ => false,
        }
    }

    /// The text that reports the error.
    pub open spec fn message_view(&self) -> Seq<char> {
        match self {
            PipelineParseError::NotAnObject => "message is not a JSON object"@,
            PipelineParseError::MissingType => "missing pipeline event type"@,
            PipelineParseError::Json(reason) => "invalid JSON: "@ + reason@,
            PipelineParseError::InvalidContent { event_type, reason, .. } => "invalid content for "@
                + event_type@ + ": "@ + reason@,
        }
    }

    /// The text that reports the error.
    pub fn message(&self) -> (r: String)
        ensures
            r@ == self.message_view(),
    {
        match self {
            PipelineParseError::NotAnObject => owned("message is not a JSON object"),
            PipelineParseError::MissingType => owned("missing pipeline event type"),
            PipelineParseError::Json(reason) => concat(&owned("invalid JSON: "), reason.as_str()),
            PipelineParseError::InvalidContent { event_type, reason, .. } => {
                let head = concat(&owned("invalid content for "), event_type.as_str());
                concat(&concat(&head, ": "), reason.as_str())
            },
        }
    }
}

/// `x` is what the content `v` decodes to.
pub open spec fn content_ok<T: Content>(x: T, v: JsonView) -> bool {
    T::problem(v) is None && x.decoded(v)
}

/// `e` reports why `v` does not decode as a `T` for an event `event_type`.
pub open spec fn content_err<T: Content>(event_type: Seq<char>, v: JsonView, e: PipelineParseError) -> bool {
    T::problem(v) is Some && e.is_invalid(event_type, T::problem(v).unwrap(), v)
}

/// A string content, or why it is not one.
pub open spec fn string_outcome(event_type: Seq<char>, v: JsonView, r: Result<String, PipelineParseError>) -> bool {
    match r {
        Ok(s) => v == JsonView::Str(s@),
        Err(e) => !(v is Str) && e.is_invalid(event_type, "expected string content"@, v),
    }
}

/// What an event of type `event_type` with content `v` reads as.
pub open spec fn event_outcome(event_type: Seq<char>, v: JsonView, r: Result<PipelineEvent, PipelineParseError>) -> bool {
    let et = event_type;
    if et == "notification"@ {
        r matches Ok(PipelineEvent::Notification(c)) && c@ == v
    } else if et == "response-notification"@ {
        match r {
            Ok(PipelineEvent::ResponseNotification(x)) => content_ok(x, v),
            Err(e) => content_err::<NotificationResponseContent>(et, v, e),
            _ => false,
        }
    } else if et == "see-notification"@ {
        match r {
            Ok(PipelineEvent::SeeNotification(s)) => string_outcome(et, v, Ok(s)),
            Err(e) => string_outcome(et, v, Err(e)),
            _ => false,
        }
    } else if et == "hide-notification"@ {
        match r {
            Ok(PipelineEvent::HideNotification(s)) => string_outcome(et, v, Ok(s)),
            Err(e) => string_outcome(et, v, Err(e)),
            _ => false,
        }
    } else if et == "clear-notification"@ {
        r matches Ok(PipelineEvent::ClearNotification)
    } else if et == "notification-v2"@ {
        r matches Ok(PipelineEvent::NotificationV2(c)) && c@ == v
    } else if et == "notification-v2-update"@ {
        match r {
            Ok(PipelineEvent::NotificationV2Update(x)) => content_ok(x, v),
            Err(e) => content_err::<NotificationV2Update>(et, v, e),
            _ => false,
        }
    } else if et == "notification-v2-delete"@ {
        match r {
            Ok(PipelineEvent::NotificationV2Delete(x)) => content_ok(x, v),
            Err(e) => content_err::<NotificationV2Delete>(et, v, e),
            _ => false,
        }
    } else if et == "friend-add"@ {
        match r {
            Ok(PipelineEvent::FriendAdd(x)) => content_ok(x, v),
            Err(e) => content_err::<UserContent>(et, v, e),
            _ => false,
        }
    } else if et == "friend-delete"@ {
        match r {
            Ok(PipelineEvent::FriendDelete { user_id }) => {
                UserIdOnly::problem(v) is None && text_member(v, "userId"@) == Ok::<
                    Seq<char>,
                    Seq<char>,
                >(user_id@)
            },
            Err(e) => content_err::<UserIdOnly>(et, v, e),
            _ => false,
        }
    } else if et == "friend-online"@ {
        match r {
            Ok(PipelineEvent::FriendOnline(x)) => content_ok(x, v),
            Err(e) => content_err::<FriendOnlineContent>(et, v, e),
            _ => false,
        }
    } else if et == "friend-active"@ {
        match r {
            Ok(PipelineEvent::FriendActive(x)) => content_ok(x, v),
            Err(e) => content_err::<FriendActiveContent>(et, v, e),
            _ => false,
        }
    } else if et == "friend-offline"@ {
        match r {
            Ok(PipelineEvent::FriendOffline(x)) => content_ok(x, v),
            Err(e) => content_err::<FriendOfflineContent>(et, v, e),
            _ => false,
        }
    } else if et == "friend-update"@ {
        match r {
            Ok(PipelineEvent::FriendUpdate(x)) => content_ok(x, v),
            Err(e) => content_err::<UserContent>(et, v, e),
            _ => false,
        }
    } else if et == "friend-location"@ {
        match r {
            Ok(PipelineEvent::FriendLocation(x)) => content_ok(x, v),
            Err(e) => content_err::<FriendLocationContent>(et, v, e),
            _ => false,
        }
    } else if et == "user-update"@ {
        match r {
            Ok(PipelineEvent::UserUpdate(x)) => content_ok(x, v),
            Err(e) => content_err::<UserContent>(et, v, e),
            _ => false,
        }
    } else if et == "user-location"@ {
        match r {
            Ok(PipelineEvent::UserLocation(x)) => content_ok(x, v),
            Err(e) => content_err::<UserLocationContent>(et, v, e),
            _ => false,
        }
    } else if et == "user-badge-assigned"@ {
        match r {
            Ok(PipelineEvent::UserBadgeAssigned(x)) => content_ok(x, v),
            Err(e) => content_err::<BadgeAssignedContent>(et, v, e),
            _ => false,
        }
    } else if et == "user-badge-unassigned"@ {
        match r {
            Ok(PipelineEvent::UserBadgeUnassigned(x)) => content_ok(x, v),
            Err(e) => content_err::<BadgeUnassignedContent>(et, v, e),
            _ => false,
        }
    } else if et == "content-refresh"@ {
        match r {
            Ok(PipelineEvent::ContentRefresh(x)) => content_ok(x, v),
            Err(e) => content_err::<ContentRefreshContent>(et, v, e),
            _ => false,
        }
    } else if et == "economy-update"@ {
        match r {
            Ok(PipelineEvent::EconomyUpdate(x)) => content_ok(x, v),
            Err(e) => content_err::<EconomyUpdateContent>(et, v, e),
            _ => false,
        }
    } else if et == "modified-image-update"@ {
        match r {
            Ok(PipelineEvent::ModifiedImageUpdate(x)) => content_ok(x, v),
            Err(e) => content_err::<ModifiedImageUpdateContent>(et, v, e),
            _ => false,
        }
    } else if et == "instance-queue-joined"@ {
        match r {
            Ok(PipelineEvent::InstanceQueueJoined(x)) => content_ok(x, v),
            Err(e) => content_err::<InstanceQueueJoinedContent>(et, v, e),
            _ => false,
        }
    } else if et == "instance-queue-ready"@ {
        match r {
            Ok(PipelineEvent::InstanceQueueReady(x)) => content_ok(x, v),
            Err(e) => content_err::<InstanceQueueReadyContent>(et, v, e),
            _ => false,
        }
    } else if et == "group-joined"@ {
        match r {
            Ok(PipelineEvent::GroupJoined(x)) => content_ok(x, v),
            Err(e) => content_err::<GroupIdContent>(et, v, e),
            _ => false,
        }
    } else if et == "group-left"@ {
        match r {
            Ok(PipelineEvent::GroupLeft(x)) => content_ok(x, v),
            Err(e) => content_err::<GroupIdContent>(et, v, e),
            _ => false,
        }
    } else if et == "group-member-updated"@ {
        match r {
            Ok(PipelineEvent::GroupMemberUpdated(x)) => content_ok(x, v),
            Err(e) => content_err::<GroupMemberUpdatedContent>(et, v, e),
            _ => false,
        }
    } else if et == "group-role-updated"@ {
        match r {
            Ok(PipelineEvent::GroupRoleUpdated(x)) => content_ok(x, v),
            Err(e) => content_err::<GroupRoleUpdatedContent>(et, v, e),
            _ => false,
        }
    } else {
        r matches Ok(PipelineEvent::Unknown { event_type: t, content: c }) && t@ == et && c@ == v
    }
}

/// Decodes `content` as a `T` for an event `event_type`.
pub fn parse_content<T: Content>(event_type: &str, content: Json) -> (r: Result<T, PipelineParseError>)
    ensures
        match r {
            Ok(x) => content_ok(x, content@),
            Err(e) => content_err::<T>(event_type@, content@, e),
        },
{
    match T::from_json(&content) {
        Ok(x) => Ok(x),
        Err(reason) => Err(PipelineParseError::InvalidContent { event_type: owned(event_type), reason, content }),
    }
}

/// The string that `content` holds.
pub fn parse_string_content(event_type: &str, content: Json) -> (r: Result<String, PipelineParseError>)
    ensures
        string_outcome(event_type@, content@, r),
{
    match content {
        Json::Str(value) => Ok(value),
        other => Err(
            PipelineParseError::InvalidContent {
                event_type: owned(event_type),
                reason: owned("expected string content"),
                content: other,
            },
        ),
    }
}

/// Reads the event of type `event_type` from its (normalized) content.
#[verifier::rlimit(50)]
pub fn parse_event(event_type: &str, content: Json) -> (r: Result<PipelineEvent, PipelineParseError>)
    ensures
        event_outcome(event_type@, content@, r),
{
    if str_eq(event_type, "notification") {
        Ok(PipelineEvent::Notification(content))
    } else if str_eq(event_type, "response-notification") {
        match parse_content(event_type, content) {
            Ok(x) => Ok(PipelineEvent::ResponseNotification(x)),
            Err(e) => Err(e),
        }
    } else if str_eq(event_type, "see-notification") {
        match parse_string_content(event_type, content) {
            Ok(s) => Ok(PipelineEvent::SeeNotification(s)),
            Err(e) => Err(e),
        }
    } else if str_eq(event_type, "hide-notification") {
        match parse_string_content(event_type, content) {
            Ok(s) => Ok(PipelineEvent::HideNotification(s)),
            Err(e) => Err(e),
        }
    } else if str_eq(event_type, "clear-notification") {
        Ok(PipelineEvent::ClearNotification)
    } else if str_eq(event_type, "notification-v2") {
        Ok(PipelineEvent::NotificationV2(content))
    } else if str_eq(event_type, "notification-v2-update") {
        match parse_content(event_type, content) {
            Ok(x) => Ok(PipelineEvent::NotificationV2Update(x)),
            Err(e) => Err(e),
        }
    } else if str_eq(event_type, "notification-v2-delete") {
        match parse_content(event_type, content) {
            Ok(x) => Ok(PipelineEvent::NotificationV2Delete(x)),
            Err(e) => Err(e),
        }
    } else if str_eq(event_type, "friend-add") {
        match parse_content(event_type, content) {
            Ok(x) => Ok(PipelineEvent::FriendAdd(x)),
            Err(e) => Err(e),
        }
    } else if str_eq(event_type, "friend-delete") {
        match parse_content::<UserIdOnly>(event_type, content) {
            Ok(x) => Ok(PipelineEvent::FriendDelete { user_id: x.user_id }),
            Err(e) => Err(e),
        }
    } else if str_eq(event_type, "friend-online") {
        match parse_content(event_type, content) {
            Ok(x) => Ok(PipelineEvent::FriendOnline(x)),
            Err(e) => Err(e),
        }
    } else if str_eq(event_type, "friend-active") {
        match parse_content(event_type, content) {
            Ok(x) => Ok(PipelineEvent::FriendActive(x)),
            Err(e) => Err(e),
        }
    } else if str_eq(event_type, "friend-offline") {
        match parse_content(event_type, content) {
            Ok(x) => Ok(PipelineEvent::FriendOffline(x)),
            Err(e) => Err(e),
        }
    } else if str_eq(event_type, "friend-update") {
        match parse_content(event_type, content) {
            Ok(x) => Ok(PipelineEvent::FriendUpdate(x)),
            Err(e) => Err(e),
        }
    } else if str_eq(event_type, "friend-location") {
        match parse_content(event_type, content) {
            Ok(x) => Ok(PipelineEvent::FriendLocation(x)),
            Err(e) => Err(e),
        }
    } else if str_eq(event_type, "user-update") {
        match parse_content(event_type, content) {
            Ok(x) => Ok(PipelineEvent::UserUpdate(x)),
            Err(e) => Err(e),
        }
    } else if str_eq(event_type, "user-location") {
        match parse_content(event_type, content) {
            Ok(x) => Ok(PipelineEvent::UserLocation(x)),
            Err(e) => Err(e),
        }
    } else if str_eq(event_type, "user-badge-assigned") {
        match parse_content(event_type, content) {
            Ok(x) => Ok(PipelineEvent::UserBadgeAssigned(x)),
            Err(e) => Err(e),
        }
    } else if str_eq(event_type, "user-badge-unassigned") {
        match parse_content(event_type, content) {
            Ok(x) => Ok(PipelineEvent::UserBadgeUnassigned(x)),
            Err(e) => Err(e),
        }
    } else if str_eq(event_type, "content-refresh") {
        match parse_content(event_type, content) {
            Ok(x) => Ok(PipelineEvent::ContentRefresh(x)),
            Err(e) => Err(e),
        }
    } else if str_eq(event_type, "economy-update") {
        match parse_content(event_type, content) {
            Ok(x) => Ok(PipelineEvent::EconomyUpdate(x)),
            Err(e) => Err(e),
        }
    } else if str_eq(event_type, "modified-image-update") {
        match parse_content(event_type, content) {
            Ok(x) => Ok(PipelineEvent::ModifiedImageUpdate(x)),
            Err(e) => Err(e),
        }
    } else if str_eq(event_type, "instance-queue-joined") {
        match parse_content(event_type, content) {
            Ok(x) => Ok(PipelineEvent::InstanceQueueJoined(x)),
            Err(e) => Err(e),
        }
    } else if str_eq(event_type, "instance-queue-ready") {
        match parse_content(event_type, content) {
            Ok(x) => Ok(PipelineEvent::InstanceQueueReady(x)),
            Err(e) => Err(e),
        }
    } else if str_eq(event_type, "group-joined") {
        match parse_content(event_type, content) {
            Ok(x) => Ok(PipelineEvent::GroupJoined(x)),
            Err(e) => Err(e),
        }
    } else if str_eq(event_type, "group-left") {
        match parse_content(event_type, content) {
            Ok(x) => Ok(PipelineEvent::GroupLeft(x)),
            Err(e) => Err(e),
        }
    } else if str_eq(event_type, "group-member-updated") {
        match parse_content(event_type, content) {
            Ok(x) => Ok(PipelineEvent::GroupMemberUpdated(x)),
            Err(e) => Err(e),
        }
    } else if str_eq(event_type, "group-role-updated") {
        match parse_content(event_type, content) {
            Ok(x) => Ok(PipelineEvent::GroupRoleUpdated(x)),
            Err(e) => Err(e),
        }
    } else {
        Ok(PipelineEvent::Unknown { event_type: owned(event_type), content })
    }
}



/// The content member of a message, `null` where it is absent.
pub open spec fn content_of(raw: JsonView) -> JsonView {
    match raw.field("content"@) {
        Some(c) => c,
        None => JsonView::Null,
    }
}

/// Content after unwrapping: string content that parsed as JSON (`decoded`) is
/// replaced by what it parsed to; anything else stays as it is.
pub open spec fn normalized(content: JsonView, decoded: Option<JsonView>) -> JsonView {
    match (content, decoded) {
        (JsonView::Str(_), Some(d)) => d,
        _ => content,
    }
}

/// The view of an optional JSON value.
pub open spec fn opt_json(o: Option<Json>) -> Option<JsonView> {
    match o {
        Some(j) => Some(j@),
        None => None,
    }
}

/// What a message whose JSON is `raw` reads as, given the parse `decoded` of its
/// string content.
pub open spec fn message_outcome(raw: JsonView, decoded: Option<JsonView>, r: Result<PipelineMessage, PipelineParseError>) -> bool {
    if !(raw is Object) {
        r matches Err(PipelineParseError::NotAnObject)
    } else if raw.field("err"@) is Some {
        match raw.field("err"@) {
            Some(JsonView::Str(s)) => {
                &&& r matches Ok(PipelineMessage::Error(e))
                &&& r->Ok_0->Error_0.err@ == s
                &&& entries_view(r->Ok_0->Error_0.extra@) == without_key(raw->Object_0, "err"@)
            },
            _ => r matches Err(PipelineParseError::Json(m)) && m@ == invalid_msg("err"@),
        }
    } else {
        match raw.field_text("type"@) {
            None => r matches Err(PipelineParseError::MissingType),
            Some(t) => {
                let content = normalized(content_of(raw), decoded);
                match r {
                    Ok(PipelineMessage::Event(ev)) => event_outcome(t, content, Ok(ev)),
                    Ok(PipelineMessage::Error(_)) => false,
                    Err(e) => event_outcome(t, content, Err(e)),
                }
            },
        }
    }
}

/// The string content of a message, which is read as JSON before the message is;
/// `None` where the content is not a string.
pub fn embedded_content(raw: &Json) -> (r: Option<String>)
    ensures
        match r {
            Some(t) => content_of(raw@) == JsonView::Str(t@),
            None => !(content_of(raw@) is Str),
        },
{
    match raw.get("content") {
        Some(Json::Str(t)) => Some(t.clone()),
        _ => None,
    }
}

/// Unwraps string content that parsed as JSON.
pub fn normalize_content(content: Json, decoded: Option<Json>) -> (r: Json)
    ensures
        r@ == normalized(content@, opt_json(decoded)),
{
    match (content, decoded) {
        (Json::Str(_), Some(d)) => d,
        (c, _) => c,
    }
}

/// Reads a message from its JSON; `decoded` is the parse of its string content,
/// where it has one that parses.
pub fn parse_pipeline_value(raw: &Json, decoded: Option<Json>) -> (r: Result<PipelineMessage, PipelineParseError>)
    ensures
        message_outcome(raw@, opt_json(decoded), r),
{
    if !is_object(raw) {
        return Err(PipelineParseError::NotAnObject);
    }
    match raw.get("err") {
        Some(x) => {
            return match x {
                Json::Str(s) => Ok(
                    PipelineMessage::Error(PipelineError { err: s.clone(), extra: raw.members_except("err") }),
                ),
                _ => Err(PipelineParseError::Json(invalid_message("err"))),
            };
        },
        None => {},
    }
    let event_type = match raw.get_str("type") {
        Some(t) => t,
        None => return Err(PipelineParseError::MissingType),
    };
    let content = match raw.get("content") {
        Some(c) => c.copy(),
        None => Json::Null,
    };
    let content = normalize_content(content, decoded);
    match parse_event(event_type.as_str(), content) {
        Ok(ev) => Ok(PipelineMessage::Event(ev)),
        Err(e) => Err(e),
    }
}

/// What `serde_json` reads from a message's string content; none where the content is
/// not a string or not JSON.
pub open spec fn content_json(raw: JsonView) -> Option<JsonView> {
    match content_of(raw) {
        JsonView::Str(text) => json_of_text(text),
        _ => None,
    }
}

/// Reads a pipeline message from its text: the text's JSON, with string content that
/// is itself JSON read in its place.
pub fn parse_pipeline_message(message: &str) -> (r: Result<PipelineMessage, PipelineParseError>)
    ensures
        match json_of_text(message@) {
            None => r matches Err(PipelineParseError::Json(_)),
            Some(j) => message_outcome(j, content_json(j), r),
        },
{
    match parse_json(message) {
        Err(m) => Err(PipelineParseError::Json(m)),
        Ok(j) => {
            let decoded = match embedded_content(&j) {
                Some(text) => match parse_json(text.as_str()) {
                    Ok(d) => Some(d),
                    Err(_) => None,
                },
                None => None,
            };
            parse_pipeline_value(&j, decoded)
        },
    }
}

/// Double-encoded content reads as the content it encodes: an event message whose
/// content is JSON text reads exactly like the same message with the parsed content
/// in its place. (Messages with an `err` member are pipeline errors and keep every
/// other member as it is, so they are left out.)
pub proof fn law_double_encoded_content_reads_as_direct(
    es: Seq<(Seq<char>, JsonView)>,
    text: Seq<char>,
    parsed: JsonView,
    r: Result<PipelineMessage, PipelineParseError>,
)
    requires
        lookup(es, "content"@) == Some(JsonView::Str(text)),
        lookup(es, "err"@) is None,
    ensures
        message_outcome(JsonView::Object(es), Some(parsed), r) == message_outcome(
            JsonView::Object(set_member(es, "content"@, parsed)),
            None,
            r,
        ),
{
    reveal_strlit("content");
    reveal_strlit("err");
    reveal_strlit("type");
    assert("type"@.len() != "content"@.len() && "err"@.len() != "content"@.len());
    lemma_set_member(es, "content"@, parsed, "err"@);
    lemma_set_member(es, "content"@, parsed, "type"@);
    let direct = JsonView::Object(set_member(es, "content"@, parsed));
    assert(content_of(direct) == parsed);
    assert(normalized(content_of(JsonView::Object(es)), Some(parsed)) == parsed);
    assert(direct.field("type"@) == JsonView::Object(es).field("type"@));
    assert(direct.field("err"@) is None);
}

} // verus!
