//! VRChat user model: identity, profile, presence, social data and the tag-derived ranks.
use vstd::prelude::*;
use crate::decode::{
    all_decoded, any_list_member, decode_items, default_flag_member, default_text_member,
    either, err_of, flag_member, flag_or_false, flag_or_false_exec, is_object, items_problem,
    list_decoded, list_problem, nested_decoded, nested_problem, not_enum_message, not_enum_msg,
    not_struct_message, opt_any_member, opt_text_list_member, read_any_list, read_default_flag,
    read_default_text, read_flag, read_list, read_nested, read_opt_any, read_opt_text_list,
    read_text, read_text_list, record_problem, string_array, string_array_of, text_list_member,
    text_member, text_or_empty, text_or_empty_exec, unknown_variant_message, unknown_variant_msg,
    Content,
};
use crate::websocket::event::opt_json;
use crate::json::{Json, JsonView};
use crate::text::{any_eq, str_eq, strip_prefix, strip_prefix_exec, strs};

verus! {

/// A badge shown on a profile.
#[derive(Debug, Clone, PartialEq)]
pub struct Badges {
    pub badge_id: String,
    pub badge_name: String,
    pub badge_description: String,
    pub badge_image_url: String,
    pub assigned_at: String,
    pub updated_at: String,
    pub hidden: bool,
    pub showcased: bool,
}

/// Account dates.
#[derive(Debug, Clone, PartialEq)]
pub struct Metadata {
    pub date_joined: String,
    pub last_activity: String,
    pub last_login: String,
    pub last_mobile: String,
}

/// Travel state of a user.
#[derive(Debug, Clone, Copy, PartialEq, Eq, Structural)]
pub enum Traveling {
    Idle,
    Offline,
    Traveling,
    Private,
}

/// Where a user is and on which platform. Instance summaries are kept as the JSON
/// the API returned.
#[derive(Debug, Clone, PartialEq)]
pub struct Presence {
    pub instance: Option<Json>,
    pub traveling_to_instance: Option<Json>,
    pub travels: Vec<Traveling>,
    pub platform: String,
    pub last_platform: String,
}

/// Public profile text and pictures.
#[derive(Debug, Clone, PartialEq)]
pub struct Profile {
    pub bio: String,
    pub bio_links: Vec<String>,
    pub pronouns: String,
    pub user_icon: String,
    pub profile_pic_override: String,
    pub profile_pic_override_thumbnail: String,
    pub current_avatar_image_url: String,
    pub current_avatar_thumbnail_image_url: String,
}

/// A user's status as VRChat reports it.
#[derive(Debug, Clone, Copy, PartialEq, Eq, Structural)]
pub enum UserStatus {
    Active,
    JoinMe,
    AskMe,
    Busy,
    Offline,
    Unknown,
}

/// Status and its free-text description.
#[derive(Debug, Clone, PartialEq)]
pub struct StatusInfo {
    pub status: UserStatus,
    pub status_description: String,
}

/// Who a user is.
#[derive(Debug, Clone, PartialEq)]
pub struct Identity {
    pub id: String,
    pub username: String,
    pub display_name: String,
    pub status: StatusInfo,
}

/// Friendship and group data. Group summaries are kept as the JSON the API returned.
#[derive(Debug, Clone, PartialEq)]
pub struct Social {
    pub is_friend: bool,
    pub friend_key: String,
    pub friend_request_status: String,
    pub mutuals: Vec<Identity>,
    pub groups: Vec<Json>,
    pub note: String,
}

#[derive(Debug, Clone, Copy, PartialEq, Eq, Structural)]
pub enum TrustRank {
    Visitor,
    NewUser,
    User,
    KnownUser,
    TrustedUser,
    Unknown,
}

#[derive(Debug, Clone, Copy, PartialEq, Eq, Structural)]
pub enum TrollState {
    NotFlagged,
    Probable,
    Confirmed,
}

#[derive(Debug, Clone, Copy, PartialEq, Eq, Structural)]
pub enum SupporterState {
    NotSupporter,
    Supporter,
    EarlySupporter,
}

#[derive(Debug, Clone, Copy, PartialEq, Eq, Structural)]
pub enum AdminTags {
    IsModerator,
    ShowModTag,
    HasAdminAvatarAccess,
    HasAdminWorldAccess,
    HasAdminCannyAccess,
    CanGrantLicenses,
    LockLevel,
    LockTags,
    HasOfficialThumbnail,
}

#[derive(Debug, Clone, Copy, PartialEq, Eq, Structural)]
pub enum Permissions {
    HasWorldAccess,
    HasAvatarAccess,
    HasFeedbackAccess,
}

/// What the raw tag list of a user says.
#[derive(Debug, Clone, PartialEq)]
pub struct Tags {
    pub trust_rank: TrustRank,
    pub troll_state: TrollState,
    pub admin_tags: Vec<AdminTags>,
    pub supporter_state: SupporterState,
    pub permissions: Vec<Permissions>,
    pub languages: Vec<String>,
    pub raw: Vec<String>,
}

#[derive(Debug, Clone, PartialEq)]
pub struct UserSummary {
    pub identity: Identity,
}

/// A VRChat user as the application keeps it.
#[derive(Debug, Clone, PartialEq)]
pub struct User {
    pub profile: Profile,
    pub identity: Identity,
    pub metadata: Metadata,
    pub presence: Presence,
    pub social: Social,
    pub badges: Vec<Badges>,
    pub tags: Tags,
    pub age_verified: bool,
    pub age_verification_status: String,
    pub requires_two_factor_auth: Option<Vec<String>>,
}

// ---------------------------------------------------------------------------
// Tag interpretation
// ---------------------------------------------------------------------------
/// The status named by the API's status string.
pub open spec fn status_of(s: Seq<char>) -> UserStatus {
    if s == "active"@ {
        UserStatus::Active
    } else if s == "joinMe"@ {
        UserStatus::JoinMe
    } else if s == "askMe"@ {
        UserStatus::AskMe
    } else if s == "busy"@ {
        UserStatus::Busy
    } else if s == "offline"@ {
        UserStatus::Offline
    } else {
        UserStatus::Unknown
    }
}

/// The trust rank: the highest `system_trust_*` tag present wins.
pub open spec fn trust_rank_of(tags: Seq<Seq<char>>) -> TrustRank {
    if tags.contains("system_trust_veteran"@) {
        TrustRank::TrustedUser
    } else if tags.contains("system_trust_trusted"@) {
        TrustRank::KnownUser
    } else if tags.contains("system_trust_known"@) {
        TrustRank::User
    } else if tags.contains("system_trust_basic"@) {
        TrustRank::NewUser
    } else if tags.contains("system_trust_troll"@) {
        TrustRank::Visitor
    } else {
        TrustRank::Unknown
    }
}

pub open spec fn troll_state_of(tags: Seq<Seq<char>>) -> TrollState {
    if tags.contains("system_troll_confirmed"@) {
        TrollState::Confirmed
    } else if tags.contains("system_troll_probable"@) {
        TrollState::Probable
    } else {
        TrollState::NotFlagged
    }
}

pub open spec fn supporter_state_of(tags: Seq<Seq<char>>) -> SupporterState {
    if tags.contains("system_supporter_early"@) {
        SupporterState::EarlySupporter
    } else if tags.contains("system_supporter"@) {
        SupporterState::Supporter
    } else {
        SupporterState::NotSupporter
    }
}

pub open spec fn admin_tag_of(tag: Seq<char>) -> Option<AdminTags> {
    if tag == "admin_moderator"@ {
        Some(AdminTags::IsModerator)
    } else if tag == "admin_show_mod_tag"@ {
        Some(AdminTags::ShowModTag)
    } else if tag == "admin_avatar_access"@ {
        Some(AdminTags::HasAdminAvatarAccess)
    } else if tag == "admin_world_access"@ {
        Some(AdminTags::HasAdminWorldAccess)
    } else if tag == "admin_canny_access"@ {
        Some(AdminTags::HasAdminCannyAccess)
    } else if tag == "admin_can_grant_licenses"@ {
        Some(AdminTags::CanGrantLicenses)
    } else if tag == "admin_lock_level"@ {
        Some(AdminTags::LockLevel)
    } else if tag == "admin_lock_tags"@ {
        Some(AdminTags::LockTags)
    } else if tag == "admin_official_thumbnail"@ {
        Some(AdminTags::HasOfficialThumbnail)
    } else {
        None
    }
}

pub open spec fn permission_of(tag: Seq<char>) -> Option<Permissions> {
    if tag == "system_world_access"@ {
        Some(Permissions::HasWorldAccess)
    } else if tag == "system_avatar_access"@ {
        Some(Permissions::HasAvatarAccess)
    } else if tag == "system_feedback_access"@ {
        Some(Permissions::HasFeedbackAccess)
    } else {
        None
    }
}

/// The admin tags among `tags`, in order.
pub open spec fn admin_tags_of(tags: Seq<Seq<char>>) -> Seq<AdminTags>
    decreases tags.len(),
{
    if tags.len() == 0 {
        Seq::empty()
    } else {
        let prev = admin_tags_of(tags.drop_last());
        match admin_tag_of(tags.last()) {
            Some(t) => prev.push(t),
            None => prev,
        }
    }
}

/// The permissions among `tags`, in order.
pub open spec fn permissions_of(tags: Seq<Seq<char>>) -> Seq<Permissions>
    decreases tags.len(),
{
    if tags.len() == 0 {
        Seq::empty()
    } else {
        let prev = permissions_of(tags.drop_last());
        match permission_of(tags.last()) {
            Some(p) => prev.push(p),
            None => prev,
        }
    }
}

/// The language codes: each `language_*` tag with its prefix removed, in order.
pub open spec fn languages_of(tags: Seq<Seq<char>>) -> Seq<Seq<char>>
    decreases tags.len(),
{
    if tags.len() == 0 {
        Seq::empty()
    } else {
        let prev = languages_of(tags.drop_last());
        match strip_prefix(tags.last(), "language_"@) {
            Some(code) => prev.push(code),
            None => prev,
        }
    }
}

/// Maps the API's status string to a status.
pub fn user_status(status: &str) -> (r: UserStatus)
    ensures
        r == status_of(status@),
{
    if str_eq(status, "active") {
        UserStatus::Active
    } else if str_eq(status, "joinMe") {
        UserStatus::JoinMe
    } else if str_eq(status, "askMe") {
        UserStatus::AskMe
    } else if str_eq(status, "busy") {
        UserStatus::Busy
    } else if str_eq(status, "offline") {
        UserStatus::Offline
    } else {
        UserStatus::Unknown
    }
}

/// The trust rank that a tag list grants.
pub fn trust_rank(tags: &Vec<String>) -> (r: TrustRank)
    ensures
        r == trust_rank_of(strs(tags@)),
{
    if any_eq(tags, "system_trust_veteran") {
        TrustRank::TrustedUser
    } else if any_eq(tags, "system_trust_trusted") {
        TrustRank::KnownUser
    } else if any_eq(tags, "system_trust_known") {
        TrustRank::User
    } else if any_eq(tags, "system_trust_basic") {
        TrustRank::NewUser
    } else if any_eq(tags, "system_trust_troll") {
        TrustRank::Visitor
    } else {
        TrustRank::Unknown
    }
}

/// The troll state that a tag list records.
pub fn troll_state(tags: &Vec<String>) -> (r: TrollState)
    ensures
        r == troll_state_of(strs(tags@)),
{
    if any_eq(tags, "system_troll_confirmed") {
        TrollState::Confirmed
    } else if any_eq(tags, "system_troll_probable") {
        TrollState::Probable
    } else {
        TrollState::NotFlagged
    }
}

/// The supporter state that a tag list records.
pub fn supporter_state(tags: &Vec<String>) -> (r: SupporterState)
    ensures
        r == supporter_state_of(strs(tags@)),
{
    if any_eq(tags, "system_supporter_early") {
        SupporterState::EarlySupporter
    } else if any_eq(tags, "system_supporter") {
        SupporterState::Supporter
    } else {
        SupporterState::NotSupporter
    }
}

/// The admin tag that one raw tag names.
pub fn admin_tag(tag: &str) -> (r: Option<AdminTags>)
    ensures
        r == admin_tag_of(tag@),
{
    if str_eq(tag, "admin_moderator") {
        Some(AdminTags::IsModerator)
    } else if str_eq(tag, "admin_show_mod_tag") {
        Some(AdminTags::ShowModTag)
    } else if str_eq(tag, "admin_avatar_access") {
        Some(AdminTags::HasAdminAvatarAccess)
    } else if str_eq(tag, "admin_world_access") {
        Some(AdminTags::HasAdminWorldAccess)
    } else if str_eq(tag, "admin_canny_access") {
        Some(AdminTags::HasAdminCannyAccess)
    } else if str_eq(tag, "admin_can_grant_licenses") {
        Some(AdminTags::CanGrantLicenses)
    } else if str_eq(tag, "admin_lock_level") {
        Some(AdminTags::LockLevel)
    } else if str_eq(tag, "admin_lock_tags") {
        Some(AdminTags::LockTags)
    } else if str_eq(tag, "admin_official_thumbnail") {
        Some(AdminTags::HasOfficialThumbnail)
    } else {
        None
    }
}

/// The permission that one raw tag names.
pub fn permission(tag: &str) -> (r: Option<Permissions>)
    ensures
        r == permission_of(tag@),
{
    if str_eq(tag, "system_world_access") {
        Some(Permissions::HasWorldAccess)
    } else if str_eq(tag, "system_avatar_access") {
        Some(Permissions::HasAvatarAccess)
    } else if str_eq(tag, "system_feedback_access") {
        Some(Permissions::HasFeedbackAccess)
    } else {
        None
    }
}

/// Interprets a raw tag list; the list itself is kept in `raw`.
pub fn tags_from_raw(raw: Vec<String>) -> (r: Tags)
    ensures
        r.trust_rank == trust_rank_of(strs(raw@)),
        r.troll_state == troll_state_of(strs(raw@)),
        r.supporter_state == supporter_state_of(strs(raw@)),
        r.admin_tags@ == admin_tags_of(strs(raw@)),
        r.permissions@ == permissions_of(strs(raw@)),
        strs(r.languages@) == languages_of(strs(raw@)),
        strs(r.raw@) == strs(raw@),
{
    let ghost views = strs(raw@);
    let mut admin: Vec<AdminTags> = Vec::new();
    let mut perms: Vec<Permissions> = Vec::new();
    let mut langs: Vec<String> = Vec::new();
    let n = raw.len();
    for i in 0..n
        invariant
            n == raw.len(),
            views == strs(raw@),
            admin@ == admin_tags_of(views.take(i as int)),
            perms@ == permissions_of(views.take(i as int)),
            strs(langs@) == languages_of(views.take(i as int)),
    {
        assert(views.take(i + 1).drop_last() =~= views.take(i as int));
        assert(views.take(i + 1).last() == raw@[i as int]@);
        match admin_tag(raw[i].as_str()) {
            Some(t) => admin.push(t),
            None => {},
        }
        match permission(raw[i].as_str()) {
            Some(p) => perms.push(p),
            None => {},
        }
        let ghost before = strs(langs@);
        match strip_prefix_exec(raw[i].as_str(), "language_") {
            Some(code) => {
                langs.push(code);
                assert(strs(langs@) =~= before.push(langs@[langs@.len() - 1]@));
            },
            None => {},
        }
    }
    assert(views.take(n as int) =~= views);
    Tags {
        trust_rank: trust_rank(&raw),
        troll_state: troll_state(&raw),
        admin_tags: admin,
        supporter_state: supporter_state(&raw),
        permissions: perms,
        languages: langs,
        raw,
    }
}

// ---------------------------------------------------------------------------
// Reading user records
// ---------------------------------------------------------------------------
impl Content for Badges {
    open spec fn problem(v: JsonView) -> Option<Seq<char>> {
        record_problem(v, "Badges"@, either(err_of(text_member(v, "badgeId"@)), either(err_of(text_member(v, "badgeName"@)), either(err_of(text_member(v, "badgeDescription"@)), either(err_of(text_member(v, "badgeImageUrl"@)), either(err_of(text_member(v, "assignedAt"@)), either(err_of(text_member(v, "updatedAt"@)), either(err_of(flag_member(v, "hidden"@)), err_of(flag_member(v, "showcased"@))))))))))
    }

    open spec fn decoded(&self, v: JsonView) -> bool {
        &&& text_member(v, "badgeId"@) == Ok::<Seq<char>, Seq<char>>(self.badge_id@)
        &&& text_member(v, "badgeName"@) == Ok::<Seq<char>, Seq<char>>(self.badge_name@)
        &&& text_member(v, "badgeDescription"@) == Ok::<Seq<char>, Seq<char>>(self.badge_description@)
        &&& text_member(v, "badgeImageUrl"@) == Ok::<Seq<char>, Seq<char>>(self.badge_image_url@)
        &&& text_member(v, "assignedAt"@) == Ok::<Seq<char>, Seq<char>>(self.assigned_at@)
        &&& text_member(v, "updatedAt"@) == Ok::<Seq<char>, Seq<char>>(self.updated_at@)
        &&& flag_member(v, "hidden"@) == Ok::<bool, Seq<char>>(self.hidden)
        &&& flag_member(v, "showcased"@) == Ok::<bool, Seq<char>>(self.showcased)
    }

    fn from_json(v: &Json) -> (r: Result<Self, String>) {
        if !is_object(v) {
            return Err(not_struct_message("Badges"));
        }
        let badge_id = match read_text(v, "badgeId") {
            Ok(x) => x,
            Err(e) => return Err(e),
        };
        let badge_name = match read_text(v, "badgeName") {
            Ok(x) => x,
            Err(e) => return Err(e),
        };
        let badge_description = match read_text(v, "badgeDescription") {
            Ok(x) => x,
            Err(e) => return Err(e),
        };
        let badge_image_url = match read_text(v, "badgeImageUrl") {
            Ok(x) => x,
            Err(e) => return Err(e),
        };
        let assigned_at = match read_text(v, "assignedAt") {
            Ok(x) => x,
            Err(e) => return Err(e),
        };
        let updated_at = match read_text(v, "updatedAt") {
            Ok(x) => x,
            Err(e) => return Err(e),
        };
        let hidden = match read_flag(v, "hidden") {
            Ok(x) => x,
            Err(e) => return Err(e),
        };
        let showcased = match read_flag(v, "showcased") {
            Ok(x) => x,
            Err(e) => return Err(e),
        };
        Ok(Badges { badge_id, badge_name, badge_description, badge_image_url, assigned_at, updated_at, hidden, showcased })
    }
}

/// The badges of a record: every item of `badges` decoded, or none where any item
/// does not decode or `badges` is not an array.
pub open spec fn badges_decoded(xs: Seq<Badges>, v: JsonView) -> bool {
    match v.field("badges"@) {
        Some(JsonView::Array(items)) => if items_problem::<Badges>(items) is None {
            all_decoded(xs, items)
        } else {
            xs.len() == 0
        },
        _ => xs.len() == 0,
    }
}

/// The second factors a sign-in response asks for, where it names any.
pub open spec fn two_factor_of(v: JsonView) -> Option<Seq<Seq<char>>> {
    match string_array_of(v, "requiresTwoFactorAuth"@) {
        Some(l) => if l.len() > 0 {
            Some(l)
        } else {
            None
        },
        None => None,
    }
}

/// The platform of a flat record: `presence.platform`, else `last_platform`.
pub open spec fn platform_of(v: JsonView) -> Seq<char> {
    match v.field("presence"@) {
        Some(p) => match p.field_text("platform"@) {
            Some(s) => s,
            None => text_or_empty(v, "last_platform"@),
        },
        None => text_or_empty(v, "last_platform"@),
    }
}

/// The view of an optional list of strings.
pub open spec fn opt_strs(o: Option<Vec<String>>) -> Option<Seq<Seq<char>>> {
    match o {
        Some(l) => Some(strs(l@)),
        None => None,
    }
}

/// `u` is what the flat record `v` reads as: every member by its name, lenient about
/// absent and mistyped members.
pub open spec fn flat_user(u: User, v: JsonView) -> bool {
    &&& u.profile.bio@ == text_or_empty(v, "bio"@)
    &&& strs(u.profile.bio_links@) == match string_array_of(v, "bioLinks"@) {
        Some(l) => l,
        None => Seq::empty(),
    }
    &&& u.profile.pronouns@ == text_or_empty(v, "pronouns"@)
    &&& u.profile.user_icon@ == text_or_empty(v, "userIcon"@)
    &&& u.profile.profile_pic_override@ == text_or_empty(v, "profilePicOverride"@)
    &&& u.profile.profile_pic_override_thumbnail@ == text_or_empty(v, "profilePicOverrideThumbnail"@)
    &&& u.profile.current_avatar_image_url@ == text_or_empty(v, "currentAvatarImageUrl"@)
    &&& u.profile.current_avatar_thumbnail_image_url@ == text_or_empty(v, "currentAvatarThumbnailImageUrl"@)
    &&& u.identity.id@ == text_or_empty(v, "id"@)
    &&& u.identity.username@ == text_or_empty(v, "username"@)
    &&& u.identity.display_name@ == text_or_empty(v, "displayName"@)
    &&& u.identity.status.status == status_of(text_or_empty(v, "status"@))
    &&& u.identity.status.status_description@ == text_or_empty(v, "statusDescription"@)
    &&& u.metadata.date_joined@ == text_or_empty(v, "date_joined"@)
    &&& u.metadata.last_activity@ == text_or_empty(v, "last_activity"@)
    &&& u.metadata.last_login@ == text_or_empty(v, "last_login"@)
    &&& u.metadata.last_mobile@ == text_or_empty(v, "last_mobile"@)
    &&& u.presence.instance is None
    &&& u.presence.traveling_to_instance is None
    &&& u.presence.travels@.len() == 0
    &&& u.presence.platform@ == platform_of(v)
    &&& u.presence.last_platform@ == text_or_empty(v, "last_platform"@)
    &&& u.social.is_friend == flag_or_false(v, "isFriend"@)
    &&& u.social.friend_key@ == text_or_empty(v, "friendKey"@)
    &&& u.social.friend_request_status@ == text_or_empty(v, "friendRequestStatus"@)
    &&& u.social.mutuals@.len() == 0
    &&& u.social.groups@.len() == 0
    &&& u.social.note@ == text_or_empty(v, "note"@)
    &&& badges_decoded(u.badges@, v)
    &&& strs(u.tags.raw@) == match string_array_of(v, "tags"@) {
        Some(l) => l,
        None => Seq::empty(),
    }
    &&& u.tags.trust_rank == trust_rank_of(strs(u.tags.raw@))
    &&& u.tags.troll_state == troll_state_of(strs(u.tags.raw@))
    &&& u.tags.supporter_state == supporter_state_of(strs(u.tags.raw@))
    &&& u.tags.admin_tags@ == admin_tags_of(strs(u.tags.raw@))
    &&& u.tags.permissions@ == permissions_of(strs(u.tags.raw@))
    &&& strs(u.tags.languages@) == languages_of(strs(u.tags.raw@))
    &&& u.age_verified == flag_or_false(v, "ageVerified"@)
    &&& u.age_verification_status@ == text_or_empty(v, "ageVerificationStatus"@)
    &&& opt_strs(u.requires_two_factor_auth) == two_factor_of(v)
}

/// The badges of a record.
fn badges_from(value: &Json) -> (r: Vec<Badges>)
    ensures
        badges_decoded(r@, value@),
{
    match value.get("badges") {
        Some(x) => match x.as_array() {
            Some(items) => match decode_items::<Badges>(items) {
                Ok(list) => list,
                Err(_) => Vec::new(),
            },
            None => Vec::new(),
        },
        None => Vec::new(),
    }
}

/// The second factors a sign-in response asks for.
fn two_factor_methods_of(value: &Json) -> (r: Option<Vec<String>>)
    ensures
        opt_strs(r) == two_factor_of(value@),
{
    match string_array(value, "requiresTwoFactorAuth") {
        Some(l) => if l.len() > 0 {
            Some(l)
        } else {
            None
        },
        None => None,
    }
}

/// Reads a user from the API's flat record.
pub fn flat_user_from_json(value: &Json) -> (r: User)
    ensures
        flat_user(r, value@),
{
    let platform = match value.get("presence") {
        Some(p) => match p.get_str("platform") {
            Some(s) => s.clone(),
            None => text_or_empty_exec(value, "last_platform"),
        },
        None => text_or_empty_exec(value, "last_platform"),
    };
    let bio_links = match string_array(value, "bioLinks") {
        Some(l) => l,
        None => {
            let l: Vec<String> = Vec::new();
            assert(strs(l@) =~= Seq::<Seq<char>>::empty());
            l
        },
    };
    let raw_tags = match string_array(value, "tags") {
        Some(l) => l,
        None => {
            let l: Vec<String> = Vec::new();
            assert(strs(l@) =~= Seq::<Seq<char>>::empty());
            l
        },
    };
    let status_text = text_or_empty_exec(value, "status");
    User {
        profile: Profile {
            bio: text_or_empty_exec(value, "bio"),
            bio_links,
            pronouns: text_or_empty_exec(value, "pronouns"),
            user_icon: text_or_empty_exec(value, "userIcon"),
            profile_pic_override: text_or_empty_exec(value, "profilePicOverride"),
            profile_pic_override_thumbnail: text_or_empty_exec(value, "profilePicOverrideThumbnail"),
            current_avatar_image_url: text_or_empty_exec(value, "currentAvatarImageUrl"),
            current_avatar_thumbnail_image_url: text_or_empty_exec(value, "currentAvatarThumbnailImageUrl"),
        },
        identity: Identity {
            id: text_or_empty_exec(value, "id"),
            username: text_or_empty_exec(value, "username"),
            display_name: text_or_empty_exec(value, "displayName"),
            status: StatusInfo {
                status: user_status(status_text.as_str()),
                status_description: text_or_empty_exec(value, "statusDescription"),
            },
        },
        metadata: Metadata {
            date_joined: text_or_empty_exec(value, "date_joined"),
            last_activity: text_or_empty_exec(value, "last_activity"),
            last_login: text_or_empty_exec(value, "last_login"),
            last_mobile: text_or_empty_exec(value, "last_mobile"),
        },
        presence: Presence {
            instance: None,
            traveling_to_instance: None,
            travels: Vec::new(),
            platform,
            last_platform: text_or_empty_exec(value, "last_platform"),
        },
        social: Social {
            is_friend: flag_or_false_exec(value, "isFriend"),
            friend_key: text_or_empty_exec(value, "friendKey"),
            friend_request_status: text_or_empty_exec(value, "friendRequestStatus"),
            mutuals: Vec::new(),
            groups: Vec::new(),
            note: text_or_empty_exec(value, "note"),
        },
        badges: badges_from(value),
        tags: tags_from_raw(raw_tags),
        age_verified: flag_or_false_exec(value, "ageVerified"),
        age_verification_status: text_or_empty_exec(value, "ageVerificationStatus"),
        requires_two_factor_auth: two_factor_methods_of(value),
    }
}

// ---------------------------------------------------------------------------
// Reading nested user records
// ---------------------------------------------------------------------------
// A user record in nested form, as the client writes it: every member required,
// except `ageVerified` and `ageVerificationStatus` (false and empty where absent),
// the instance summaries (kept as their JSON; absent or null is none) and
// `requiresTwoFactorAuth` (absent or null is none). Enumerations are spelled in
// camel case. A nested user's `decoded` leaves `requires_two_factor_auth` to the
// caller, which takes it from the record's top level.
impl Content for UserStatus {
    open spec fn problem(v: JsonView) -> Option<Seq<char>> {
        match v {
            JsonView::Str(s) => if s == "active"@ || s == "joinMe"@ || s == "askMe"@ || s == "busy"@ || s == "offline"@ || s == "unknown"@ {
                None
            } else {
                Some(unknown_variant_msg(s))
            },
            _ => Some(not_enum_msg("UserStatus"@)),
        }
    }

    open spec fn decoded(&self, v: JsonView) -> bool {
        v == JsonView::Str(
            match self {
                UserStatus::Active => "active"@,
                UserStatus::JoinMe => "joinMe"@,
                UserStatus::AskMe => "askMe"@,
                UserStatus::Busy => "busy"@,
                UserStatus::Offline => "offline"@,
                UserStatus::Unknown => "unknown"@,
            },
        )
    }

    fn from_json(v: &Json) -> (r: Result<Self, String>) {
        match v {
            Json::Str(s) => {
                if str_eq(s.as_str(), "active") {
                    Ok(UserStatus::Active)
                } else if str_eq(s.as_str(), "joinMe") {
                    Ok(UserStatus::JoinMe)
                } else if str_eq(s.as_str(), "askMe") {
                    Ok(UserStatus::AskMe)
                } else if str_eq(s.as_str(), "busy") {
                    Ok(UserStatus::Busy)
                } else if str_eq(s.as_str(), "offline") {
                    Ok(UserStatus::Offline)
                } else if str_eq(s.as_str(), "unknown") {
                    Ok(UserStatus::Unknown)
                } else {
                    Err(unknown_variant_message(s.as_str()))
                }
            },
            _ => Err(not_enum_message("UserStatus")),
        }
    }
}

impl Content for TrustRank {
    open spec fn problem(v: JsonView) -> Option<Seq<char>> {
        match v {
            JsonView::Str(s) => if s == "visitor"@ || s == "newUser"@ || s == "user"@ || s == "knownUser"@ || s == "trustedUser"@ || s == "unknown"@ {
                None
            } else {
                Some(unknown_variant_msg(s))
            },
            _ => Some(not_enum_msg("TrustRank"@)),
        }
    }

    open spec fn decoded(&self, v: JsonView) -> bool {
        v == JsonView::Str(
            match self {
                TrustRank::Visitor => "visitor"@,
                TrustRank::NewUser => "newUser"@,
                TrustRank::User => "user"@,
                TrustRank::KnownUser => "knownUser"@,
                TrustRank::TrustedUser => "trustedUser"@,
                TrustRank::Unknown => "unknown"@,
            },
        )
    }

    fn from_json(v: &Json) -> (r: Result<Self, String>) {
        match v {
            Json::Str(s) => {
                if str_eq(s.as_str(), "visitor") {
                    Ok(TrustRank::Visitor)
                } else if str_eq(s.as_str(), "newUser") {
                    Ok(TrustRank::NewUser)
                } else if str_eq(s.as_str(), "user") {
                    Ok(TrustRank::User)
                } else if str_eq(s.as_str(), "knownUser") {
                    Ok(TrustRank::KnownUser)
                } else if str_eq(s.as_str(), "trustedUser") {
                    Ok(TrustRank::TrustedUser)
                } else if str_eq(s.as_str(), "unknown") {
                    Ok(TrustRank::Unknown)
                } else {
                    Err(unknown_variant_message(s.as_str()))
                }
            },
            _ => Err(not_enum_message("TrustRank")),
        }
    }
}

impl Content for TrollState {
    open spec fn problem(v: JsonView) -> Option<Seq<char>> {
        match v {
            JsonView::Str(s) => if s == "none"@ || s == "probable"@ || s == "confirmed"@ {
                None
            } else {
                Some(unknown_variant_msg(s))
            },
            _ => Some(not_enum_msg("TrollState"@)),
        }
    }

    open spec fn decoded(&self, v: JsonView) -> bool {
        v == JsonView::Str(
            match self {
                TrollState::NotFlagged => "none"@,
                TrollState::Probable => "probable"@,
                TrollState::Confirmed => "confirmed"@,
            },
        )
    }

    fn from_json(v: &Json) -> (r: Result<Self, String>) {
        match v {
            Json::Str(s) => {
                if str_eq(s.as_str(), "none") {
                    Ok(TrollState::NotFlagged)
                } else if str_eq(s.as_str(), "probable") {
                    Ok(TrollState::Probable)
                } else if str_eq(s.as_str(), "confirmed") {
                    Ok(TrollState::Confirmed)
                } else {
                    Err(unknown_variant_message(s.as_str()))
                }
            },
            _ => Err(not_enum_message("TrollState")),
        }
    }
}

impl Content for SupporterState {
    open spec fn problem(v: JsonView) -> Option<Seq<char>> {
        match v {
            JsonView::Str(s) => if s == "none"@ || s == "supporter"@ || s == "earlySupporter"@ {
                None
            } else {
                Some(unknown_variant_msg(s))
            },
            _ => Some(not_enum_msg("SupporterState"@)),
        }
    }

    open spec fn decoded(&self, v: JsonView) -> bool {
        v == JsonView::Str(
            match self {
                SupporterState::NotSupporter => "none"@,
                SupporterState::Supporter => "supporter"@,
                SupporterState::EarlySupporter => "earlySupporter"@,
            },
        )
    }

    fn from_json(v: &Json) -> (r: Result<Self, String>) {
        match v {
            Json::Str(s) => {
                if str_eq(s.as_str(), "none") {
                    Ok(SupporterState::NotSupporter)
                } else if str_eq(s.as_str(), "supporter") {
                    Ok(SupporterState::Supporter)
                } else if str_eq(s.as_str(), "earlySupporter") {
                    Ok(SupporterState::EarlySupporter)
                } else {
                    Err(unknown_variant_message(s.as_str()))
                }
            },
            _ => Err(not_enum_message("SupporterState")),
        }
    }
}

impl Content for AdminTags {
    open spec fn problem(v: JsonView) -> Option<Seq<char>> {
        match v {
            JsonView::Str(s) => if s == "isModerator"@ || s == "showModTag"@ || s == "hasAdminAvatarAccess"@ || s == "hasAdminWorldAccess"@ || s == "hasAdminCannyAccess"@ || s == "canGrantLicenses"@ || s == "lockLevel"@ || s == "lockTags"@ || s == "hasOfficialThumbnail"@ {
                None
            } else {
                Some(unknown_variant_msg(s))
            },
            _ => Some(not_enum_msg("AdminTags"@)),
        }
    }

    open spec fn decoded(&self, v: JsonView) -> bool {
        v == JsonView::Str(
            match self {
                AdminTags::IsModerator => "isModerator"@,
                AdminTags::ShowModTag => "showModTag"@,
                AdminTags::HasAdminAvatarAccess => "hasAdminAvatarAccess"@,
                AdminTags::HasAdminWorldAccess => "hasAdminWorldAccess"@,
                AdminTags::HasAdminCannyAccess => "hasAdminCannyAccess"@,
                AdminTags::CanGrantLicenses => "canGrantLicenses"@,
                AdminTags::LockLevel => "lockLevel"@,
                AdminTags::LockTags => "lockTags"@,
                AdminTags::HasOfficialThumbnail => "hasOfficialThumbnail"@,
            },
        )
    }

    fn from_json(v: &Json) -> (r: Result<Self, String>) {
        match v {
            Json::Str(s) => {
                if str_eq(s.as_str(), "isModerator") {
                    Ok(AdminTags::IsModerator)
                } else if str_eq(s.as_str(), "showModTag") {
                    Ok(AdminTags::ShowModTag)
                } else if str_eq(s.as_str(), "hasAdminAvatarAccess") {
                    Ok(AdminTags::HasAdminAvatarAccess)
                } else if str_eq(s.as_str(), "hasAdminWorldAccess") {
                    Ok(AdminTags::HasAdminWorldAccess)
                } else if str_eq(s.as_str(), "hasAdminCannyAccess") {
                    Ok(AdminTags::HasAdminCannyAccess)
                } else if str_eq(s.as_str(), "canGrantLicenses") {
                    Ok(AdminTags::CanGrantLicenses)
                } else if str_eq(s.as_str(), "lockLevel") {
                    Ok(AdminTags::LockLevel)
                } else if str_eq(s.as_str(), "lockTags") {
                    Ok(AdminTags::LockTags)
                } else if str_eq(s.as_str(), "hasOfficialThumbnail") {
                    Ok(AdminTags::HasOfficialThumbnail)
                } else {
                    Err(unknown_variant_message(s.as_str()))
                }
            },
            _ => Err(not_enum_message("AdminTags")),
        }
    }
}

impl Content for Permissions {
    open spec fn problem(v: JsonView) -> Option<Seq<char>> {
        match v {
            JsonView::Str(s) => if s == "hasWorldAccess"@ || s == "hasAvatarAccess"@ || s == "hasFeedbackAccess"@ {
                None
            } else {
                Some(unknown_variant_msg(s))
            },
            _ => Some(not_enum_msg("Permissions"@)),
        }
    }

    open spec fn decoded(&self, v: JsonView) -> bool {
        v == JsonView::Str(
            match self {
                Permissions::HasWorldAccess => "hasWorldAccess"@,
                Permissions::HasAvatarAccess => "hasAvatarAccess"@,
                Permissions::HasFeedbackAccess => "hasFeedbackAccess"@,
            },
        )
    }

    fn from_json(v: &Json) -> (r: Result<Self, String>) {
        match v {
            Json::Str(s) => {
                if str_eq(s.as_str(), "hasWorldAccess") {
                    Ok(Permissions::HasWorldAccess)
                } else if str_eq(s.as_str(), "hasAvatarAccess") {
                    Ok(Permissions::HasAvatarAccess)
                } else if str_eq(s.as_str(), "hasFeedbackAccess") {
                    Ok(Permissions::HasFeedbackAccess)
                } else {
                    Err(unknown_variant_message(s.as_str()))
                }
            },
            _ => Err(not_enum_message("Permissions")),
        }
    }
}

impl Content for Traveling {
    open spec fn problem(v: JsonView) -> Option<Seq<char>> {
        match v {
            JsonView::Str(s) => if s == "none"@ || s == "offline"@ || s == "traveling"@ || s == "private"@ {
                None
            } else {
                Some(unknown_variant_msg(s))
            },
            _ => Some(not_enum_msg("Traveling"@)),
        }
    }

    open spec fn decoded(&self, v: JsonView) -> bool {
        v == JsonView::Str(
            match self {
                Traveling::Idle => "none"@,
                Traveling::Offline => "offline"@,
                Traveling::Traveling => "traveling"@,
                Traveling::Private => "private"@,
            },
        )
    }

    fn from_json(v: &Json) -> (r: Result<Self, String>) {
        match v {
            Json::Str(s) => {
                if str_eq(s.as_str(), "none") {
                    Ok(Traveling::Idle)
                } else if str_eq(s.as_str(), "offline") {
                    Ok(Traveling::Offline)
                } else if str_eq(s.as_str(), "traveling") {
                    Ok(Traveling::Traveling)
                } else if str_eq(s.as_str(), "private") {
                    Ok(Traveling::Private)
                } else {
                    Err(unknown_variant_message(s.as_str()))
                }
            },
            _ => Err(not_enum_message("Traveling")),
        }
    }
}

impl Content for Profile {
    open spec fn problem(v: JsonView) -> Option<Seq<char>> {
        record_problem(v, "Profile"@, either(err_of(text_member(v, "bio"@)), either(err_of(text_list_member(v, "bioLinks"@)), either(err_of(text_member(v, "pronouns"@)), either(err_of(text_member(v, "userIcon"@)), either(err_of(text_member(v, "profilePicOverride"@)), either(err_of(text_member(v, "profilePicOverrideThumbnail"@)), either(err_of(text_member(v, "currentAvatarImageUrl"@)), err_of(text_member(v, "currentAvatarThumbnailImageUrl"@))))))))))
    }

    open spec fn decoded(&self, v: JsonView) -> bool {
        &&& text_member(v, "bio"@) == Ok::<Seq<char>, Seq<char>>(self.bio@)
        &&& text_list_member(v, "bioLinks"@) == Ok::<Seq<Seq<char>>, Seq<char>>(strs(self.bio_links@))
        &&& text_member(v, "pronouns"@) == Ok::<Seq<char>, Seq<char>>(self.pronouns@)
        &&& text_member(v, "userIcon"@) == Ok::<Seq<char>, Seq<char>>(self.user_icon@)
        &&& text_member(v, "profilePicOverride"@) == Ok::<Seq<char>, Seq<char>>(self.profile_pic_override@)
        &&& text_member(v, "profilePicOverrideThumbnail"@) == Ok::<Seq<char>, Seq<char>>(self.profile_pic_override_thumbnail@)
        &&& text_member(v, "currentAvatarImageUrl"@) == Ok::<Seq<char>, Seq<char>>(self.current_avatar_image_url@)
        &&& text_member(v, "currentAvatarThumbnailImageUrl"@) == Ok::<Seq<char>, Seq<char>>(self.current_avatar_thumbnail_image_url@)
    }

    fn from_json(v: &Json) -> (r: Result<Self, String>) {
        if !is_object(v) {
            return Err(not_struct_message("Profile"));
        }
        let bio = match read_text(v, "bio") {
            Ok(x) => x,
            Err(e) => return Err(e),
        };
        let bio_links = match read_text_list(v, "bioLinks") {
            Ok(x) => x,
            Err(e) => return Err(e),
        };
        let pronouns = match read_text(v, "pronouns") {
            Ok(x) => x,
            Err(e) => return Err(e),
        };
        let user_icon = match read_text(v, "userIcon") {
            Ok(x) => x,
            Err(e) => return Err(e),
        };
        let profile_pic_override = match read_text(v, "profilePicOverride") {
            Ok(x) => x,
            Err(e) => return Err(e),
        };
        let profile_pic_override_thumbnail = match read_text(v, "profilePicOverrideThumbnail") {
            Ok(x) => x,
            Err(e) => return Err(e),
        };
        let current_avatar_image_url = match read_text(v, "currentAvatarImageUrl") {
            Ok(x) => x,
            Err(e) => return Err(e),
        };
        let current_avatar_thumbnail_image_url = match read_text(v, "currentAvatarThumbnailImageUrl") {
            Ok(x) => x,
            Err(e) => return Err(e),
        };
        Ok(Profile { bio, bio_links, pronouns, user_icon, profile_pic_override, profile_pic_override_thumbnail, current_avatar_image_url, current_avatar_thumbnail_image_url })
    }
}

impl Content for Metadata {
    open spec fn problem(v: JsonView) -> Option<Seq<char>> {
        record_problem(v, "Metadata"@, either(err_of(text_member(v, "dateJoined"@)), either(err_of(text_member(v, "lastActivity"@)), either(err_of(text_member(v, "lastLogin"@)), err_of(text_member(v, "lastMobile"@))))))
    }

    open spec fn decoded(&self, v: JsonView) -> bool {
        &&& text_member(v, "dateJoined"@) == Ok::<Seq<char>, Seq<char>>(self.date_joined@)
        &&& text_member(v, "lastActivity"@) == Ok::<Seq<char>, Seq<char>>(self.last_activity@)
        &&& text_member(v, "lastLogin"@) == Ok::<Seq<char>, Seq<char>>(self.last_login@)
        &&& text_member(v, "lastMobile"@) == Ok::<Seq<char>, Seq<char>>(self.last_mobile@)
    }

    fn from_json(v: &Json) -> (r: Result<Self, String>) {
        if !is_object(v) {
            return Err(not_struct_message("Metadata"));
        }
        let date_joined = match read_text(v, "dateJoined") {
            Ok(x) => x,
            Err(e) => return Err(e),
        };
        let last_activity = match read_text(v, "lastActivity") {
            Ok(x) => x,
            Err(e) => return Err(e),
        };
        let last_login = match read_text(v, "lastLogin") {
            Ok(x) => x,
            Err(e) => return Err(e),
        };
        let last_mobile = match read_text(v, "lastMobile") {
            Ok(x) => x,
            Err(e) => return Err(e),
        };
        Ok(Metadata { date_joined, last_activity, last_login, last_mobile })
    }
}

impl Content for StatusInfo {
    open spec fn problem(v: JsonView) -> Option<Seq<char>> {
        record_problem(v, "StatusInfo"@, either(nested_problem::<UserStatus>(v, "status"@), err_of(text_member(v, "statusDescription"@))))
    }

    open spec fn decoded(&self, v: JsonView) -> bool {
        &&& nested_decoded(self.status, v, "status"@)
        &&& text_member(v, "statusDescription"@) == Ok::<Seq<char>, Seq<char>>(self.status_description@)
    }

    fn from_json(v: &Json) -> (r: Result<Self, String>) {
        if !is_object(v) {
            return Err(not_struct_message("StatusInfo"));
        }
        let status = match read_nested::<UserStatus>(v, "status") {
            Ok(x) => x,
            Err(e) => return Err(e),
        };
        let status_description = match read_text(v, "statusDescription") {
            Ok(x) => x,
            Err(e) => return Err(e),
        };
        Ok(StatusInfo { status, status_description })
    }
}

impl Content for Identity {
    open spec fn problem(v: JsonView) -> Option<Seq<char>> {
        record_problem(v, "Identity"@, either(err_of(text_member(v, "id"@)), either(err_of(text_member(v, "username"@)), either(err_of(text_member(v, "displayName"@)), nested_problem::<StatusInfo>(v, "status"@)))))
    }

    open spec fn decoded(&self, v: JsonView) -> bool {
        &&& text_member(v, "id"@) == Ok::<Seq<char>, Seq<char>>(self.id@)
        &&& text_member(v, "username"@) == Ok::<Seq<char>, Seq<char>>(self.username@)
        &&& text_member(v, "displayName"@) == Ok::<Seq<char>, Seq<char>>(self.display_name@)
        &&& nested_decoded(self.status, v, "status"@)
    }

    fn from_json(v: &Json) -> (r: Result<Self, String>) {
        if !is_object(v) {
            return Err(not_struct_message("Identity"));
        }
        let id = match read_text(v, "id") {
            Ok(x) => x,
            Err(e) => return Err(e),
        };
        let username = match read_text(v, "username") {
            Ok(x) => x,
            Err(e) => return Err(e),
        };
        let display_name = match read_text(v, "displayName") {
            Ok(x) => x,
            Err(e) => return Err(e),
        };
        let status = match read_nested::<StatusInfo>(v, "status") {
            Ok(x) => x,
            Err(e) => return Err(e),
        };
        Ok(Identity { id, username, display_name, status })
    }
}

impl Content for Presence {
    open spec fn problem(v: JsonView) -> Option<Seq<char>> {
        record_problem(v, "Presence"@, either(list_problem::<Traveling>(v, "travels"@), either(err_of(text_member(v, "platform"@)), err_of(text_member(v, "lastPlatform"@)))))
    }

    open spec fn decoded(&self, v: JsonView) -> bool {
        &&& opt_any_member(v, "instance"@) == opt_json(self.instance)
        &&& opt_any_member(v, "travelingToInstance"@) == opt_json(self.traveling_to_instance)
        &&& list_decoded(self.travels@, v, "travels"@)
        &&& text_member(v, "platform"@) == Ok::<Seq<char>, Seq<char>>(self.platform@)
        &&& text_member(v, "lastPlatform"@) == Ok::<Seq<char>, Seq<char>>(self.last_platform@)
    }

    fn from_json(v: &Json) -> (r: Result<Self, String>) {
        if !is_object(v) {
            return Err(not_struct_message("Presence"));
        }
        let instance = read_opt_any(v, "instance");
        let traveling_to_instance = read_opt_any(v, "travelingToInstance");
        let travels = match read_list::<Traveling>(v, "travels") {
            Ok(x) => x,
            Err(e) => return Err(e),
        };
        let platform = match read_text(v, "platform") {
            Ok(x) => x,
            Err(e) => return Err(e),
        };
        let last_platform = match read_text(v, "lastPlatform") {
            Ok(x) => x,
            Err(e) => return Err(e),
        };
        Ok(Presence { instance, traveling_to_instance, travels, platform, last_platform })
    }
}

impl Content for Social {
    open spec fn problem(v: JsonView) -> Option<Seq<char>> {
        record_problem(v, "Social"@, either(err_of(flag_member(v, "isFriend"@)), either(err_of(text_member(v, "friendKey"@)), either(err_of(text_member(v, "friendRequestStatus"@)), either(list_problem::<Identity>(v, "mutuals"@), either(err_of(any_list_member(v, "groups"@)), err_of(text_member(v, "note"@))))))))
    }

    open spec fn decoded(&self, v: JsonView) -> bool {
        &&& flag_member(v, "isFriend"@) == Ok::<bool, Seq<char>>(self.is_friend)
        &&& text_member(v, "friendKey"@) == Ok::<Seq<char>, Seq<char>>(self.friend_key@)
        &&& text_member(v, "friendRequestStatus"@) == Ok::<Seq<char>, Seq<char>>(self.friend_request_status@)
        &&& list_decoded(self.mutuals@, v, "mutuals"@)
        &&& any_list_member(v, "groups"@) == Ok::<Seq<JsonView>, Seq<char>>(self.groups@.map_values(|x: Json| x@))
        &&& text_member(v, "note"@) == Ok::<Seq<char>, Seq<char>>(self.note@)
    }

    fn from_json(v: &Json) -> (r: Result<Self, String>) {
        if !is_object(v) {
            return Err(not_struct_message("Social"));
        }
        let is_friend = match read_flag(v, "isFriend") {
            Ok(x) => x,
            Err(e) => return Err(e),
        };
        let friend_key = match read_text(v, "friendKey") {
            Ok(x) => x,
            Err(e) => return Err(e),
        };
        let friend_request_status = match read_text(v, "friendRequestStatus") {
            Ok(x) => x,
            Err(e) => return Err(e),
        };
        let mutuals = match read_list::<Identity>(v, "mutuals") {
            Ok(x) => x,
            Err(e) => return Err(e),
        };
        let groups = match read_any_list(v, "groups") {
            Ok(x) => x,
            Err(e) => return Err(e),
        };
        let note = match read_text(v, "note") {
            Ok(x) => x,
            Err(e) => return Err(e),
        };
        Ok(Social { is_friend, friend_key, friend_request_status, mutuals, groups, note })
    }
}

impl Content for Tags {
    open spec fn problem(v: JsonView) -> Option<Seq<char>> {
        record_problem(v, "Tags"@, either(nested_problem::<TrustRank>(v, "trustRank"@), either(nested_problem::<TrollState>(v, "trollState"@), either(list_problem::<AdminTags>(v, "adminTags"@), either(nested_problem::<SupporterState>(v, "supporterState"@), either(list_problem::<Permissions>(v, "permissions"@), either(err_of(text_list_member(v, "languages"@)), err_of(text_list_member(v, "raw"@)))))))))
    }

    open spec fn decoded(&self, v: JsonView) -> bool {
        &&& nested_decoded(self.trust_rank, v, "trustRank"@)
        &&& nested_decoded(self.troll_state, v, "trollState"@)
        &&& list_decoded(self.admin_tags@, v, "adminTags"@)
        &&& nested_decoded(self.supporter_state, v, "supporterState"@)
        &&& list_decoded(self.permissions@, v, "permissions"@)
        &&& text_list_member(v, "languages"@) == Ok::<Seq<Seq<char>>, Seq<char>>(strs(self.languages@))
        &&& text_list_member(v, "raw"@) == Ok::<Seq<Seq<char>>, Seq<char>>(strs(self.raw@))
    }

    fn from_json(v: &Json) -> (r: Result<Self, String>) {
        if !is_object(v) {
            return Err(not_struct_message("Tags"));
        }
        let trust_rank = match read_nested::<TrustRank>(v, "trustRank") {
            Ok(x) => x,
            Err(e) => return Err(e),
        };
        let troll_state = match read_nested::<TrollState>(v, "trollState") {
            Ok(x) => x,
            Err(e) => return Err(e),
        };
        let admin_tags = match read_list::<AdminTags>(v, "adminTags") {
            Ok(x) => x,
            Err(e) => return Err(e),
        };
        let supporter_state = match read_nested::<SupporterState>(v, "supporterState") {
            Ok(x) => x,
            Err(e) => return Err(e),
        };
        let permissions = match read_list::<Permissions>(v, "permissions") {
            Ok(x) => x,
            Err(e) => return Err(e),
        };
        let languages = match read_text_list(v, "languages") {
            Ok(x) => x,
            Err(e) => return Err(e),
        };
        let raw = match read_text_list(v, "raw") {
            Ok(x) => x,
            Err(e) => return Err(e),
        };
        Ok(Tags { trust_rank, troll_state, admin_tags, supporter_state, permissions, languages, raw })
    }
}

impl Content for User {
    open spec fn problem(v: JsonView) -> Option<Seq<char>> {
        record_problem(v, "LegacyUser"@, either(nested_problem::<Profile>(v, "profile"@), either(nested_problem::<Identity>(v, "identity"@), either(nested_problem::<Metadata>(v, "metadata"@), either(nested_problem::<Presence>(v, "presence"@), either(nested_problem::<Social>(v, "social"@), either(list_problem::<Badges>(v, "badges"@), either(nested_problem::<Tags>(v, "tags"@), either(err_of(default_flag_member(v, "ageVerified"@)), either(err_of(default_text_member(v, "ageVerificationStatus"@)), err_of(opt_text_list_member(v, "requiresTwoFactorAuth"@))))))))))))
    }

    open spec fn decoded(&self, v: JsonView) -> bool {
        &&& nested_decoded(self.profile, v, "profile"@)
        &&& nested_decoded(self.identity, v, "identity"@)
        &&& nested_decoded(self.metadata, v, "metadata"@)
        &&& nested_decoded(self.presence, v, "presence"@)
        &&& nested_decoded(self.social, v, "social"@)
        &&& list_decoded(self.badges@, v, "badges"@)
        &&& nested_decoded(self.tags, v, "tags"@)
        &&& default_flag_member(v, "ageVerified"@) == Ok::<bool, Seq<char>>(self.age_verified)
        &&& default_text_member(v, "ageVerificationStatus"@) == Ok::<Seq<char>, Seq<char>>(self.age_verification_status@)
    }

    fn from_json(v: &Json) -> (r: Result<Self, String>) {
        if !is_object(v) {
            return Err(not_struct_message("LegacyUser"));
        }
        let profile = match read_nested::<Profile>(v, "profile") {
            Ok(x) => x,
            Err(e) => return Err(e),
        };
        let identity = match read_nested::<Identity>(v, "identity") {
            Ok(x) => x,
            Err(e) => return Err(e),
        };
        let metadata = match read_nested::<Metadata>(v, "metadata") {
            Ok(x) => x,
            Err(e) => return Err(e),
        };
        let presence = match read_nested::<Presence>(v, "presence") {
            Ok(x) => x,
            Err(e) => return Err(e),
        };
        let social = match read_nested::<Social>(v, "social") {
            Ok(x) => x,
            Err(e) => return Err(e),
        };
        let badges = match read_list::<Badges>(v, "badges") {
            Ok(x) => x,
            Err(e) => return Err(e),
        };
        let tags = match read_nested::<Tags>(v, "tags") {
            Ok(x) => x,
            Err(e) => return Err(e),
        };
        let age_verified = match read_default_flag(v, "ageVerified") {
            Ok(x) => x,
            Err(e) => return Err(e),
        };
        let age_verification_status = match read_default_text(v, "ageVerificationStatus") {
            Ok(x) => x,
            Err(e) => return Err(e),
        };
        let requires_two_factor_auth = match read_opt_text_list(v, "requiresTwoFactorAuth") {
            Ok(x) => x,
            Err(e) => return Err(e),
        };
        Ok(User { profile, identity, metadata, presence, social, badges, tags, age_verified, age_verification_status, requires_two_factor_auth })
    }
}

/// Reads a user record: the nested form where the record has an `identity` member,
/// else the API's flat form. Second factors are read from the top level, and an
/// empty list of them counts as none.
pub fn user_from_json(value: &Json) -> (r: Result<User, String>)
    ensures
        value@.field("identity"@) is Some ==> match r {
            Ok(u) => User::problem(value@) is None && u.decoded(value@) && opt_strs(u.requires_two_factor_auth)
                == two_factor_of(value@),
            Err(e) => User::problem(value@) == Some(e@),
        },
        value@.field("identity"@) is None ==> (r matches Ok(u) && flat_user(u, value@)),
{
    if value.get("identity").is_some() {
        match User::from_json(value) {
            Ok(u) => {
                let mut u = u;
                u.requires_two_factor_auth = two_factor_methods_of(value);
                Ok(u)
            },
            Err(e) => Err(e),
        }
    } else {
        Ok(flat_user_from_json(value))
    }
}

} // verus!
