//! The result cards of the resource pages and the detail rows of a record.
use vstd::prelude::*;
use crate::decode::opt_str;
use crate::json::{lookup, Json, JsonEntry, JsonView, entries_view, lemma_entries_view};
use crate::store::state::{FriendPresence, PresenceView};
use crate::table::Table;
use crate::text::{copy_string, is_blank, is_blank_str, owned, str_eq, strs};
use crate::ui::fields::{
    field_display, first_found, first_text, json_field, path_field, path_list, string_field,
};
use crate::ui::friends::{friend_secondary_text, secondary_text};
use crate::ui::pages::Page;
use crate::ui::resources::{
    badges_of, content_platforms, platforms_of, record_trust_rank, resource_badges,
    resource_is_round, resource_trust_rank, round_thumbnail, ContentPlatform,
};

verus! {

/// A card in a list of results.
#[derive(Debug, Clone, PartialEq)]
pub struct ResultItem {
    pub id: String,
    pub title: String,
    pub subtitle: String,
    pub thumbnail_url: Option<String>,
    pub round_thumbnail: bool,
    pub platforms: Vec<ContentPlatform>,
    pub badges: Vec<String>,
    pub trust_rank: Option<String>,
    pub favorite_id: Option<String>,
    pub raw: Json,
}

/// `value` where it is not blank.
pub open spec fn unless_blank(value: Seq<char>) -> Option<Seq<char>> {
    if is_blank(value) {
        None
    } else {
        Some(value)
    }
}

/// `value` where it is not blank.
pub fn non_empty(value: String) -> (r: Option<String>)
    ensures
        opt_str(r) == unless_blank(value@),
{
    if is_blank_str(value.as_str()) {
        None
    } else {
        Some(value)
    }
}

/// The string at the first path that holds one, or the empty string.
pub open spec fn text_at(v: JsonView, paths: Seq<Seq<char>>) -> Seq<char> {
    match first_text(v, paths) {
        Some(s) => s,
        None => Seq::empty(),
    }
}

pub open spec fn id_paths() -> Seq<Seq<char>> {
    seq!["id"@, "identifier.id"@, "user.id"@]
}

pub open spec fn title_paths() -> Seq<Seq<char>> {
    seq!["displayName"@, "name"@, "title"@, "identifier.name"@, "profile.name"@]
}

pub open spec fn subtitle_paths() -> Seq<Seq<char>> {
    seq!["description"@, "statusDescription"@, "authorName"@, "itemTypeLabel"@]
}

pub open spec fn thumbnail_paths() -> Seq<Seq<char>> {
    seq![
        "userIcon"@,
        "profilePicOverrideThumbnail"@,
        "currentAvatarThumbnailImageUrl"@,
        "currentAvatarImageUrl"@,
        "profile.userIcon"@,
        "profile.profilePicOverrideThumbnail"@,
        "profile.currentAvatarThumbnailImageUrl"@,
        "profile.currentAvatarImageUrl"@,
        "thumbnailImageUrl"@,
        "iconUrl"@,
        "bannerUrl"@,
        "imageUrl"@,
        "media.thumbnailImageUrl"@,
        "media.images.thumbnailImageUrl"@,
    ]
}

/// The members a card keeps of its record, in this order.
pub open spec fn compact_keys() -> Seq<Seq<char>> {
    seq![
        "id"@,
        "displayName"@,
        "name"@,
        "title"@,
        "description"@,
        "status"@,
        "statusDescription"@,
        "authorName"@,
        "itemTypeLabel"@,
        "membershipStatus"@,
        "releaseStatus"@,
        "isFriend"@,
        "isVerified"@,
        "ageVerified"@,
        "ageVerificationStatus"@,
        "travelingToLocation"@,
        "location"@,
        "last_platform"@,
        "performance"@,
        "tags"@,
        "_favoriteId"@,
        "_favoriteType"@,
        "_favoriteTags"@,
        "members"@,
        "identifier"@,
        "identity"@,
        "profile"@,
        "presence"@,
        "social"@,
        "capacity"@,
        "stats"@,
        "publication"@,
        "publications"@,
        "metadata"@,
    ]
}

/// The members of `es` named by `keys`, in the order of `keys`.
pub open spec fn kept_members(es: Seq<(Seq<char>, JsonView)>, keys: Seq<Seq<char>>) -> Seq<(Seq<char>, JsonView)>
    decreases keys.len(),
{
    if keys.len() == 0 {
        Seq::empty()
    } else {
        let rest = kept_members(es, keys.drop_last());
        match lookup(es, keys.last()) {
            Some(x) => rest.push((keys.last(), x)),
            None => rest,
        }
    }
}

/// The record a card keeps: an object cut down to the members it shows; anything else
/// whole.
pub open spec fn compact_record(v: JsonView) -> JsonView {
    match v {
        JsonView::Object(es) => JsonView::Object(kept_members(es, compact_keys())),
        _ => v,
    }
}

/// Copies of the members of `value` named by `keys`, in the order of `keys`.
fn keep_members(value: &Json, keys: &[&str]) -> (r: Vec<JsonEntry>)
    requires
        value@ is Object,
    ensures
        entries_view(r@) == kept_members(value@->Object_0, path_list(keys@)),
{
    let ghost all = path_list(keys@);
    let ghost es = value@->Object_0;
    let mut out: Vec<JsonEntry> = Vec::new();
    let n = keys.len();
    assert(all.take(0) =~= Seq::<Seq<char>>::empty());
    proof {
        lemma_entries_view(out@);
    }
    for i in 0..n
        invariant
            n == keys@.len(),
            all == path_list(keys@),
            value@ is Object,
            es == value@->Object_0,
            entries_view(out@) == kept_members(es, all.take(i as int)),
    {
        assert(all.take(i + 1).drop_last() =~= all.take(i as int));
        assert(all.take(i + 1).last() == keys@[i as int]@);
        match value.get(keys[i]) {
            Some(x) => {
                let ghost before = out@;
                out.push(JsonEntry { key: owned(keys[i]), value: x.copy() });
                proof {
                    lemma_entries_view(before);
                    lemma_entries_view(out@);
                    assert(entries_view(out@) =~= entries_view(before).push((keys@[i as int]@, x@)));
                }
            },
            None => {},
        }
    }
    assert(all.take(n as int) =~= all);
    out
}

/// The record a card keeps.
pub fn compact_result_raw(raw: &Json) -> (r: Json)
    ensures
        r@ == compact_record(raw@),
{
    match raw {
        Json::Object(_) => {
            let keep = [
                "id",
                "displayName",
                "name",
                "title",
                "description",
                "status",
                "statusDescription",
                "authorName",
                "itemTypeLabel",
                "membershipStatus",
                "releaseStatus",
                "isFriend",
                "isVerified",
                "ageVerified",
                "ageVerificationStatus",
                "travelingToLocation",
                "location",
                "last_platform",
                "performance",
                "tags",
                "_favoriteId",
                "_favoriteType",
                "_favoriteTags",
                "members",
                "identifier",
                "identity",
                "profile",
                "presence",
                "social",
                "capacity",
                "stats",
                "publication",
                "publications",
                "metadata",
            ];
            assert(path_list(keep@) =~= compact_keys());
            Json::Object(keep_members(raw, &keep))
        },
        _ => raw.copy(),
    }
}

/// The card of a record.
pub fn result_item(raw: Json) -> (r: ResultItem)
    ensures
        r.id@ == text_at(raw@, id_paths()),
        r.title@ == if text_at(raw@, title_paths()).len() == 0 {
            "Untitled"@
        } else {
            text_at(raw@, title_paths())
        },
        r.subtitle@ == text_at(raw@, subtitle_paths()),
        opt_str(r.thumbnail_url) == unless_blank(text_at(raw@, thumbnail_paths())),
        r.round_thumbnail == round_thumbnail(raw@),
        r.platforms@ == platforms_of(raw@),
        strs(r.badges@) == badges_of(raw@),
        opt_str(r.trust_rank) == record_trust_rank(raw@),
        opt_str(r.favorite_id) == unless_blank(text_at(raw@, seq!["_favoriteId"@])),
        r.raw@ == compact_record(raw@),
{
    let id_keys = ["id", "identifier.id", "user.id"];
    assert(path_list(id_keys@) =~= id_paths());
    let id = string_field(&raw, &id_keys);
    let title_keys = ["displayName", "name", "title", "identifier.name", "profile.name"];
    assert(path_list(title_keys@) =~= title_paths());
    let title = string_field(&raw, &title_keys);
    let subtitle_keys = ["description", "statusDescription", "authorName", "itemTypeLabel"];
    assert(path_list(subtitle_keys@) =~= subtitle_paths());
    let subtitle = string_field(&raw, &subtitle_keys);
    let thumbnail_keys = [
        "userIcon",
        "profilePicOverrideThumbnail",
        "currentAvatarThumbnailImageUrl",
        "currentAvatarImageUrl",
        "profile.userIcon",
        "profile.profilePicOverrideThumbnail",
        "profile.currentAvatarThumbnailImageUrl",
        "profile.currentAvatarImageUrl",
        "thumbnailImageUrl",
        "iconUrl",
        "bannerUrl",
        "imageUrl",
        "media.thumbnailImageUrl",
        "media.images.thumbnailImageUrl",
    ];
    assert(path_list(thumbnail_keys@) =~= thumbnail_paths());
    let thumbnail_url = non_empty(string_field(&raw, &thumbnail_keys));
    let favorite_text = crate::ui::fields::path_string(&raw, "_favoriteId");
    let favorite = match favorite_text {
        Some(s) => s,
        None => String::new(),
    };
    let favorite_id = non_empty(favorite);
    let round_thumbnail = resource_is_round(&raw);
    let platforms = content_platforms(&raw);
    let badges = resource_badges(&raw);
    let trust_rank = resource_trust_rank(&raw);
    let compact = compact_result_raw(&raw);
    proof {
        reveal_strlit("");
    }
    let title = if str_eq(title.as_str(), "") {
        owned("Untitled")
    } else {
        title
    };
    assert(text_at(raw@, title_paths()).len() == 0 <==> text_at(raw@, title_paths()) =~= ""@);
    ResultItem {
        id,
        title,
        subtitle,
        thumbnail_url,
        round_thumbnail,
        platforms,
        badges,
        trust_rank,
        favorite_id,
        raw: compact,
    }
}

/// A JSON string, or `null` where there is none.
pub open spec fn text_or_null(o: Option<Seq<char>>) -> JsonView {
    match o {
        Some(s) => JsonView::Str(s),
        None => JsonView::Null,
    }
}

pub(crate) fn json_text_or_null(o: &Option<String>) -> (r: Json)
    ensures
        r@ == text_or_null(opt_str(*o)),
{
    match o {
        Some(s) => Json::Str(s.clone()),
        None => Json::Null,
    }
}

/// The record behind a friend's card.
pub open spec fn friend_record(p: PresenceView) -> JsonView {
    JsonView::Object(
        seq![
            ("id"@, JsonView::Str(p.user_id)),
            ("displayName"@, text_or_null(p.display_name)),
            ("status"@, text_or_null(p.status)),
            ("statusDescription"@, text_or_null(p.status_description)),
            ("isFriend"@, JsonView::Bool(true)),
            ("location"@, text_or_null(p.location)),
            ("travelingToLocation"@, text_or_null(p.traveling_to_location)),
            ("trustRank"@, text_or_null(p.trust_rank)),
        ],
    )
}

fn entry(key: &str, value: Json) -> (r: JsonEntry)
    ensures
        r.key@ == key@,
        r.value@ == value@,
{
    JsonEntry { key: owned(key), value }
}

/// The card of a friend.
pub fn friend_result_item(friend: &FriendPresence) -> (r: ResultItem)
    ensures
        r.id@ == friend@.user_id,
        r.title@ == match friend@.display_name {
            Some(n) => n,
            None => friend@.user_id,
        },
        r.subtitle@ == match secondary_text(friend@, Map::empty()) {
            Some(s) => s,
            None => "Offline"@,
        },
        opt_str(r.thumbnail_url) == friend@.avatar_url,
        r.round_thumbnail,
        r.platforms@.len() == 0,
        strs(r.badges@) == badges_of(friend_record(friend@)),
        opt_str(r.trust_rank) == friend@.trust_rank,
        r.favorite_id is None,
        r.raw@ == friend_record(friend@),
{
    let mut members: Vec<JsonEntry> = Vec::new();
    members.push(entry("id", Json::Str(friend.user_id.clone())));
    members.push(entry("displayName", json_text_or_null(&friend.display_name)));
    members.push(entry("status", json_text_or_null(&friend.status)));
    members.push(entry("statusDescription", json_text_or_null(&friend.status_description)));
    members.push(entry("isFriend", Json::Bool(true)));
    members.push(entry("location", json_text_or_null(&friend.location)));
    members.push(entry("travelingToLocation", json_text_or_null(&friend.traveling_to_location)));
    members.push(entry("trustRank", json_text_or_null(&friend.trust_rank)));
    proof {
        lemma_entries_view(members@);
    }
    assert(entries_view(members@) =~= friend_record(friend@)->Object_0);
    let raw = Json::Object(members);
    assert(raw@ == friend_record(friend@));
    let names: Table<String> = Table::new();
    proof {
        assert(crate::ui::friends::names_view(names@) =~= Map::<Seq<char>, Seq<char>>::empty());
    }
    let subtitle = match friend_secondary_text(friend, &names) {
        Some(s) => s,
        None => owned("Offline"),
    };
    let title = match &friend.display_name {
        Some(n) => n.clone(),
        None => friend.user_id.clone(),
    };
    ResultItem {
        id: friend.user_id.clone(),
        title,
        subtitle,
        thumbnail_url: friend.avatar_url.clone(),
        round_thumbnail: true,
        platforms: Vec::new(),
        badges: resource_badges(&raw),
        trust_rank: friend.trust_rank.clone(),
        favorite_id: None,
        raw,
    }
}

/// The detail row `label`, where the record has a displayable value at `paths`.
pub open spec fn detail_row(v: JsonView, label: Seq<char>, paths: Seq<Seq<char>>) -> Seq<(Seq<char>, Seq<char>)> {
    match first_found(v, paths) {
        Some(x) => match field_display(x) {
            Some(f) => seq![(label, f)],
            None => Seq::empty(),
        },
        None => Seq::empty(),
    }
}

/// Adds the detail row `label` where the record has a displayable value at `paths`.
fn push_detail(out: &mut Vec<(String, String)>, value: &Json, label: &str, paths: &[&str])
    ensures
        rows_view(final(out)@) == rows_view(old(out)@) + detail_row(value@, label@, path_list(paths@)),
{
    let ghost before = rows_view(out@);
    match json_field(value, paths) {
        Some(f) => {
            out.push((owned(label), f));
        },
        None => {},
    }
    assert(rows_view(out@) =~= before + detail_row(value@, label@, path_list(paths@)));
}

/// Adds the detail row `label` where the record has a displayable value at `path`.
fn push_detail_at(out: &mut Vec<(String, String)>, value: &Json, label: &str, path: &str)
    ensures
        rows_view(final(out)@) == rows_view(old(out)@) + detail_row(value@, label@, seq![path@]),
{
    let ghost before = rows_view(out@);
    match path_field(value, path) {
        Some(f) => {
            out.push((owned(label), f));
        },
        None => {},
    }
    assert(rows_view(out@) =~= before + detail_row(value@, label@, seq![path@]));
}

/// The views of detail rows.
pub open spec fn rows_view(rows: Seq<(String, String)>) -> Seq<(Seq<char>, Seq<char>)> {
    rows.map_values(|p: (String, String)| (p.0@, p.1@))
}

/// The detail rows of a user's record.
pub open spec fn user_details(v: JsonView) -> Seq<(Seq<char>, Seq<char>)> {
    detail_row(v, "Display name"@, seq!["displayName"@, "identity.displayName"@])
        + detail_row(v, "Username"@, seq!["username"@, "identity.username"@])
        + detail_row(v, "Status"@, seq!["status"@, "identity.status.status"@])
        + detail_row(v, "Status message"@, seq!["statusDescription"@, "identity.status.statusDescription"@])
        + detail_row(v, "Pronouns"@, seq!["pronouns"@, "profile.pronouns"@])
        + detail_row(v, "Platform"@, seq!["last_platform"@, "presence.lastPlatform"@, "presence.platform"@])
        + detail_row(v, "Location"@, seq!["location"@, "presence.location.location"@])
        + detail_row(v, "Joined"@, seq!["date_joined"@, "metadata.dateJoined"@])
        + detail_row(v, "Bio"@, seq!["bio"@, "profile.bio"@])
}

/// The detail rows of an avatar's record.
pub open spec fn avatar_details(v: JsonView) -> Seq<(Seq<char>, Seq<char>)> {
    detail_row(v, "Name"@, seq!["name"@, "identity.name"@])
        + detail_row(v, "Author"@, seq!["authorName"@, "identity.author.displayName"@])
        + detail_row(v, "Description"@, seq!["description"@, "content.description"@])
        + detail_row(v, "Release"@, seq!["releaseStatus"@, "publication.releaseStatus"@])
        + detail_row(v, "Version"@, seq!["version"@, "identity.version"@])
        + detail_row(v, "Created"@, seq!["created_at"@, "publication.createdAt"@])
        + detail_row(v, "Updated"@, seq!["updated_at"@, "publication.updatedAt"@])
}

/// The detail rows of a group's record.
pub open spec fn group_details(v: JsonView) -> Seq<(Seq<char>, Seq<char>)> {
    detail_row(v, "Name"@, seq!["name"@]) + detail_row(v, "Short code"@, seq!["shortCode"@])
        + detail_row(v, "Description"@, seq!["description"@]) + detail_row(
        v,
        "Members"@,
        seq!["memberCount"@],
    ) + detail_row(v, "Online"@, seq!["onlineMemberCount"@]) + detail_row(
        v,
        "Membership"@,
        seq!["membershipStatus"@],
    ) + detail_row(v, "Privacy"@, seq!["privacy"@]) + detail_row(v, "Created"@, seq!["createdAt"@])
}

/// The detail rows of a world's record.
pub open spec fn world_details(v: JsonView) -> Seq<(Seq<char>, Seq<char>)> {
    detail_row(v, "Name"@, seq!["name"@, "identifier.name"@])
        + detail_row(v, "Author"@, seq!["authorName"@, "identifier.author.displayName"@])
        + detail_row(v, "Description"@, seq!["description"@])
        + detail_row(v, "Capacity"@, seq!["capacity"@, "capacity.capacity"@])
        + detail_row(v, "Recommended"@, seq!["recommendedCapacity"@, "capacity.recommendedCapacity"@])
        + detail_row(v, "Favorites"@, seq!["favorites"@, "stats.favorites"@])
        + detail_row(v, "Occupants"@, seq!["occupants"@, "stats.occupants"@])
        + detail_row(v, "Release"@, seq!["releaseStatus"@, "publications.releaseStatus"@])
        + detail_row(v, "Published"@, seq!["publicationDate"@, "publications.publicationDate"@])
}

/// The detail rows of any other record.
pub open spec fn other_details(v: JsonView) -> Seq<(Seq<char>, Seq<char>)> {
    detail_row(v, "Name"@, seq!["name"@, "displayName"@, "title"@])
        + detail_row(v, "Description"@, seq!["description"@, "statusDescription"@])
        + detail_row(v, "Type"@, seq!["type"@, "itemType"@, "storeType"@])
        + detail_row(v, "Created"@, seq!["created_at"@, "createdAt"@, "created"@])
        + detail_row(v, "Updated"@, seq!["updated_at"@, "updatedAt"@, "updated"@])
}

/// The detail rows a page shows of a record.
pub open spec fn details_of(page: Page, v: JsonView) -> Seq<(Seq<char>, Seq<char>)> {
    match page {
        Page::Users | Page::Friends => user_details(v),
        Page::Avatars | Page::MyAvatars => avatar_details(v),
        Page::Groups => group_details(v),
        Page::Worlds => world_details(v),
        _ => other_details(v),
    }
}

/// The detail rows a page shows of a record.
pub fn detail_fields(page: Page, value: &Json) -> (r: Vec<(String, String)>)
    ensures
        rows_view(r@) == details_of(page, value@),
{
    let mut out: Vec<(String, String)> = Vec::new();
    assert(rows_view(out@) =~= Seq::<(Seq<char>, Seq<char>)>::empty());
    match page {
        Page::Users | Page::Friends => {
            let display_name_paths = ["displayName", "identity.displayName"];
            assert(path_list(display_name_paths@) =~= seq!["displayName"@, "identity.displayName"@]);
            push_detail(&mut out, value, "Display name", &display_name_paths);
            let username_paths = ["username", "identity.username"];
            assert(path_list(username_paths@) =~= seq!["username"@, "identity.username"@]);
            push_detail(&mut out, value, "Username", &username_paths);
            let status_paths = ["status", "identity.status.status"];
            assert(path_list(status_paths@) =~= seq!["status"@, "identity.status.status"@]);
            push_detail(&mut out, value, "Status", &status_paths);
            let status_message_paths = ["statusDescription", "identity.status.statusDescription"];
            assert(path_list(status_message_paths@) =~= seq!["statusDescription"@, "identity.status.statusDescription"@]);
            push_detail(&mut out, value, "Status message", &status_message_paths);
            let pronouns_paths = ["pronouns", "profile.pronouns"];
            assert(path_list(pronouns_paths@) =~= seq!["pronouns"@, "profile.pronouns"@]);
            push_detail(&mut out, value, "Pronouns", &pronouns_paths);
            let platform_paths = ["last_platform", "presence.lastPlatform", "presence.platform"];
            assert(path_list(platform_paths@) =~= seq!["last_platform"@, "presence.lastPlatform"@, "presence.platform"@]);
            push_detail(&mut out, value, "Platform", &platform_paths);
            let location_paths = ["location", "presence.location.location"];
            assert(path_list(location_paths@) =~= seq!["location"@, "presence.location.location"@]);
            push_detail(&mut out, value, "Location", &location_paths);
            let joined_paths = ["date_joined", "metadata.dateJoined"];
            assert(path_list(joined_paths@) =~= seq!["date_joined"@, "metadata.dateJoined"@]);
            push_detail(&mut out, value, "Joined", &joined_paths);
            let bio_paths = ["bio", "profile.bio"];
            assert(path_list(bio_paths@) =~= seq!["bio"@, "profile.bio"@]);
            push_detail(&mut out, value, "Bio", &bio_paths);
            assert(rows_view(out@) =~= user_details(value@));
        },
        Page::Avatars | Page::MyAvatars => {
            let name_paths = ["name", "identity.name"];
            assert(path_list(name_paths@) =~= seq!["name"@, "identity.name"@]);
            push_detail(&mut out, value, "Name", &name_paths);
            let author_paths = ["authorName", "identity.author.displayName"];
            assert(path_list(author_paths@) =~= seq!["authorName"@, "identity.author.displayName"@]);
            push_detail(&mut out, value, "Author", &author_paths);
            let description_paths = ["description", "content.description"];
            assert(path_list(description_paths@) =~= seq!["description"@, "content.description"@]);
            push_detail(&mut out, value, "Description", &description_paths);
            let release_paths = ["releaseStatus", "publication.releaseStatus"];
            assert(path_list(release_paths@) =~= seq!["releaseStatus"@, "publication.releaseStatus"@]);
            push_detail(&mut out, value, "Release", &release_paths);
            let version_paths = ["version", "identity.version"];
            assert(path_list(version_paths@) =~= seq!["version"@, "identity.version"@]);
            push_detail(&mut out, value, "Version", &version_paths);
            let created_paths = ["created_at", "publication.createdAt"];
            assert(path_list(created_paths@) =~= seq!["created_at"@, "publication.createdAt"@]);
            push_detail(&mut out, value, "Created", &created_paths);
            let updated_paths = ["updated_at", "publication.updatedAt"];
            assert(path_list(updated_paths@) =~= seq!["updated_at"@, "publication.updatedAt"@]);
            push_detail(&mut out, value, "Updated", &updated_paths);
            assert(rows_view(out@) =~= avatar_details(value@));
        },
        Page::Groups => {
            push_detail_at(&mut out, value, "Name", "name");
            push_detail_at(&mut out, value, "Short code", "shortCode");
            push_detail_at(&mut out, value, "Description", "description");
            push_detail_at(&mut out, value, "Members", "memberCount");
            push_detail_at(&mut out, value, "Online", "onlineMemberCount");
            push_detail_at(&mut out, value, "Membership", "membershipStatus");
            push_detail_at(&mut out, value, "Privacy", "privacy");
            push_detail_at(&mut out, value, "Created", "createdAt");
            assert(rows_view(out@) =~= group_details(value@));
        },
        Page::Worlds => {
            let name_paths = ["name", "identifier.name"];
            assert(path_list(name_paths@) =~= seq!["name"@, "identifier.name"@]);
            push_detail(&mut out, value, "Name", &name_paths);
            let author_paths = ["authorName", "identifier.author.displayName"];
            assert(path_list(author_paths@) =~= seq!["authorName"@, "identifier.author.displayName"@]);
            push_detail(&mut out, value, "Author", &author_paths);
            push_detail_at(&mut out, value, "Description", "description");
            let capacity_paths = ["capacity", "capacity.capacity"];
            assert(path_list(capacity_paths@) =~= seq!["capacity"@, "capacity.capacity"@]);
            push_detail(&mut out, value, "Capacity", &capacity_paths);
            let recommended_paths = ["recommendedCapacity", "capacity.recommendedCapacity"];
            assert(path_list(recommended_paths@) =~= seq!["recommendedCapacity"@, "capacity.recommendedCapacity"@]);
            push_detail(&mut out, value, "Recommended", &recommended_paths);
            let favorites_paths = ["favorites", "stats.favorites"];
            assert(path_list(favorites_paths@) =~= seq!["favorites"@, "stats.favorites"@]);
            push_detail(&mut out, value, "Favorites", &favorites_paths);
            let occupants_paths = ["occupants", "stats.occupants"];
            assert(path_list(occupants_paths@) =~= seq!["occupants"@, "stats.occupants"@]);
            push_detail(&mut out, value, "Occupants", &occupants_paths);
            let release_paths = ["releaseStatus", "publications.releaseStatus"];
            assert(path_list(release_paths@) =~= seq!["releaseStatus"@, "publications.releaseStatus"@]);
            push_detail(&mut out, value, "Release", &release_paths);
            let published_paths = ["publicationDate", "publications.publicationDate"];
            assert(path_list(published_paths@) =~= seq!["publicationDate"@, "publications.publicationDate"@]);
            push_detail(&mut out, value, "Published", &published_paths);
            assert(rows_view(out@) =~= world_details(value@));
        },
        _ => {
            let name_paths = ["name", "displayName", "title"];
            assert(path_list(name_paths@) =~= seq!["name"@, "displayName"@, "title"@]);
            push_detail(&mut out, value, "Name", &name_paths);
            let description_paths = ["description", "statusDescription"];
            assert(path_list(description_paths@) =~= seq!["description"@, "statusDescription"@]);
            push_detail(&mut out, value, "Description", &description_paths);
            let type_paths = ["type", "itemType", "storeType"];
            assert(path_list(type_paths@) =~= seq!["type"@, "itemType"@, "storeType"@]);
            push_detail(&mut out, value, "Type", &type_paths);
            let created_paths = ["created_at", "createdAt", "created"];
            assert(path_list(created_paths@) =~= seq!["created_at"@, "createdAt"@, "created"@]);
            push_detail(&mut out, value, "Created", &created_paths);
            let updated_paths = ["updated_at", "updatedAt", "updated"];
            assert(path_list(updated_paths@) =~= seq!["updated_at"@, "updatedAt"@, "updated"@]);
            push_detail(&mut out, value, "Updated", &updated_paths);
            assert(rows_view(out@) =~= other_details(value@));
        },
    }
    out
}

/// The user a page of someone's records is about: the search text where it is not
/// blank, else the signed-in user; an error where neither is known.
pub fn page_user_id(query: String, session_user_id: Option<String>) -> (r: Result<String, String>)
    ensures
        match unless_blank(query@) {
            Some(q) => r matches Ok(u) && u@ == q,
            None => match session_user_id {
                Some(s) => r matches Ok(u) && u@ == s@,
                None => r matches Err(m) && m@ == "A user ID is required"@,
            },
        },
{
    match non_empty(query) {
        Some(q) => Ok(q),
        None => match session_user_id {
            Some(s) => Ok(s),
            None => Err(owned("A user ID is required")),
        },
    }
}

/// Some record of the list has the id `id`.
pub open spec fn lists_id(records: Seq<JsonView>, id: Seq<char>) -> bool {
    exists|i: int| 0 <= i < records.len() && #[trigger] records[i].field_text("id"@) == Some(id)
}

/// The user's avatars with the one they wear in front, unless it is not a record or
/// an avatar with its id is already listed.
pub open spec fn avatars_with_current(avatars: Seq<JsonView>, current: Option<JsonView>) -> Seq<JsonView> {
    match current {
        Some(c) => if !(c is Object) {
            avatars
        } else {
            match c.field_text("id"@) {
                Some(id) => if lists_id(avatars, id) {
                    avatars
                } else {
                    seq![c] + avatars
                },
                None => seq![c] + avatars,
            }
        },
        None => avatars,
    }
}

/// The user's avatars with the one they wear in front.
pub fn current_avatar_first(avatars: Vec<Json>, current: Option<Json>) -> (r: Vec<Json>)
    ensures
        crate::json::items_view(r@) == avatars_with_current(crate::json::items_view(avatars@), match current {
            Some(c) => Some(c@),
            None => None,
        }),
{
    proof {
        crate::json::lemma_items_view(avatars@);
    }
    let c = match current {
        Some(c) => c,
        None => return avatars,
    };
    let is_object = match &c {
        Json::Object(_) => true,
        _ => false,
    };
    if !is_object {
        return avatars;
    }
    let id = match c.get_str("id") {
        Some(id) => Some(id.clone()),
        None => None,
    };
    if let Some(id) = id {
        let n = avatars.len();
        for i in 0..n
            invariant
                n == avatars@.len(),
                current == Some(c),
                c@ is Object,
                c@.field_text("id"@) == Some(id@),
                crate::json::items_view(avatars@).len() == n,
                forall|k: int| 0 <= k < n ==> #[trigger] crate::json::items_view(avatars@)[k] == avatars@[k]@,
                forall|j: int| 0 <= j < i ==> #[trigger] avatars@[j]@.field_text("id"@) != Some(id@),
        {
            let listed = match avatars[i].get_str("id") {
                Some(other) => str_eq(other.as_str(), id.as_str()),
                None => false,
            };
            if listed {
                assert(crate::json::items_view(avatars@)[i as int].field_text("id"@) == Some(id@));
                return avatars;
            }
        }
        assert(!lists_id(crate::json::items_view(avatars@), id@));
    }
    let mut out: Vec<Json> = Vec::new();
    out.push(c);
    let mut rest = avatars;
    out.append(&mut rest);
    proof {
        crate::json::lemma_items_view(out@);
        assert(crate::json::items_view(out@) =~= seq![out@[0]@] + crate::json::items_view(avatars@));
    }
    out
}

} // verus!
