//! The groups a favorite is shown under.
use vstd::prelude::*;
use crate::decode::opt_str;
use crate::json::{json_string, set_member, str_views, strings_json, Json, JsonEntry, JsonView};
use crate::models::favorite::{Favorite, FavoriteGroup, FavoriteType};
use crate::text::{concat, decimal, owned, u64_text};
use crate::json::{items_view, lemma_items_view};
use crate::store::state::{presences, FriendPresence, PresenceView};
use crate::table::Table;
use crate::ui::cards::{json_text_or_null, text_or_null};
use crate::text::{any_eq, copy_string, is_blank, is_blank_str, str_eq, strs};

verus! {

/// The group is the one named `tag`, by its name or one of its tags.
pub open spec fn group_matches(g: FavoriteGroup, tag: Seq<char>) -> bool {
    g.name@ == tag || strs(g.tags@).contains(tag)
}

pub fn favorite_group_matches_tag(group: &FavoriteGroup, tag: &str) -> (r: bool)
    ensures
        r == group_matches(*group, tag@),
{
    str_eq(group.name.as_str(), tag) || any_eq(&group.tags, tag)
}

/// The position of the first group of type `ty` that `tag` names.
pub open spec fn first_group(groups: Seq<FavoriteGroup>, ty: FavoriteType, tag: Seq<char>) -> Option<int>
    decreases groups.len(),
{
    if groups.len() == 0 {
        None
    } else if groups[0].favorite_type == ty && group_matches(groups[0], tag) {
        Some(0)
    } else {
        match first_group(groups.drop_first(), ty, tag) {
            Some(i) => Some(i + 1),
            None => None,
        }
    }
}

/// The label of the group `tag` names: its display name, or its name where the
/// display name is blank; the tag itself where no group of the type matches.
pub open spec fn group_label(groups: Seq<FavoriteGroup>, ty: FavoriteType, tag: Seq<char>) -> Seq<char> {
    match first_group(groups, ty, tag) {
        Some(i) => if is_blank(groups[i].display_name@) {
            groups[i].name@
        } else {
            groups[i].display_name@
        },
        None => tag,
    }
}

/// The labels of the non-blank tags, each once, in the order they first come.
pub open spec fn display_groups(tags: Seq<Seq<char>>, groups: Seq<FavoriteGroup>, ty: FavoriteType) -> Seq<Seq<char>>
    decreases tags.len(),
{
    if tags.len() == 0 {
        Seq::empty()
    } else {
        let prev = display_groups(tags.drop_last(), groups, ty);
        let tag = tags.last();
        if is_blank(tag) {
            prev
        } else {
            let label = group_label(groups, ty, tag);
            if prev.contains(label) {
                prev
            } else {
                prev.push(label)
            }
        }
    }
}

proof fn lemma_first_group(groups: Seq<FavoriteGroup>, ty: FavoriteType, tag: Seq<char>, i: int)
    requires
        0 <= i <= groups.len(),
        forall|j: int| 0 <= j < i ==> !(groups[j].favorite_type == ty && group_matches(groups[j], tag)),
    ensures
        i < groups.len() && groups[i].favorite_type == ty && group_matches(groups[i], tag) ==> first_group(groups, ty, tag) == Some(i),
        i == groups.len() ==> first_group(groups, ty, tag) is None,
    decreases i,
{
    if i > 0 {
        let rest = groups.drop_first();
        assert forall|j: int| 0 <= j < i - 1 implies !(rest[j].favorite_type == ty && group_matches(rest[j], tag)) by {
            assert(rest[j] == groups[j + 1]);
        }
        lemma_first_group(rest, ty, tag, i - 1);
        if i < groups.len() {
            assert(rest[i - 1] == groups[i]);
        }
    } else if groups.len() > 0 {
    }
}

/// The label of the group `tag` names.
fn label_for(groups: &Vec<FavoriteGroup>, ty: FavoriteType, tag: &str) -> (r: String)
    ensures
        r@ == group_label(groups@, ty, tag@),
{
    let n = groups.len();
    for i in 0..n
        invariant
            n == groups@.len(),
            forall|j: int| 0 <= j < i ==> !(groups@[j].favorite_type == ty && group_matches(groups@[j], tag@)),
    {
        if groups[i].favorite_type == ty && favorite_group_matches_tag(&groups[i], tag) {
            proof {
                lemma_first_group(groups@, ty, tag@, i as int);
            }
            if is_blank_str(groups[i].display_name.as_str()) {
                return copy_string(&groups[i].name);
            } else {
                return copy_string(&groups[i].display_name);
            }
        }
    }
    proof {
        lemma_first_group(groups@, ty, tag@, n as int);
    }
    tag.to_string()
}

/// The labels a favorite is shown under.
pub fn favorite_display_groups(favorite: &Favorite, groups: &Vec<FavoriteGroup>) -> (r: Vec<String>)
    ensures
        strs(r@) == display_groups(strs(favorite.tags@), groups@, favorite.favorite_type),
{
    let ghost tags = strs(favorite.tags@);
    let mut out: Vec<String> = Vec::new();
    let n = favorite.tags.len();
    assert(tags.take(0) =~= Seq::<Seq<char>>::empty());
    assert(strs(out@) =~= Seq::<Seq<char>>::empty());
    for i in 0..n
        invariant
            n == favorite.tags@.len(),
            tags == strs(favorite.tags@),
            strs(out@) == display_groups(tags.take(i as int), groups@, favorite.favorite_type),
    {
        assert(tags.take(i + 1).drop_last() =~= tags.take(i as int));
        assert(tags.take(i + 1).last() == favorite.tags@[i as int]@);
        let tag = &favorite.tags[i];
        if !is_blank_str(tag.as_str()) {
            let label = label_for(groups, favorite.favorite_type, tag.as_str());
            if !any_eq(&out, label.as_str()) {
                let ghost before = out@;
                out.push(label);
                assert(strs(out@) =~= strs(before).push(label@));
            }
        }
    }
    assert(tags.take(n as int) =~= tags);
    out
}

/// The API path of the resource a favorite refers to; none for a favorite of unknown
/// type.
pub open spec fn resource_path_of(f: Favorite) -> Option<Seq<char>> {
    match f.favorite_type {
        FavoriteType::Friend => Some("users/"@ + f.favorite_id@),
        FavoriteType::World => Some("worlds/"@ + f.favorite_id@),
        FavoriteType::Avatar => Some("avatars/"@ + f.favorite_id@),
        FavoriteType::Prop => Some("props/"@ + f.favorite_id@),
        FavoriteType::Group => Some("groups/"@ + f.favorite_id@),
        FavoriteType::Unknown => None,
    }
}

/// The API path of the resource a favorite refers to.
pub fn favorite_resource_path(favorite: &Favorite) -> (r: Option<String>)
    ensures
        opt_str(r) == resource_path_of(*favorite),
{
    let prefix = match favorite.favorite_type {
        FavoriteType::Friend => "users/",
        FavoriteType::World => "worlds/",
        FavoriteType::Avatar => "avatars/",
        FavoriteType::Prop => "props/",
        FavoriteType::Group => "groups/",
        FavoriteType::Unknown => return None,
    };
    Some(concat(&owned(prefix), favorite.favorite_id.as_str()))
}

/// The name of a favorite type in the API's records.
pub open spec fn favorite_type_name(t: FavoriteType) -> Seq<char> {
    match t {
        FavoriteType::Friend => "friend"@,
        FavoriteType::World => "world"@,
        FavoriteType::Avatar => "avatar"@,
        FavoriteType::Prop => "prop"@,
        FavoriteType::Group => "group"@,
        FavoriteType::Unknown => "unknown"@,
    }
}

fn favorite_type_text(t: FavoriteType) -> (r: &'static str)
    ensures
        r@ == favorite_type_name(t),
{
    match t {
        FavoriteType::Friend => "friend",
        FavoriteType::World => "world",
        FavoriteType::Avatar => "avatar",
        FavoriteType::Prop => "prop",
        FavoriteType::Group => "group",
        FavoriteType::Unknown => "unknown",
    }
}

/// The record shown for a favorite whose resource could not be fetched.
pub open spec fn unavailable_record(favorite_id: Seq<char>) -> Seq<(Seq<char>, JsonView)> {
    seq![
        ("id"@, JsonView::Str(favorite_id)),
        ("name"@, JsonView::Str(favorite_id)),
        ("description"@, JsonView::Str("Favorite resource unavailable"@)),
    ]
}

/// A favorite's resource as the favorites page lists it: the fetched record (or a
/// stand-in where the fetch gave no object) with the favorite's id, type, tags and
/// group labels added.
pub open spec fn favorite_record(resource: JsonView, f: Favorite, groups: Seq<FavoriteGroup>) -> JsonView {
    let base = match resource {
        JsonView::Object(es) => es,
        _ => unavailable_record(f.favorite_id@),
    };
    JsonView::Object(
        set_member(
            set_member(
                set_member(
                    set_member(base, "_favoriteId"@, JsonView::Str(f.id@)),
                    "_favoriteType"@,
                    JsonView::Str(favorite_type_name(f.favorite_type)),
                ),
                "_favoriteTags"@,
                JsonView::Array(str_views(strs(f.tags@))),
            ),
            "_favoriteGroups"@,
            JsonView::Array(str_views(display_groups(strs(f.tags@), groups, f.favorite_type))),
        ),
    )
}

/// A favorite's resource as the favorites page lists it.
pub fn favorite_resource_record(resource: Json, favorite: &Favorite, groups: &Vec<FavoriteGroup>) -> (r: Json)
    ensures
        r@ == favorite_record(resource@, *favorite, groups@),
{
    let mut record = match resource {
        Json::Object(es) => Json::Object(es),
        _ => {
            let r = Json::Object(
                vec![
                    JsonEntry { key: owned("id"), value: json_string(favorite.favorite_id.as_str()) },
                    JsonEntry { key: owned("name"), value: json_string(favorite.favorite_id.as_str()) },
                    JsonEntry {
                        key: owned("description"),
                        value: json_string("Favorite resource unavailable"),
                    },
                ],
            );
            proof {
                reveal_strlit("id");
                reveal_strlit("name");
                reveal_strlit("description");
                reveal_strlit("Favorite resource unavailable");
                crate::json::lemma_entries_view(r->Object_0@);
                assert(r@->Object_0 =~= unavailable_record(favorite.favorite_id@));
            }
            r
        },
    };
    record.insert_member("_favoriteId", json_string(favorite.id.as_str()));
    record.insert_member("_favoriteType", json_string(favorite_type_text(favorite.favorite_type)));
    record.insert_member("_favoriteTags", strings_json(&favorite.tags));
    let labels = favorite_display_groups(favorite, groups);
    record.insert_member("_favoriteGroups", strings_json(&labels));
    record
}

/// The favorite is filed under the group: one of its tags names the group.
pub open spec fn filed_under(f: Favorite, g: FavoriteGroup) -> bool {
    exists|i: int| 0 <= i < f.tags@.len() && group_matches(g, #[trigger] f.tags@[i]@)
}

/// Whether the favorite is filed under the group.
fn filed_under_exec(f: &Favorite, g: &FavoriteGroup) -> (r: bool)
    ensures
        r == filed_under(*f, *g),
{
    let n = f.tags.len();
    for i in 0..n
        invariant
            n == f.tags@.len(),
            forall|j: int| 0 <= j < i ==> !group_matches(*g, #[trigger] f.tags@[j]@),
    {
        if favorite_group_matches_tag(g, f.tags[i].as_str()) {
            return true;
        }
    }
    false
}

/// A friend of a favorite group as the profile lists it: the id, the display name
/// the friend list knows (else the id), and the avatar it knows (else null).
pub open spec fn member_record(f: Favorite, friends: Map<Seq<char>, PresenceView>) -> JsonView {
    let known = friends.contains_key(f.favorite_id@);
    let name = if known && friends[f.favorite_id@].display_name is Some {
        friends[f.favorite_id@].display_name.unwrap()
    } else {
        f.favorite_id@
    };
    let icon = if known {
        friends[f.favorite_id@].avatar_url
    } else {
        None
    };
    JsonView::Object(
        seq![
            ("id"@, JsonView::Str(f.favorite_id@)),
            ("displayName"@, JsonView::Str(name)),
            ("userIcon"@, text_or_null(icon)),
        ],
    )
}

/// The members of the group among the favorites, in the favorites' order.
pub open spec fn members_of(favorites: Seq<Favorite>, g: FavoriteGroup, friends: Map<Seq<char>, PresenceView>) -> Seq<JsonView>
    decreases favorites.len(),
{
    if favorites.len() == 0 {
        Seq::empty()
    } else {
        let prev = members_of(favorites.drop_last(), g, friends);
        if filed_under(favorites.last(), g) {
            prev.push(member_record(favorites.last(), friends))
        } else {
            prev
        }
    }
}

/// A favorite group of friends as a user's profile lists it.
pub open spec fn group_record(g: FavoriteGroup, favorites: Seq<Favorite>, friends: Map<Seq<char>, PresenceView>) -> JsonView {
    let members = members_of(favorites, g, friends);
    JsonView::Object(
        seq![
            ("id"@, JsonView::Str(g.id@)),
            ("name"@, JsonView::Str(g.display_name@)),
            ("description"@, JsonView::Str(decimal(members.len()) + " friends"@)),
            ("favoriteGroup"@, JsonView::Str(g.name@)),
            ("members"@, JsonView::Array(members)),
        ],
    )
}

fn member_json(f: &Favorite, friends: &Table<FriendPresence>) -> (r: Json)
    ensures
        r@ == member_record(*f, presences(friends@)),
{
    let (name, icon) = match friends.get(f.favorite_id.as_str()) {
        Some(p) => (
            match &p.display_name {
                Some(n) => n.clone(),
                None => f.favorite_id.clone(),
            },
            p.avatar_url.clone(),
        ),
        None => (f.favorite_id.clone(), None),
    };
    let r = Json::Object(
        vec![
            JsonEntry { key: owned("id"), value: json_string(f.favorite_id.as_str()) },
            JsonEntry { key: owned("displayName"), value: Json::Str(name) },
            JsonEntry { key: owned("userIcon"), value: json_text_or_null(&icon) },
        ],
    );
    proof {
        reveal_strlit("id");
        reveal_strlit("displayName");
        reveal_strlit("userIcon");
        crate::json::lemma_entries_view(r->Object_0@);
        assert(r@->Object_0 =~= member_record(*f, presences(friends@))->Object_0);
    }
    r
}

/// A favorite group of friends as a user's profile lists it: its members among the
/// favorites, with the names and avatars the friend list knows.
pub fn friend_group_record(group: &FavoriteGroup, favorites: &Vec<Favorite>, friends: &Table<FriendPresence>) -> (r: Json)
    ensures
        r@ == group_record(*group, favorites@, presences(friends@)),
{
    let ghost fs = favorites@;
    let mut members: Vec<Json> = Vec::new();
    let n = favorites.len();
    assert(fs.take(0) =~= Seq::<Favorite>::empty());
    proof {
        lemma_items_view(members@);
    }
    for i in 0..n
        invariant
            n == favorites@.len(),
            fs == favorites@,
            items_view(members@) == members_of(fs.take(i as int), *group, presences(friends@)),
    {
        proof {
            assert(fs.take(i + 1).drop_last() =~= fs.take(i as int));
            assert(fs.take(i + 1).last() == fs[i as int]);
            lemma_items_view(members@);
        }
        if filed_under_exec(&favorites[i], group) {
            let m = member_json(&favorites[i], friends);
            let ghost before = items_view(members@);
            members.push(m);
            proof {
                lemma_items_view(members@);
                assert(items_view(members@) =~= before.push(m@));
            }
        }
    }
    assert(fs.take(n as int) =~= fs);
    proof {
        lemma_items_view(members@);
    }
    let count = u64_text(members.len() as u64);
    let description = concat(&count, " friends");
    let r = Json::Object(
        vec![
            JsonEntry { key: owned("id"), value: json_string(group.id.as_str()) },
            JsonEntry { key: owned("name"), value: json_string(group.display_name.as_str()) },
            JsonEntry { key: owned("description"), value: Json::Str(description) },
            JsonEntry { key: owned("favoriteGroup"), value: json_string(group.name.as_str()) },
            JsonEntry { key: owned("members"), value: Json::Array(members) },
        ],
    );
    proof {
        reveal_strlit("id");
        reveal_strlit("name");
        reveal_strlit("description");
        reveal_strlit("favoriteGroup");
        reveal_strlit("members");
        crate::json::lemma_entries_view(r->Object_0@);
        assert(r@->Object_0 =~= group_record(*group, favorites@, presences(friends@))->Object_0);
    }
    r
}

/// The favorite groups of friends as a user's profile lists them, in the groups'
/// order; groups of other favorites are left out.
pub open spec fn friend_group_records_of(groups: Seq<FavoriteGroup>, favorites: Seq<Favorite>, friends: Map<Seq<char>, PresenceView>) -> Seq<JsonView>
    decreases groups.len(),
{
    if groups.len() == 0 {
        Seq::empty()
    } else {
        let prev = friend_group_records_of(groups.drop_last(), favorites, friends);
        if groups.last().favorite_type == FavoriteType::Friend {
            prev.push(group_record(groups.last(), favorites, friends))
        } else {
            prev
        }
    }
}

/// The favorite groups of friends as a user's profile lists them.
pub fn friend_group_records(groups: &Vec<FavoriteGroup>, favorites: &Vec<Favorite>, friends: &Table<FriendPresence>) -> (r: Vec<Json>)
    ensures
        items_view(r@) == friend_group_records_of(groups@, favorites@, presences(friends@)),
{
    let ghost gs = groups@;
    let mut out: Vec<Json> = Vec::new();
    let n = groups.len();
    assert(gs.take(0) =~= Seq::<FavoriteGroup>::empty());
    proof {
        lemma_items_view(out@);
    }
    for i in 0..n
        invariant
            n == groups@.len(),
            gs == groups@,
            items_view(out@) == friend_group_records_of(gs.take(i as int), favorites@, presences(friends@)),
    {
        proof {
            assert(gs.take(i + 1).drop_last() =~= gs.take(i as int));
            assert(gs.take(i + 1).last() == gs[i as int]);
        }
        if groups[i].favorite_type == FavoriteType::Friend {
            let record = friend_group_record(&groups[i], favorites, friends);
            let ghost before = items_view(out@);
            proof {
                lemma_items_view(out@);
            }
            out.push(record);
            proof {
                lemma_items_view(out@);
                assert(items_view(out@) =~= before.push(record@));
            }
        }
    }
    assert(gs.take(n as int) =~= gs);
    out
}

} // verus!
