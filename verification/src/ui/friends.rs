//! Where friends are, how their location reads, and which section of the friends
//! list they fall in.
use vstd::prelude::*;
use crate::decode::opt_str;
use crate::store::location_world;
use crate::store::state::{FriendPresence, PresenceView};
use crate::table::Table;
use crate::text::{
    before_char, before_char_exec, chars_of, concat, contains_seq, contains_str, owned,
    split_once, split_once_exec, starts_with, str_eq, string_of, strs, trim, trim_str,
};

verus! {

/// The sections of the friends list, in display order.
#[derive(Debug, Clone, Copy, PartialEq, Eq, Hash, PartialOrd, Ord, Structural)]
pub enum FriendSection {
    Favorites,
    InVrchat,
    Private,
    Web,
    Offline,
}

/// The rows each section of the friends list shows at first.
pub const INITIAL_FRIEND_SECTION_ROWS: usize = 18;

/// Every section with the number of rows it shows at first.
pub fn default_friend_section_row_limits() -> (r: Vec<(FriendSection, usize)>)
    ensures
        r@ == seq![
            (FriendSection::Favorites, 18usize),
            (FriendSection::InVrchat, 18usize),
            (FriendSection::Private, 18usize),
            (FriendSection::Web, 18usize),
            (FriendSection::Offline, 18usize),
        ],
{
    let mut out: Vec<(FriendSection, usize)> = Vec::new();
    out.push((FriendSection::Favorites, INITIAL_FRIEND_SECTION_ROWS));
    out.push((FriendSection::InVrchat, INITIAL_FRIEND_SECTION_ROWS));
    out.push((FriendSection::Private, INITIAL_FRIEND_SECTION_ROWS));
    out.push((FriendSection::Web, INITIAL_FRIEND_SECTION_ROWS));
    out.push((FriendSection::Offline, INITIAL_FRIEND_SECTION_ROWS));
    out
}

/// The names of worlds by id, as strings.
pub open spec fn names_view(names: Map<Seq<char>, String>) -> Map<Seq<char>, Seq<char>> {
    names.map_values(|s: String| s@)
}

/// The world id a location starts with, where it starts with one.
pub fn world_id_from_location(location: &str) -> (r: Option<String>)
    ensures
        opt_str(r) == location_world(location@),
{
    let head = string_of(&before_char_exec(&chars_of(location), ':'));
    if starts_with(head.as_str(), "wrld_") {
        Some(head)
    } else {
        None
    }
}

/// How a location reads: private and offline instances by name, a world by its name
/// where it is known, else by its id; anything else as it is.
pub open spec fn location_text(location: Seq<char>, names: Map<Seq<char>, Seq<char>>) -> Seq<char> {
    if location == "private"@ || contains_seq(location, "private"@) {
        "Private instance"@
    } else if location == "offline"@ || location.len() == 0 {
        "Offline"@
    } else {
        match location_world(location) {
            Some(w) => if names.contains_key(w) {
                names[w]
            } else {
                w
            },
            None => location,
        }
    }
}

pub fn location_label(location: &str, world_names: &Table<String>) -> (r: String)
    ensures
        r@ == location_text(location@, names_view(world_names@)),
{
    proof {
        reveal_strlit("");
    }
    if str_eq(location, "private") || contains_str(location, "private") {
        owned("Private instance")
    } else if str_eq(location, "offline") || str_eq(location, "") {
        proof {
            if location@.len() == 0 {
                assert(location@ =~= ""@);
            }
        }
        owned("Offline")
    } else {
        proof {
            if location@.len() == 0 {
                assert(location@ =~= ""@);
            }
        }
        match world_id_from_location(location) {
            Some(w) => match world_names.get(w.as_str()) {
                Some(name) => name.clone(),
                None => w,
            },
            None => owned(location),
        }
    }
}

/// Where a friend is headed or is, unless nowhere.
pub open spec fn instance_location(p: PresenceView) -> Option<Seq<char>> {
    let l = match p.traveling_to_location {
        Some(t) => Some(t),
        None => p.location,
    };
    match l {
        Some(x) => if x.len() > 0 && x != "offline"@ {
            Some(x)
        } else {
            None
        },
        None => None,
    }
}

pub fn friend_instance_location(friend: &FriendPresence) -> (r: Option<String>)
    ensures
        opt_str(r) == instance_location(friend@),
{
    let l = match &friend.traveling_to_location {
        Some(t) => Some(t),
        None => match &friend.location {
            Some(x) => Some(x),
            None => None,
        },
    };
    match l {
        Some(x) => {
            proof {
                reveal_strlit("");
            }
            if str_eq(x.as_str(), "") || str_eq(x.as_str(), "offline") {
                None
            } else {
                assert(x@.len() != 0) by {
                    if x@.len() == 0 {
                        assert(x@ =~= ""@);
                    }
                }
                Some(x.clone())
            }
        },
        None => None,
    }
}

/// Where a friend is, as it reads.
pub fn friend_location(friend: &FriendPresence, world_names: &Table<String>) -> (r: Option<String>)
    ensures
        opt_str(r) == match instance_location(friend@) {
            Some(l) => Some(location_text(l, names_view(world_names@))),
            None => None,
        },
{
    match friend_instance_location(friend) {
        Some(l) => Some(location_label(l.as_str(), world_names)),
        None => None,
    }
}

/// The line under a friend's name: their own status text where they set one, else
/// where they are.
pub open spec fn secondary_text(p: PresenceView, names: Map<Seq<char>, Seq<char>>) -> Option<Seq<char>> {
    let own = match p.status_description {
        Some(s) => if trim(s).len() > 0 {
            Some(trim(s))
        } else {
            None
        },
        None => None,
    };
    match own {
        Some(s) => Some(s),
        None => match instance_location(p) {
            Some(l) => Some(location_text(l, names)),
            None => None,
        },
    }
}

pub fn friend_secondary_text(friend: &FriendPresence, world_names: &Table<String>) -> (r: Option<String>)
    ensures
        opt_str(r) == secondary_text(friend@, names_view(world_names@)),
{
    if let Some(s) = &friend.status_description {
        let t = trim_str(s.as_str());
        proof {
            reveal_strlit("");
        }
        if !str_eq(t.as_str(), "") {
            assert(t@.len() != 0) by {
                if t@.len() == 0 {
                    assert(t@ =~= ""@);
                }
            }
            return Some(t);
        }
    }
    friend_location(friend, world_names)
}

/// The markers of instances that are not public.
pub open spec fn closed_marker(location: Seq<char>) -> bool {
    ||| contains_seq(location, "~private("@)
    ||| contains_seq(location, "~friends("@)
    ||| contains_seq(location, "~hidden("@)
    ||| contains_seq(location, "~invite("@)
    ||| contains_seq(location, "~invite+("@)
    ||| contains_seq(location, "~group("@)
}

/// The public instance an online friend is in.
pub open spec fn public_location(p: PresenceView) -> Option<Seq<char>> {
    if !p.online {
        None
    } else {
        match instance_location(p) {
            Some(l) => if "wrld_"@.is_prefix_of(l) && !closed_marker(l) {
                Some(l)
            } else {
                None
            },
            None => None,
        }
    }
}

pub fn public_instance_location(friend: &FriendPresence) -> (r: Option<String>)
    ensures
        opt_str(r) == public_location(friend@),
{
    if !friend.online {
        return None;
    }
    let location = match friend_instance_location(friend) {
        Some(l) => l,
        None => return None,
    };
    let l = location.as_str();
    if !starts_with(l, "wrld_") || contains_str(l, "~private(") || contains_str(l, "~friends(")
        || contains_str(l, "~hidden(") || contains_str(l, "~invite(") || contains_str(
        l,
        "~invite+(",
    ) || contains_str(l, "~group(") {
        return None;
    }
    Some(location)
}

/// How a public instance reads: the world's name (or id), then the instance name.
pub open spec fn public_label(location: Seq<char>, names: Map<Seq<char>, Seq<char>>) -> Seq<char> {
    let world_id = match location_world(location) {
        Some(w) => w,
        None => location,
    };
    let world = if names.contains_key(world_id) {
        names[world_id]
    } else {
        world_id
    };
    match split_once(location, ':') {
        Some((_, instance)) => {
            let name = before_char(instance, '~');
            if name.len() > 0 {
                world + " · "@ + name
            } else {
                world
            }
        },
        None => world,
    }
}

pub fn public_instance_label(location: &str, world_names: &Table<String>) -> (r: String)
    ensures
        r@ == public_label(location@, names_view(world_names@)),
{
    let world_id = match world_id_from_location(location) {
        Some(w) => w,
        None => owned(location),
    };
    let world = match world_names.get(world_id.as_str()) {
        Some(name) => name.clone(),
        None => world_id,
    };
    match split_once_exec(&chars_of(location), ':') {
        Some((_, instance)) => {
            let name = string_of(&before_char_exec(&instance, '~'));
            proof {
                reveal_strlit("");
            }
            if str_eq(name.as_str(), "") {
                world
            } else {
                assert(name@.len() != 0) by {
                    if name@.len() == 0 {
                        assert(name@ =~= ""@);
                    }
                }
                let w = concat(&world, " · ");
                concat(&w, name.as_str())
            }
        },
        None => world,
    }
}

/// A public instance without its options: what makes two friends be in the same one.
pub fn public_instance_key(location: &str) -> (r: String)
    ensures
        r@ == before_char(location@, '~'),
{
    string_of(&before_char_exec(&chars_of(location), '~'))
}

/// The friend is somewhere in VRChat.
pub fn friend_is_in_vrchat(friend: &FriendPresence) -> (r: bool)
    ensures
        r == instance_location(friend@) is Some,
{
    friend_instance_location(friend).is_some()
}

/// The section of the friends list a friend falls in.
pub open spec fn section_of(p: PresenceView, favorites: Seq<Seq<char>>) -> FriendSection {
    if favorites.contains(p.user_id) {
        FriendSection::Favorites
    } else if public_location(p) is Some {
        FriendSection::InVrchat
    } else if instance_location(p) is Some {
        FriendSection::Private
    } else if p.online {
        FriendSection::Web
    } else {
        FriendSection::Offline
    }
}

pub fn friend_section(friend: &FriendPresence, favorite_friend_ids: &Vec<String>) -> (r: FriendSection)
    ensures
        r == section_of(friend@, strs(favorite_friend_ids@)),
{
    if crate::text::any_eq(favorite_friend_ids, friend.user_id.as_str()) {
        FriendSection::Favorites
    } else if public_instance_location(friend).is_some() {
        FriendSection::InVrchat
    } else if friend_is_in_vrchat(friend) {
        FriendSection::Private
    } else if friend.online {
        FriendSection::Web
    } else {
        FriendSection::Offline
    }
}

/// The friend is listed under the section in the sidebar. Favorites are listed
/// under their own section only; an offline friend is listed as offline even where
/// the list still knows a location.
pub open spec fn in_sidebar_section(section: FriendSection, p: PresenceView, favorites: Seq<Seq<char>>) -> bool {
    let fav = favorites.contains(p.user_id);
    match section {
        FriendSection::Favorites => fav,
        FriendSection::InVrchat => !fav && public_location(p) is Some,
        FriendSection::Private => !fav && instance_location(p) is Some && public_location(p) is None,
        FriendSection::Web => !fav && p.online && instance_location(p) is None,
        FriendSection::Offline => !fav && !p.online,
    }
}

/// The positions of the friends the sidebar lists under the section, in order.
pub open spec fn sidebar_members(section: FriendSection, friends: Seq<FriendPresence>, favorites: Seq<Seq<char>>) -> Seq<int>
    decreases friends.len(),
{
    if friends.len() == 0 {
        Seq::empty()
    } else {
        let prev = sidebar_members(section, friends.drop_last(), favorites);
        if in_sidebar_section(section, friends.last()@, favorites) {
            prev.push(friends.len() - 1)
        } else {
            prev
        }
    }
}

/// The positions of the friends the sidebar lists under the section, in order.
pub fn sidebar_section_indices(friends: &Vec<FriendPresence>, favorite_friend_ids: &Vec<String>, section: FriendSection) -> (r: Vec<usize>)
    ensures
        r@.map_values(|i: usize| i as int) == sidebar_members(section, friends@, strs(favorite_friend_ids@)),
{
    let ghost favs = strs(favorite_friend_ids@);
    let mut out: Vec<usize> = Vec::new();
    let n = friends.len();
    assert(friends@.take(0) =~= Seq::<FriendPresence>::empty());
    assert(out@.map_values(|i: usize| i as int) =~= Seq::<int>::empty());
    for i in 0..n
        invariant
            n == friends@.len(),
            favs == strs(favorite_friend_ids@),
            out@.map_values(|i: usize| i as int) == sidebar_members(section, friends@.take(i as int), favs),
    {
        proof {
            assert(friends@.take(i + 1).drop_last() =~= friends@.take(i as int));
            assert(friends@.take(i + 1).last() == friends@[i as int]);
        }
        let f = &friends[i];
        let fav = crate::text::any_eq(favorite_friend_ids, f.user_id.as_str());
        let listed = match section {
            FriendSection::Favorites => fav,
            FriendSection::InVrchat => !fav && public_instance_location(f).is_some(),
            FriendSection::Private => !fav && friend_is_in_vrchat(f) && public_instance_location(f).is_none(),
            FriendSection::Web => !fav && f.online && !friend_is_in_vrchat(f),
            FriendSection::Offline => !fav && !f.online,
        };
        if listed {
            let ghost before = out@.map_values(|i: usize| i as int);
            out.push(i);
            assert(out@.map_values(|i: usize| i as int) =~= before.push(i as int));
        }
    }
    assert(friends@.take(n as int) =~= friends@);
    out
}

/// A public instance is a world instance of an online friend with none of the
/// markers of a closed instance: a location holding `~private(`, `~friends(`,
/// `~hidden(`, `~invite(`, `~invite+(` or `~group(` is never public, and a friend there
/// who is not a favorite is listed under the private instances.
pub proof fn law_closed_instances_are_not_public(p: PresenceView, favorites: Seq<Seq<char>>)
    ensures
        public_location(p) matches Some(l) ==> {
            &&& p.online
            &&& instance_location(p) == Some(l)
            &&& "wrld_"@.is_prefix_of(l)
            &&& !contains_seq(l, "~private("@)
            &&& !contains_seq(l, "~friends("@)
            &&& !contains_seq(l, "~hidden("@)
            &&& !contains_seq(l, "~invite("@)
            &&& !contains_seq(l, "~invite+("@)
            &&& !contains_seq(l, "~group("@)
        },
        instance_location(p) matches Some(l) ==> ((contains_seq(l, "~private("@) || contains_seq(l, "~friends("@)
            || contains_seq(l, "~hidden("@) || contains_seq(l, "~invite("@) || contains_seq(l, "~invite+("@)
            || contains_seq(l, "~group("@)) && !favorites.contains(p.user_id) ==> section_of(p, favorites)
            == FriendSection::Private),
{
}

/// Where a friend is listed: favorites under the favorites whatever they are doing;
/// anyone else under the public instances when in one, under the private instances when
/// in another instance, on the web when online nowhere in VRChat, and offline when
/// neither online nor in an instance.
pub proof fn law_friend_sections(p: PresenceView, favorites: Seq<Seq<char>>)
    ensures
        favorites.contains(p.user_id) ==> section_of(p, favorites) == FriendSection::Favorites,
        !favorites.contains(p.user_id) && public_location(p) is Some ==> section_of(p, favorites) == FriendSection::InVrchat,
        !favorites.contains(p.user_id) && public_location(p) is None && instance_location(p) is Some ==> section_of(
            p,
            favorites,
        ) == FriendSection::Private,
        !favorites.contains(p.user_id) && instance_location(p) is None && p.online ==> section_of(p, favorites)
            == FriendSection::Web,
        !favorites.contains(p.user_id) && instance_location(p) is None && !p.online ==> section_of(p, favorites)
            == FriendSection::Offline,
        !p.online ==> public_location(p) is None,
{
}

} // verus!
