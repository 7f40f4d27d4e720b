//! The favorite friends, grouped: one group for each favorite group of friends, with
//! the friends filed under it, and one for each tag that no such group claims;
//! groups are listed by name.
use vstd::prelude::*;
use crate::models::favorite::{Favorite, FavoriteGroup, FavoriteType};
use crate::text::{any_eq, chars_of, is_blank, is_blank_str, strs};
use crate::ui::favorites::{favorite_group_matches_tag, filed_under, group_matches};
use crate::ui::ordering::{lemma_text_le_total, lemma_text_le_transitive, text_le, text_le_exec};

verus! {

broadcast use vstd::seq_lib::group_to_multiset_ensures;

/// A group of favorite friends.
#[derive(Debug, Clone, PartialEq, Eq)]
pub struct FavoriteFriendGroup {
    pub name: String,
    pub display_name: String,
    /// The friends' ids; the order does not matter.
    pub friend_ids: Vec<String>,
}

/// The abstract value of a [`FavoriteFriendGroup`].
pub struct FavoriteFriendGroupView {
    pub name: Seq<char>,
    pub display_name: Seq<char>,
    pub friend_ids: Set<Seq<char>>,
}

impl View for FavoriteFriendGroup {
    type V = FavoriteFriendGroupView;

    open spec fn view(&self) -> FavoriteFriendGroupView {
        FavoriteFriendGroupView {
            name: self.name@,
            display_name: self.display_name@,
            friend_ids: strs(self.friend_ids@).to_set(),
        }
    }
}

/// The views of a list of groups.
pub open spec fn group_views(s: Seq<FavoriteFriendGroup>) -> Seq<FavoriteFriendGroupView> {
    s.map_values(|g: FavoriteFriendGroup| g@)
}

/// Every tag of the favorites, in order, repeats included.
pub open spec fn all_tags(fs: Seq<Favorite>) -> Seq<Seq<char>>
    decreases fs.len(),
{
    if fs.len() == 0 {
        Seq::empty()
    } else {
        all_tags(fs.drop_last()) + strs(fs.last().tags@)
    }
}

/// The items of `s`, each once, in the order they first come.
pub open spec fn distinct(s: Seq<Seq<char>>) -> Seq<Seq<char>>
    decreases s.len(),
{
    if s.len() == 0 {
        Seq::empty()
    } else {
        let d = distinct(s.drop_last());
        if d.contains(s.last()) {
            d
        } else {
            d.push(s.last())
        }
    }
}

/// Some favorite group of friends is the one `tag` names.
pub open spec fn claimed(groups: Seq<FavoriteGroup>, tag: Seq<char>) -> bool {
    exists|i: int| 0 <= i < groups.len() && groups[i].favorite_type == FavoriteType::Friend && group_matches(#[trigger] groups[i], tag)
}

/// The ids of the favorites filed under the group, in order.
pub open spec fn group_ids(g: FavoriteGroup, fs: Seq<Favorite>) -> Seq<Seq<char>>
    decreases fs.len(),
{
    if fs.len() == 0 {
        Seq::empty()
    } else {
        let p = group_ids(g, fs.drop_last());
        if filed_under(fs.last(), g) {
            p.push(fs.last().favorite_id@)
        } else {
            p
        }
    }
}

/// The ids of the favorites that carry the tag, in order.
pub open spec fn tag_ids(tag: Seq<char>, fs: Seq<Favorite>) -> Seq<Seq<char>>
    decreases fs.len(),
{
    if fs.len() == 0 {
        Seq::empty()
    } else {
        let p = tag_ids(tag, fs.drop_last());
        if strs(fs.last().tags@).contains(tag) {
            p.push(fs.last().favorite_id@)
        } else {
            p
        }
    }
}

/// The group of friends a favorite group makes: its display name, or its name where
/// that is blank.
pub open spec fn group_entry(g: FavoriteGroup, fs: Seq<Favorite>) -> FavoriteFriendGroupView {
    FavoriteFriendGroupView {
        name: g.name@,
        display_name: if is_blank(g.display_name@) {
            g.name@
        } else {
            g.display_name@
        },
        friend_ids: group_ids(g, fs).to_set(),
    }
}

/// The group of friends an unclaimed tag makes, named after the tag.
pub open spec fn tag_entry(tag: Seq<char>, fs: Seq<Favorite>) -> FavoriteFriendGroupView {
    FavoriteFriendGroupView { name: tag, display_name: tag, friend_ids: tag_ids(tag, fs).to_set() }
}

/// The groups the favorite groups of friends make, in their order.
pub open spec fn group_entries(groups: Seq<FavoriteGroup>, fs: Seq<Favorite>) -> Seq<FavoriteFriendGroupView>
    decreases groups.len(),
{
    if groups.len() == 0 {
        Seq::empty()
    } else {
        let p = group_entries(groups.drop_last(), fs);
        if groups.last().favorite_type == FavoriteType::Friend {
            p.push(group_entry(groups.last(), fs))
        } else {
            p
        }
    }
}

/// The groups the unclaimed tags make, in the order of the tags.
pub open spec fn tag_entries(tags: Seq<Seq<char>>, groups: Seq<FavoriteGroup>, fs: Seq<Favorite>) -> Seq<FavoriteFriendGroupView>
    decreases tags.len(),
{
    if tags.len() == 0 {
        Seq::empty()
    } else {
        let p = tag_entries(tags.drop_last(), groups, fs);
        if claimed(groups, tags.last()) {
            p
        } else {
            p.push(tag_entry(tags.last(), fs))
        }
    }
}

/// The groups of favorite friends, before they are put in order.
pub open spec fn friend_group_entries(groups: Seq<FavoriteGroup>, fs: Seq<Favorite>) -> Seq<FavoriteFriendGroupView> {
    group_entries(groups, fs) + tag_entries(distinct(all_tags(fs)), groups, fs)
}

/// The tags of the favorites, each once, in the order they first come.
fn distinct_tags(favorites: &Vec<Favorite>) -> (r: Vec<String>)
    ensures
        strs(r@) == distinct(all_tags(favorites@)),
{
    let ghost fs = favorites@;
    let mut out: Vec<String> = Vec::new();
    let n = favorites.len();
    assert(fs.take(0) =~= Seq::<Favorite>::empty());
    assert(strs(out@) =~= Seq::<Seq<char>>::empty());
    for i in 0..n
        invariant
            n == favorites@.len(),
            fs == favorites@,
            strs(out@) == distinct(all_tags(fs.take(i as int))),
    {
        let ghost before = all_tags(fs.take(i as int));
        let tags = &favorites[i].tags;
        let ghost ts = strs(tags@);
        let m = tags.len();
        assert(before + ts.take(0) =~= before);
        for j in 0..m
            invariant
                m == tags@.len(),
                ts == strs(tags@),
                strs(out@) == distinct(before + ts.take(j as int)),
        {
            let ghost prefix = before + ts.take(j as int);
            assert((before + ts.take(j + 1)).drop_last() =~= prefix);
            assert((before + ts.take(j + 1)).last() == ts[j as int]);
            if !any_eq(&out, tags[j].as_str()) {
                out.push(tags[j].clone());
                assert(strs(out@) =~= distinct(prefix).push(ts[j as int]));
            }
        }
        assert(fs.take(i + 1).drop_last() =~= fs.take(i as int));
        assert(fs.take(i + 1).last() == fs[i as int]);
        assert(ts.take(m as int) =~= ts);
    }
    assert(fs.take(n as int) =~= fs);
    out
}

/// Whether some favorite group of friends is the one `tag` names.
fn is_claimed(groups: &Vec<FavoriteGroup>, tag: &str) -> (r: bool)
    ensures
        r == claimed(groups@, tag@),
{
    let n = groups.len();
    for i in 0..n
        invariant
            n == groups@.len(),
            forall|k: int| 0 <= k < i ==> !(groups@[k].favorite_type == FavoriteType::Friend && group_matches(#[trigger] groups@[k], tag@)),
    {
        if groups[i].favorite_type == FavoriteType::Friend && favorite_group_matches_tag(&groups[i], tag) {
            return true;
        }
    }
    false
}

/// Whether a favorite is filed under a group.
fn filed_under_group(f: &Favorite, g: &FavoriteGroup) -> (r: bool)
    ensures
        r == filed_under(*f, *g),
{
    let n = f.tags.len();
    for i in 0..n
        invariant
            n == f.tags@.len(),
            forall|j: int| 0 <= j < i ==> !group_matches(*g, #[trigger] f.tags@[j]@),
    {
        if favorite_group_matches_tag(g, f.tags[i].as_str()) {
            return true;
        }
    }
    false
}

/// The group a favorite group of friends makes.
fn group_entry_exec(g: &FavoriteGroup, favorites: &Vec<Favorite>) -> (r: FavoriteFriendGroup)
    ensures
        r@ == group_entry(*g, favorites@),
{
    let ghost fs = favorites@;
    let mut ids: Vec<String> = Vec::new();
    let n = favorites.len();
    assert(fs.take(0) =~= Seq::<Favorite>::empty());
    assert(strs(ids@) =~= Seq::<Seq<char>>::empty());
    for i in 0..n
        invariant
            n == favorites@.len(),
            fs == favorites@,
            strs(ids@) == group_ids(*g, fs.take(i as int)),
    {
        assert(fs.take(i + 1).drop_last() =~= fs.take(i as int));
        assert(fs.take(i + 1).last() == fs[i as int]);
        if filed_under_group(&favorites[i], g) {
            ids.push(favorites[i].favorite_id.clone());
            assert(strs(ids@) =~= group_ids(*g, fs.take(i as int)).push(fs[i as int].favorite_id@));
        }
    }
    assert(fs.take(n as int) =~= fs);
    let display_name = if is_blank_str(g.display_name.as_str()) {
        g.name.clone()
    } else {
        g.display_name.clone()
    };
    FavoriteFriendGroup { name: g.name.clone(), display_name, friend_ids: ids }
}

/// The group an unclaimed tag makes.
fn tag_entry_exec(tag: &String, favorites: &Vec<Favorite>) -> (r: FavoriteFriendGroup)
    ensures
        r@ == tag_entry(tag@, favorites@),
{
    let ghost fs = favorites@;
    let mut ids: Vec<String> = Vec::new();
    let n = favorites.len();
    assert(fs.take(0) =~= Seq::<Favorite>::empty());
    assert(strs(ids@) =~= Seq::<Seq<char>>::empty());
    for i in 0..n
        invariant
            n == favorites@.len(),
            fs == favorites@,
            strs(ids@) == tag_ids(tag@, fs.take(i as int)),
    {
        assert(fs.take(i + 1).drop_last() =~= fs.take(i as int));
        assert(fs.take(i + 1).last() == fs[i as int]);
        if any_eq(&favorites[i].tags, tag.as_str()) {
            ids.push(favorites[i].favorite_id.clone());
            assert(strs(ids@) =~= tag_ids(tag@, fs.take(i as int)).push(fs[i as int].favorite_id@));
        }
    }
    assert(fs.take(n as int) =~= fs);
    FavoriteFriendGroup { name: tag.clone(), display_name: tag.clone(), friend_ids: ids }
}

/// Where a group named `name` goes among groups sorted by name: after every name that
/// comes no later.
fn name_position(sorted: &Vec<FavoriteFriendGroup>, name: &Vec<char>) -> (p: usize)
    ensures
        p <= sorted@.len(),
        forall|k: int| 0 <= k < p ==> text_le(#[trigger] sorted@[k].name@, name@),
        p < sorted@.len() ==> text_le(name@, sorted@[p as int].name@),
{
    let n = sorted.len();
    let mut p: usize = 0;
    while p < n
        invariant
            n == sorted@.len(),
            p <= n,
            forall|k: int| 0 <= k < p ==> text_le(#[trigger] sorted@[k].name@, name@),
        decreases n - p,
    {
        let other = chars_of(sorted[p].name.as_str());
        proof {
            lemma_text_le_total(name@, other@);
        }
        if !text_le_exec(&other, name) {
            return p;
        }
        p = p + 1;
    }
    p
}

/// The groups sorted by name.
fn sort_by_name(groups: Vec<FavoriteFriendGroup>) -> (r: Vec<FavoriteFriendGroup>)
    ensures
        group_views(r@).to_multiset() == group_views(groups@).to_multiset(),
        forall|i: int, j: int| 0 <= i < j < r@.len() ==> text_le(#[trigger] r@[i].name@, #[trigger] r@[j].name@),
{
    let ghost all = group_views(groups@);
    let mut rest = groups;
    let mut out: Vec<FavoriteFriendGroup> = Vec::new();
    assert(group_views(out@) =~= Seq::<FavoriteFriendGroupView>::empty());
    while rest.len() > 0
        invariant
            group_views(out@).to_multiset().add(group_views(rest@).to_multiset()) == all.to_multiset(),
            forall|i: int, j: int| 0 <= i < j < out@.len() ==> text_le(#[trigger] out@[i].name@, #[trigger] out@[j].name@),
        decreases rest@.len(),
    {
        let ghost before_rest = rest@;
        let g = rest.pop().unwrap();
        assert(group_views(before_rest) =~= group_views(rest@).push(g@));
        let name = chars_of(g.name.as_str());
        let p = name_position(&out, &name);
        let ghost before = out@;
        out.insert(p, g);
        proof {
            assert(out@ == before.insert(p as int, g));
            assert(group_views(out@).remove(p as int) =~= group_views(before));
            assert(group_views(out@)[p as int] == g@);
            assert(group_views(out@).to_multiset() =~= group_views(before).to_multiset().insert(g@));
            assert forall|i: int, j: int| 0 <= i < j < out@.len() implies text_le(
                #[trigger] out@[i].name@,
                #[trigger] out@[j].name@,
            ) by {
                if i < p && j < p {
                    assert(out@[i] == before[i] && out@[j] == before[j]);
                } else if i < p && j == p {
                    assert(out@[i] == before[i]);
                } else if i < p && j > p {
                    assert(out@[i] == before[i] && out@[j] == before[j - 1]);
                    if p as int != j - 1 {
                        assert(text_le(before[p as int].name@, before[j - 1].name@));
                        lemma_text_le_transitive(g.name@, before[p as int].name@, before[j - 1].name@);
                    }
                    lemma_text_le_transitive(before[i].name@, g.name@, before[j - 1].name@);
                } else if i == p {
                    assert(out@[j] == before[j - 1]);
                    if j - 1 != p as int {
                        assert(text_le(before[p as int].name@, before[j - 1].name@));
                        lemma_text_le_transitive(g.name@, before[p as int].name@, before[j - 1].name@);
                    }
                } else {
                    assert(out@[i] == before[i - 1] && out@[j] == before[j - 1]);
                }
            }
        }
    }
    out
}

/// The groups of favorite friends: one for each favorite group of friends (with the
/// friends whose favorites are filed under it), then one for each tag of the
/// favorites that no such group is named by, all listed by name.
pub fn favorite_friend_groups(groups: &Vec<FavoriteGroup>, favorites: &Vec<Favorite>) -> (r: Vec<FavoriteFriendGroup>)
    ensures
        group_views(r@).to_multiset() == friend_group_entries(groups@, favorites@).to_multiset(),
        forall|i: int, j: int| 0 <= i < j < r@.len() ==> text_le(#[trigger] r@[i].name@, #[trigger] r@[j].name@),
{
    let ghost gs = groups@;
    let ghost fs = favorites@;
    let mut out: Vec<FavoriteFriendGroup> = Vec::new();
    let n = groups.len();
    assert(gs.take(0) =~= Seq::<FavoriteGroup>::empty());
    assert(group_views(out@) =~= Seq::<FavoriteFriendGroupView>::empty());
    for i in 0..n
        invariant
            n == groups@.len(),
            gs == groups@,
            fs == favorites@,
            group_views(out@) == group_entries(gs.take(i as int), fs),
    {
        assert(gs.take(i + 1).drop_last() =~= gs.take(i as int));
        assert(gs.take(i + 1).last() == gs[i as int]);
        if groups[i].favorite_type == FavoriteType::Friend {
            let entry = group_entry_exec(&groups[i], favorites);
            let ghost before = group_views(out@);
            out.push(entry);
            assert(group_views(out@) =~= before.push(entry@));
        }
    }
    assert(gs.take(n as int) =~= gs);
    let tags = distinct_tags(favorites);
    let ghost ts = strs(tags@);
    let ghost head = group_views(out@);
    let m = tags.len();
    assert(ts.take(0) =~= Seq::<Seq<char>>::empty());
    assert(head + tag_entries(ts.take(0), gs, fs) =~= head);
    for j in 0..m
        invariant
            m == tags@.len(),
            ts == strs(tags@),
            gs == groups@,
            fs == favorites@,
            head == group_entries(gs, fs),
            group_views(out@) == head + tag_entries(ts.take(j as int), gs, fs),
    {
        assert(ts.take(j + 1).drop_last() =~= ts.take(j as int));
        assert(ts.take(j + 1).last() == ts[j as int]);
        if !is_claimed(groups, tags[j].as_str()) {
            let entry = tag_entry_exec(&tags[j], favorites);
            let ghost before = group_views(out@);
            out.push(entry);
            proof {
                assert(tags@[j as int]@ == ts[j as int]);
                assert(!claimed(gs, ts[j as int]));
                assert(group_views(out@) =~= before.push(entry@));
                assert(tag_entries(ts.take(j + 1), gs, fs) == tag_entries(ts.take(j as int), gs, fs).push(
                    tag_entry(ts[j as int], fs),
                ));
                assert(group_views(out@) =~= head + tag_entries(ts.take(j + 1), gs, fs));
            }
        }
    }
    assert(ts.take(m as int) =~= ts);
    sort_by_name(out)
}

/// The ids of all favorite friends.
pub fn favorite_friend_ids(favorites: &Vec<Favorite>) -> (r: Vec<String>)
    ensures
        strs(r@).to_set() == favorites@.map_values(|f: Favorite| f.favorite_id@).to_set(),
{
    let mut out: Vec<String> = Vec::new();
    let n = favorites.len();
    for i in 0..n
        invariant
            n == favorites@.len(),
            out@.len() == i,
            forall|k: int| 0 <= k < i ==> #[trigger] out@[k]@ == favorites@[k].favorite_id@,
    {
        out.push(favorites[i].favorite_id.clone());
    }
    assert(strs(out@) =~= favorites@.map_values(|f: Favorite| f.favorite_id@));
    out
}

} // verus!
