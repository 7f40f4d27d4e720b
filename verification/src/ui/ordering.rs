//! The order friends are listed in: a rank first (online before offline, or the
//! sections of the friends list in their order), then the lower-cased name.
use vstd::prelude::*;
use crate::store::state::{FriendPresence, PresenceView};
use crate::text::{chars_of, strs};
use crate::json::{items_view, lemma_items_view, Json, JsonView};
use crate::ui::cards::{friend_record, friend_result_item};
use crate::ui::friends::{friend_section, section_of, FriendSection};

verus! {

broadcast use vstd::seq_lib::group_to_multiset_ensures;

/// The result of `str::to_lowercase` (Unicode lowercase mapping).
pub uninterp spec fn lowercase(s: Seq<char>) -> Seq<char>;

/// `str::to_lowercase`: the Unicode lowercase of `s`, a function of `s` alone.
#[verifier::external_body]
pub(crate) fn to_lowercase(s: &str) -> (r: String)
    ensures
        r@ == lowercase(s@),
{
    s.to_lowercase()
}

/// `a` comes no later than `b` in the order of `str`'s comparison: character by
/// character, a proper prefix first.
pub open spec fn text_le(a: Seq<char>, b: Seq<char>) -> bool
    decreases a.len(),
{
    if a.len() == 0 {
        true
    } else if b.len() == 0 {
        false
    } else if (a[0] as u32) < (b[0] as u32) {
        true
    } else if (a[0] as u32) > (b[0] as u32) {
        false
    } else {
        text_le(a.drop_first(), b.drop_first())
    }
}

/// Any two texts are ordered one way or the other.
pub proof fn lemma_text_le_total(a: Seq<char>, b: Seq<char>)
    ensures
        text_le(a, b) || text_le(b, a),
    decreases a.len(),
{
    if a.len() > 0 && b.len() > 0 && a[0] as u32 == b[0] as u32 {
        lemma_text_le_total(a.drop_first(), b.drop_first());
    }
}

/// The order of texts is transitive.
pub proof fn lemma_text_le_transitive(a: Seq<char>, b: Seq<char>, c: Seq<char>)
    requires
        text_le(a, b),
        text_le(b, c),
    ensures
        text_le(a, c),
    decreases a.len(),
{
    if a.len() > 0 && b.len() > 0 && c.len() > 0 && a[0] as u32 == b[0] as u32 && b[0] as u32 == c[0] as u32 {
        lemma_text_le_transitive(a.drop_first(), b.drop_first(), c.drop_first());
    }
}

/// Whether `a` comes no later than `b`.
pub(crate) fn text_le_exec(a: &Vec<char>, b: &Vec<char>) -> (r: bool)
    ensures
        r == text_le(a@, b@),
{
    let n = a.len();
    let m = b.len();
    let mut i: usize = 0;
    assert(a@.skip(0) =~= a@ && b@.skip(0) =~= b@);
    while i < n
        invariant
            n == a@.len(),
            m == b@.len(),
            i <= n,
            text_le(a@, b@) == text_le(a@.skip(i as int), b@.skip(i as int)),
            i <= m,
        decreases n - i,
    {
        let ghost sa = a@.skip(i as int);
        let ghost sb = b@.skip(i as int);
        if i == m {
            return false;
        }
        let x = a[i] as u32;
        let y = b[i] as u32;
        assert(sa[0] == a@[i as int] && sb[0] == b@[i as int]);
        if x < y {
            return true;
        }
        if x > y {
            return false;
        }
        assert(sa.drop_first() =~= a@.skip(i + 1));
        assert(sb.drop_first() =~= b@.skip(i + 1));
        i = i + 1;
    }
    assert(a@.skip(n as int).len() == 0);
    true
}

/// The name a friend is listed under, lower-cased: the display name, else the id.
pub open spec fn listed_name(p: PresenceView) -> Seq<char> {
    lowercase(
        match p.display_name {
            Some(n) => n,
            None => p.user_id,
        },
    )
}

/// How friends are ranked before their names.
pub enum FriendRank {
    /// Online friends first.
    OnlineFirst,
    /// By the section of the friends list, given the favorite friends' ids.
    BySection(Vec<String>),
}

/// The rank of a friend.
pub open spec fn rank_of(rank: FriendRank, p: PresenceView) -> int {
    match rank {
        FriendRank::OnlineFirst => if p.online {
            0
        } else {
            1
        },
        FriendRank::BySection(favorites) => match section_of(p, strs(favorites@)) {
            FriendSection::Favorites => 0,
            FriendSection::InVrchat => 1,
            FriendSection::Private => 2,
            FriendSection::Web => 3,
            FriendSection::Offline => 4,
        },
    }
}

/// A rank and name come no later than another.
pub open spec fn key_before(r1: int, n1: Seq<char>, r2: int, n2: Seq<char>) -> bool {
    r1 < r2 || (r1 == r2 && text_le(n1, n2))
}

/// `p` is listed no later than `q`.
pub open spec fn listed_before(rank: FriendRank, p: PresenceView, q: PresenceView) -> bool {
    key_before(rank_of(rank, p), listed_name(p), rank_of(rank, q), listed_name(q))
}

/// Where a friend with the key `(kr, kn)` goes among sorted keys: after every key
/// that comes no later, before the first that comes strictly later.
fn insertion_point(keys: &Vec<(u8, Vec<char>)>, kr: u8, kn: &Vec<char>) -> (p: usize)
    ensures
        p <= keys@.len(),
        forall|k: int| 0 <= k < p ==> key_before(#[trigger] keys@[k].0 as int, keys@[k].1@, kr as int, kn@),
        p < keys@.len() ==> key_before(kr as int, kn@, keys@[p as int].0 as int, keys@[p as int].1@),
{
    let n = keys.len();
    let mut p: usize = 0;
    while p < n
        invariant
            n == keys@.len(),
            p <= n,
            forall|k: int| 0 <= k < p ==> key_before(#[trigger] keys@[k].0 as int, keys@[k].1@, kr as int, kn@),
        decreases n - p,
    {
        let kp = keys[p].0;
        let after = kr < kp || (kr == kp && !text_le_exec(&keys[p].1, kn));
        proof {
            lemma_text_le_total(kn@, keys@[p as int].1@);
        }
        if after {
            return p;
        }
        p = p + 1;
    }
    p
}

/// The friends are in listing order.
pub open spec fn in_listing_order(rank: FriendRank, s: Seq<FriendPresence>) -> bool {
    forall|i: int, j: int| 0 <= i < j < s.len() ==> listed_before(rank, #[trigger] s[i]@, #[trigger] s[j]@)
}

fn rank_exec(rank: &FriendRank, p: &FriendPresence) -> (r: u8)
    ensures
        r as int == rank_of(*rank, p@),
{
    match rank {
        FriendRank::OnlineFirst => if p.online {
            0
        } else {
            1
        },
        FriendRank::BySection(favorites) => match friend_section(p, favorites) {
            FriendSection::Favorites => 0,
            FriendSection::InVrchat => 1,
            FriendSection::Private => 2,
            FriendSection::Web => 3,
            FriendSection::Offline => 4,
        },
    }
}

fn listed_name_exec(p: &FriendPresence) -> (r: Vec<char>)
    ensures
        r@ == listed_name(p@),
{
    let lowered = match &p.display_name {
        Some(n) => to_lowercase(n.as_str()),
        None => to_lowercase(p.user_id.as_str()),
    };
    chars_of(lowered.as_str())
}

/// The friends in listing order: by rank, then by lower-cased name.
pub fn sort_friends(friends: Vec<FriendPresence>, rank: &FriendRank) -> (r: Vec<FriendPresence>)
    ensures
        r@.to_multiset() == friends@.to_multiset(),
        in_listing_order(*rank, r@),
{
    let ghost all = friends@;
    let mut rest = friends;
    let mut out: Vec<FriendPresence> = Vec::new();
    let mut keys: Vec<(u8, Vec<char>)> = Vec::new();
    while rest.len() > 0
        invariant
            out@.to_multiset().add(rest@.to_multiset()) == all.to_multiset(),
            keys@.len() == out@.len(),
            forall|k: int| 0 <= k < keys@.len() ==> #[trigger] keys@[k].0 as int == rank_of(*rank, out@[k]@)
                && keys@[k].1@ == listed_name(out@[k]@),
            in_listing_order(*rank, out@),
        decreases rest@.len(),
    {
        let ghost before_rest = rest@;
        let f = rest.pop().unwrap();
        assert(before_rest =~= rest@.push(f));
        let kr = rank_exec(rank, &f);
        let kn = listed_name_exec(&f);
        let p = insertion_point(&keys, kr, &kn);
        let ghost n = out@.len();
        proof {
            assert forall|k: int| 0 <= k < p implies listed_before(*rank, #[trigger] out@[k]@, f@) by {
                assert(keys@[k].0 as int == rank_of(*rank, out@[k]@));
            }
            if p < n {
                assert(keys@[p as int].0 as int == rank_of(*rank, out@[p as int]@));
            }
        }
        let ghost before = out@;
        assert(p < n ==> listed_before(*rank, f@, before[p as int]@));
        out.insert(p, f);
        keys.insert(p, (kr, kn));
        proof {
            assert(out@ == before.insert(p as int, f));
            assert(out@.remove(p as int) =~= before);
            assert(out@[p as int] == f);
            assert(out@.to_multiset() =~= before.to_multiset().insert(f));
            assert forall|i: int, j: int| 0 <= i < j < out@.len() implies listed_before(
                *rank,
                #[trigger] out@[i]@,
                #[trigger] out@[j]@,
            ) by {
                let a = out@[i]@;
                let b = out@[j]@;
                if i < p && j < p {
                    assert(out@[i] == before[i] && out@[j] == before[j]);
                } else if i < p && j == p {
                    assert(out@[i] == before[i]);
                } else if i < p && j > p {
                    assert(out@[i] == before[i] && out@[j] == before[j - 1]);
                    assert(listed_before(*rank, before[i]@, f@));
                    if j - 1 == p as int {
                    }
                    assert(listed_before(*rank, f@, before[p as int]@));
                    if p as int != j - 1 {
                        assert(listed_before(*rank, before[p as int]@, before[j - 1]@));
                    }
                    lemma_listed_before_transitive(*rank, before[i]@, f@, before[p as int]@);
                    if p as int != j - 1 {
                        lemma_listed_before_transitive(*rank, before[i]@, before[p as int]@, before[j - 1]@);
                    }
                } else if i == p {
                    assert(out@[j] == before[j - 1]);
                    if j - 1 != p as int {
                        assert(listed_before(*rank, before[p as int]@, before[j - 1]@));
                        lemma_listed_before_transitive(*rank, f@, before[p as int]@, before[j - 1]@);
                    }
                } else {
                    assert(out@[i] == before[i - 1] && out@[j] == before[j - 1]);
                }
            }
        }
    }
    out
}

/// Listing order is transitive.
pub proof fn lemma_listed_before_transitive(rank: FriendRank, a: PresenceView, b: PresenceView, c: PresenceView)
    requires
        listed_before(rank, a, b),
        listed_before(rank, b, c),
    ensures
        listed_before(rank, a, c),
{
    if rank_of(rank, a) == rank_of(rank, b) && rank_of(rank, b) == rank_of(rank, c) {
        lemma_text_le_transitive(listed_name(a), listed_name(b), listed_name(c));
    }
}

/// The records of the users page when nothing is searched: the friends, online
/// ones first, then by lower-cased name.
pub fn friends_page_records(friends: Vec<FriendPresence>) -> (r: Vec<Json>)
    ensures
        exists|order: Seq<FriendPresence>|
            #![trigger in_listing_order(FriendRank::OnlineFirst, order)]
            order.to_multiset() == friends@.to_multiset() && in_listing_order(FriendRank::OnlineFirst, order)
                && items_view(r@) == order.map_values(|p: FriendPresence| friend_record(p@)),
{
    let ghost original = friends@;
    let sorted = sort_friends(friends, &FriendRank::OnlineFirst);
    let mut out: Vec<Json> = Vec::new();
    let n = sorted.len();
    for i in 0..n
        invariant
            n == sorted@.len(),
            out@.len() == i,
            forall|k: int| 0 <= k < i ==> #[trigger] out@[k]@ == friend_record(sorted@[k]@),
    {
        out.push(friend_result_item(&sorted[i]).raw);
    }
    proof {
        lemma_items_view(out@);
        assert(items_view(out@) =~= sorted@.map_values(|p: FriendPresence| friend_record(p@)));
        assert(in_listing_order(FriendRank::OnlineFirst, sorted@));
    }
    out
}

/// Online friends come first: in a list in online-first order, nobody offline comes
/// before somebody online, and friends who are both online (or both offline) come in
/// the order of their lower-cased names.
pub proof fn law_online_friends_come_first(s: Seq<FriendPresence>)
    requires
        in_listing_order(FriendRank::OnlineFirst, s),
    ensures
        forall|i: int, j: int| 0 <= i < j < s.len() && (#[trigger] s[j])@.online ==> (#[trigger] s[i])@.online,
        forall|i: int, j: int| 0 <= i < j < s.len() && (#[trigger] s[i])@.online == (#[trigger] s[j])@.online
            ==> text_le(listed_name(s[i]@), listed_name(s[j]@)),
{
    assert forall|i: int, j: int| 0 <= i < j < s.len() && (#[trigger] s[j])@.online implies (#[trigger] s[i])@.online by {
        assert(listed_before(FriendRank::OnlineFirst, s[i]@, s[j]@));
    }
    assert forall|i: int, j: int| 0 <= i < j < s.len() && (#[trigger] s[i])@.online == (#[trigger] s[j])@.online implies text_le(
        listed_name(s[i]@),
        listed_name(s[j]@),
    ) by {
        assert(listed_before(FriendRank::OnlineFirst, s[i]@, s[j]@));
    }
}

/// In section order the favorite friends come first and the offline ones last: nobody
/// outside the favorites comes before a favorite, and nobody offline before somebody
/// who is not.
pub proof fn law_sections_put_favorites_first_and_offline_last(favorites: Vec<String>, s: Seq<FriendPresence>)
    requires
        in_listing_order(FriendRank::BySection(favorites), s),
    ensures
        forall|i: int, j: int| 0 <= i < j < s.len() && strs(favorites@).contains((#[trigger] s[j])@.user_id) ==> strs(
            favorites@,
        ).contains((#[trigger] s[i])@.user_id),
        forall|i: int, j: int| 0 <= i < j < s.len() && section_of((#[trigger] s[i])@, strs(favorites@))
            == FriendSection::Offline ==> section_of((#[trigger] s[j])@, strs(favorites@)) == FriendSection::Offline,
{
    let fav = strs(favorites@);
    assert forall|i: int, j: int| 0 <= i < j < s.len() && fav.contains((#[trigger] s[j])@.user_id) implies fav.contains(
        (#[trigger] s[i])@.user_id,
    ) by {
        assert(listed_before(FriendRank::BySection(favorites), s[i]@, s[j]@));
    }
    assert forall|i: int, j: int| 0 <= i < j < s.len() && section_of((#[trigger] s[i])@, fav) == FriendSection::Offline
        implies section_of((#[trigger] s[j])@, fav) == FriendSection::Offline by {
        assert(listed_before(FriendRank::BySection(favorites), s[i]@, s[j]@));
    }
}

} // verus!
