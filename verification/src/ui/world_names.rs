//! Which worlds still need a name: those the friends are in or travelling to and those
//! the recent events name, unless the name is known or already asked for.
use vstd::prelude::*;
use crate::decode::opt_str;
use crate::json::{Json, JsonView};
use crate::store::location_world;
use crate::store::reducer::RecentPipelineEvent;
use crate::store::state::{FriendPresence, PresenceView};
use crate::text::{any_eq, chars_of, owned, strs};
use crate::ui::activity::{event_world_ids, event_worlds};
use crate::ui::friends::world_id_from_location;
use crate::ui::thumbnails::present;

verus! {

/// The world of a location, where it has one.
pub open spec fn opt_location_world(location: Option<Seq<char>>) -> Option<Seq<char>> {
    match location {
        Some(l) => location_world(l),
        None => None,
    }
}

/// The worlds a friend is in or travelling to.
pub open spec fn friend_worlds(p: PresenceView) -> Seq<Seq<char>> {
    present(seq![p.world_id, opt_location_world(p.location), opt_location_world(p.traveling_to_location)])
}

/// Some friend is in or travelling to the world.
pub open spec fn among_friends(friends: Seq<FriendPresence>, id: Seq<char>) -> bool {
    exists|k: int| 0 <= k < friends.len() && #[trigger] friend_worlds(friends[k]@).contains(id)
}

/// Some recent event names the world.
pub open spec fn among_events(events: Seq<RecentPipelineEvent>, id: Seq<char>) -> bool {
    exists|k: int| 0 <= k < events.len() && #[trigger] event_worlds(events[k].event).contains(id)
}

/// The world's name is neither known nor asked for.
pub open spec fn unasked(id: Seq<char>, known: Seq<Seq<char>>, pending: Seq<Seq<char>>) -> bool {
    !known.contains(id) && !pending.contains(id)
}

fn opt_world(location: &Option<String>) -> (r: Option<String>)
    ensures
        opt_str(r) == opt_location_world(opt_str(*location)),
{
    match location {
        Some(l) => world_id_from_location(l.as_str()),
        None => None,
    }
}

fn push_some(out: &mut Vec<String>, o: Option<String>)
    ensures
        strs(final(out)@) == strs(old(out)@) + present(seq![opt_str(o)]),
{
    let ghost start = strs(out@);
    let ghost one = seq![opt_str(o)];
    assert(one.drop_last() =~= Seq::<Option<Seq<char>>>::empty());
    assert(present(Seq::<Option<Seq<char>>>::empty()) == Seq::<Seq<char>>::empty());
    assert(present(one) =~= Seq::<Seq<char>>::empty() + match one.last() {
        Some(u) => seq![u],
        None => Seq::<Seq<char>>::empty(),
    });
    match o {
        Some(id) => {
            out.push(id);
            assert(strs(out@) =~= start + seq![id@]);
        },
        None => {
            assert(strs(out@) =~= start + Seq::<Seq<char>>::empty());
        },
    }
}

/// The texts present after one more item are those before and that item's.
proof fn lemma_present_push(a: Seq<Option<Seq<char>>>, x: Option<Seq<char>>)
    ensures
        present(a.push(x)) == present(a) + present(seq![x]),
{
    assert(a.push(x).drop_last() =~= a);
    assert(seq![x].drop_last() =~= Seq::<Option<Seq<char>>>::empty());
    assert(present(Seq::<Option<Seq<char>>>::empty()) == Seq::<Seq<char>>::empty());
    assert(present(seq![x]) =~= Seq::<Seq<char>>::empty() + match x {
        Some(u) => seq![u],
        None => Seq::<Seq<char>>::empty(),
    });
    match x {
        Some(u) => assert(present(seq![x]) =~= seq![u]),
        None => assert(present(seq![x]) =~= Seq::<Seq<char>>::empty()),
    }
}

/// The worlds a friend is in or travelling to.
fn friend_world_ids(p: &FriendPresence) -> (r: Vec<String>)
    ensures
        strs(r@) == friend_worlds(p@),
{
    let mut out: Vec<String> = Vec::new();
    assert(strs(out@) =~= Seq::<Seq<char>>::empty());
    let a = match &p.world_id {
        Some(w) => Some(w.clone()),
        None => None,
    };
    push_some(&mut out, a);
    push_some(&mut out, opt_world(&p.location));
    push_some(&mut out, opt_world(&p.traveling_to_location));
    let ghost w = p@.world_id;
    let ghost l = opt_location_world(p@.location);
    let ghost t = opt_location_world(p@.traveling_to_location);
    proof {
        lemma_present_push(seq![w], l);
        lemma_present_push(seq![w, l], t);
        assert(seq![w].push(l) =~= seq![w, l]);
        assert(seq![w, l].push(t) =~= seq![w, l, t]);
    }
    assert(strs(out@) =~= friend_worlds(p@));
    out
}

/// Adds each id whose name is neither known nor asked for, once.
fn add_unasked(out: &mut Vec<String>, ids: &Vec<String>, known: &Vec<String>, pending: &Vec<String>)
    requires
        strs(old(out)@).no_duplicates(),
    ensures
        strs(final(out)@).no_duplicates(),
        forall|id: Seq<char>| #[trigger] strs(final(out)@).contains(id) == (strs(old(out)@).contains(id) || (strs(
            ids@,
        ).contains(id) && unasked(id, strs(known@), strs(pending@)))),
{
    let ghost start = strs(out@);
    let n = ids.len();
    for j in 0..n
        invariant
            n == ids@.len(),
            strs(out@).no_duplicates(),
            forall|id: Seq<char>| #[trigger] strs(out@).contains(id) == (start.contains(id) || (strs(ids@).take(j as int).contains(id)
                && unasked(id, strs(known@), strs(pending@)))),
    {
        let id = &ids[j];
        let ghost before = strs(out@);
        assert(strs(ids@).take(j + 1) =~= strs(ids@).take(j as int).push(id@));
        if !any_eq(known, id.as_str()) && !any_eq(pending, id.as_str()) && !any_eq(out, id.as_str()) {
            out.push(id.clone());
            assert(strs(out@) =~= before.push(id@));
            assert forall|x: Seq<char>| #[trigger] strs(out@).contains(x) == (before.contains(x) || x == id@) by {
                if strs(out@).contains(x) && x != id@ {
                    let k = choose|k: int| 0 <= k < strs(out@).len() && strs(out@)[k] == x;
                    assert(before[k] == x);
                }
                if before.contains(x) {
                    let k = choose|k: int| 0 <= k < before.len() && before[k] == x;
                    assert(strs(out@)[k] == x);
                }
                if x == id@ {
                    assert(strs(out@)[before.len() as int] == x);
                }
            }
            assert forall|a: int, b: int| 0 <= a < strs(out@).len() && 0 <= b < strs(out@).len() && a != b implies strs(out@)[a]
                != strs(out@)[b] by {
                if a == before.len() as int {
                    assert(before.contains(strs(out@)[b]));
                } else if b == before.len() as int {
                    assert(before.contains(strs(out@)[a]));
                }
            }
        }
        assert forall|x: Seq<char>| strs(ids@).take(j + 1).contains(x) == (strs(ids@).take(j as int).contains(x) || x == id@) by {
            let t = strs(ids@).take(j as int);
            if strs(ids@).take(j + 1).contains(x) && x != id@ {
                let k = choose|k: int| 0 <= k < t.push(id@).len() && t.push(id@)[k] == x;
                assert(t[k] == x);
            }
            if t.contains(x) {
                let k = choose|k: int| 0 <= k < t.len() && t[k] == x;
                assert(t.push(id@)[k] == x);
            }
            if x == id@ {
                assert(t.push(id@)[t.len() as int] == x);
            }
        }
    }
    assert(strs(ids@).take(n as int) =~= strs(ids@));
}

/// The worlds whose names are still to be asked for, each once: those the friends are
/// in or travelling to and those the recent events name, but for the ones whose name
/// is known or already asked for.
pub fn missing_world_ids(
    friends: &Vec<FriendPresence>,
    events: &Vec<RecentPipelineEvent>,
    known: &Vec<String>,
    pending: &Vec<String>,
) -> (r: Vec<String>)
    ensures
        strs(r@).no_duplicates(),
        forall|id: Seq<char>| #[trigger] strs(r@).contains(id) == ((among_friends(friends@, id) || among_events(events@, id))
            && unasked(id, strs(known@), strs(pending@))),
{
    let mut out: Vec<String> = Vec::new();
    assert(strs(out@) =~= Seq::<Seq<char>>::empty());
    let n = friends.len();
    for i in 0..n
        invariant
            n == friends@.len(),
            strs(out@).no_duplicates(),
            forall|id: Seq<char>| #[trigger] strs(out@).contains(id) == (among_friends(friends@.take(i as int), id) && unasked(
                id,
                strs(known@),
                strs(pending@),
            )),
    {
        let ids = friend_world_ids(&friends[i]);
        add_unasked(&mut out, &ids, known, pending);
        assert forall|id: Seq<char>| among_friends(friends@.take(i + 1), id) == (among_friends(friends@.take(i as int), id)
            || friend_worlds(friends@[i as int]@).contains(id)) by {
            if among_friends(friends@.take(i + 1), id) {
                let k = choose|k: int| 0 <= k < friends@.take(i + 1).len() && #[trigger] friend_worlds(friends@.take(i + 1)[k]@).contains(id);
                if k < i {
                    assert(friends@.take(i as int)[k] == friends@[k]);
                }
            }
            if among_friends(friends@.take(i as int), id) {
                let k = choose|k: int| 0 <= k < friends@.take(i as int).len() && #[trigger] friend_worlds(friends@.take(i as int)[k]@).contains(id);
                assert(friends@.take(i + 1)[k] == friends@.take(i as int)[k]);
            }
            if friend_worlds(friends@[i as int]@).contains(id) {
                assert(friends@.take(i + 1)[i as int] == friends@[i as int]);
            }
        }
    }
    assert(friends@.take(n as int) =~= friends@);
    let m = events.len();
    for j in 0..m
        invariant
            n == friends@.len(),
            m == events@.len(),
            strs(out@).no_duplicates(),
            forall|id: Seq<char>| #[trigger] strs(out@).contains(id) == ((among_friends(friends@, id) || among_events(
                events@.take(j as int),
                id,
            )) && unasked(id, strs(known@), strs(pending@))),
    {
        let ids = event_world_ids(&events[j].event);
        add_unasked(&mut out, &ids, known, pending);
        assert forall|id: Seq<char>| among_events(events@.take(j + 1), id) == (among_events(events@.take(j as int), id)
            || event_worlds(events@[j as int].event).contains(id)) by {
            if among_events(events@.take(j + 1), id) {
                let k = choose|k: int| 0 <= k < events@.take(j + 1).len() && #[trigger] event_worlds(events@.take(j + 1)[k].event).contains(id);
                if k < j {
                    assert(events@.take(j as int)[k] == events@[k]);
                }
            }
            if among_events(events@.take(j as int), id) {
                let k = choose|k: int| 0 <= k < events@.take(j as int).len() && #[trigger] event_worlds(events@.take(j as int)[k].event).contains(id);
                assert(events@.take(j + 1)[k] == events@.take(j as int)[k]);
            }
            if event_worlds(events@[j as int].event).contains(id) {
                assert(events@.take(j + 1)[j as int] == events@[j as int]);
            }
        }
    }
    assert(events@.take(m as int) =~= events@);
    out
}

/// The image of a world record: its thumbnail, else its image, where not empty.
pub open spec fn world_image(world: JsonView) -> Option<Seq<char>> {
    let picked = match world.field("thumbnailImageUrl"@) {
        Some(v) => v.text(),
        None => world.field_text("imageUrl"@),
    };
    match picked {
        Some(u) => if u.len() > 0 {
            Some(u)
        } else {
            None
        },
        None => None,
    }
}

/// The name and image a world lookup gives, or why it gives none.
pub open spec fn world_reply(world: JsonView) -> Result<(Seq<char>, Option<Seq<char>>), Seq<char>> {
    match world.field_text("name"@) {
        Some(name) => Ok((name, world_image(world))),
        None => Err("world response is missing name"@),
    }
}

/// Reads the name and image out of a world record.
pub fn world_name_reply(world: &Json) -> (r: Result<(String, Option<String>), String>)
    ensures
        match (r, world_reply(world@)) {
            (Ok((name, image)), Ok((n, i))) => name@ == n && opt_str(image) == i,
            (Err(e), Err(m)) => e@ == m,
            _ => false,
        },
{
    let name = match world.get("name") {
        Some(v) => match v.as_str() {
            Some(n) => n.clone(),
            None => return Err(owned("world response is missing name")),
        },
        None => return Err(owned("world response is missing name")),
    };
    let picked = match world.get("thumbnailImageUrl") {
        Some(v) => v.as_str(),
        None => match world.get("imageUrl") {
            Some(v) => v.as_str(),
            None => None,
        },
    };
    let image = match picked {
        Some(u) => if chars_of(u.as_str()).len() > 0 {
            Some(u.clone())
        } else {
            None
        },
        None => None,
    };
    Ok((name, image))
}

} // verus!
