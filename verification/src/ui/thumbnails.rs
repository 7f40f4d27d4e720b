//! Which thumbnails the interface still needs: those of the rows the lists show, of the
//! relations of the open user, and of the accounts and the on-screen notifications.
//! Cached thumbnails outside this list are dropped.
use vstd::prelude::*;
use crate::decode::opt_str;
use crate::text::strs;

verus! {

/// At most this many relation rows keep their thumbnails.
pub const MAX_RELATION_THUMBNAILS: usize = 80;

/// The views of a list of optional texts.
pub open spec fn opt_strs_view(s: Seq<Option<String>>) -> Seq<Option<Seq<char>>> {
    s.map_values(|o: Option<String>| opt_str(o))
}

/// The texts present in `s`, in order.
pub open spec fn present(s: Seq<Option<Seq<char>>>) -> Seq<Seq<char>>
    decreases s.len(),
{
    if s.len() == 0 {
        Seq::empty()
    } else {
        present(s.drop_last()) + match s.last() {
            Some(u) => seq![u],
            None => Seq::empty(),
        }
    }
}

/// The first `n` items of `s`, or all of them where it holds fewer.
pub open spec fn first<T>(s: Seq<T>, n: int) -> Seq<T> {
    if n < s.len() {
        s.take(n)
    } else {
        s
    }
}

/// The thumbnails the interface needs: those of the first `resource_row_limit`
/// results, of the first relation rows (no more than [`MAX_RELATION_THUMBNAILS`]) of the
/// related users and groups and of the members of the friend groups, then `others`
/// (the friends shown, the accounts, the notifications), in that order.
pub open spec fn required_thumbnails(
    results: Seq<Option<Seq<char>>>,
    resource_row_limit: int,
    relations: Seq<Option<Seq<char>>>,
    members: Seq<Option<Seq<char>>>,
    relation_row_limit: int,
    others: Seq<Seq<char>>,
) -> Seq<Seq<char>> {
    let relation_limit = if relation_row_limit < MAX_RELATION_THUMBNAILS {
        relation_row_limit
    } else {
        MAX_RELATION_THUMBNAILS as int
    };
    present(first(results, resource_row_limit)) + present(first(relations, relation_limit)) + present(
        first(members, relation_limit),
    ) + others
}

/// Adds the texts present among the first `limit` items.
fn push_present(out: &mut Vec<String>, items: &Vec<Option<String>>, limit: usize)
    ensures
        strs(final(out)@) == strs(old(out)@) + present(first(opt_strs_view(items@), limit as int)),
{
    let ghost all = opt_strs_view(items@);
    let ghost start = strs(out@);
    let n = if limit < items.len() {
        limit
    } else {
        items.len()
    };
    assert(all.take(0) =~= Seq::<Option<Seq<char>>>::empty());
    assert(start + present(all.take(0)) =~= start);
    for i in 0..n
        invariant
            n <= items@.len(),
            all == opt_strs_view(items@),
            strs(out@) == start + present(all.take(i as int)),
    {
        assert(all.take(i + 1).drop_last() =~= all.take(i as int));
        assert(all.take(i + 1).last() == all[i as int]);
        match &items[i] {
            Some(url) => {
                let ghost before = strs(out@);
                out.push(url.clone());
                assert(strs(out@) =~= before.push(url@));
                assert(strs(out@) =~= start + present(all.take(i + 1)));
            },
            None => {
                assert(present(all.take(i + 1)) =~= present(all.take(i as int)));
            },
        }
    }
    assert(all.take(n as int) =~= first(all, limit as int));
}

/// The thumbnails the interface needs; see [`required_thumbnails`].
pub fn required_thumbnail_urls(
    results: &Vec<Option<String>>,
    resource_row_limit: usize,
    relations: &Vec<Option<String>>,
    members: &Vec<Option<String>>,
    relation_row_limit: usize,
    others: &Vec<String>,
) -> (r: Vec<String>)
    ensures
        strs(r@) == required_thumbnails(
            opt_strs_view(results@),
            resource_row_limit as int,
            opt_strs_view(relations@),
            opt_strs_view(members@),
            relation_row_limit as int,
            strs(others@),
        ),
{
    let relation_limit = if relation_row_limit < MAX_RELATION_THUMBNAILS {
        relation_row_limit
    } else {
        MAX_RELATION_THUMBNAILS
    };
    let mut out: Vec<String> = Vec::new();
    assert(strs(out@) =~= Seq::<Seq<char>>::empty());
    push_present(&mut out, results, resource_row_limit);
    push_present(&mut out, relations, relation_limit);
    push_present(&mut out, members, relation_limit);
    let ghost before = strs(out@);
    let n = others.len();
    for i in 0..n
        invariant
            n == others@.len(),
            strs(out@) == before + strs(others@).take(i as int),
    {
        let ghost prior = strs(out@);
        out.push(others[i].clone());
        assert(strs(out@) =~= prior.push(others@[i as int]@));
        assert(strs(others@).take(i + 1) =~= strs(others@).take(i as int).push(others@[i as int]@));
    }
    assert(strs(others@).take(n as int) =~= strs(others@));
    assert(Seq::<Seq<char>>::empty() + before =~= before);
    out
}

} // verus!
