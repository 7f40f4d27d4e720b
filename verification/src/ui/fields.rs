//! Reading display fields out of JSON records by lists of dotted paths, where the
//! first path that yields a value wins.
use vstd::prelude::*;
use crate::decode::opt_str;
use crate::json::{json_texts, lemma_array_view, text_items, Json, JsonView};
use crate::text::{copy_string, join_strings, joined, owned, str_eq, strs};

verus! {

/// The paths of a list, as character sequences.
pub open spec fn path_list(paths: Seq<&str>) -> Seq<Seq<char>> {
    paths.map_values(|p: &str| p@)
}

/// The string at the first of `paths` that holds a string.
pub open spec fn first_text(v: JsonView, paths: Seq<Seq<char>>) -> Option<Seq<char>>
    decreases paths.len(),
{
    if paths.len() == 0 {
        None
    } else {
        match v.path_text(paths[0]) {
            Some(s) => Some(s),
            None => first_text(v, paths.drop_first()),
        }
    }
}

/// Some path of `paths` holds `true`.
pub open spec fn any_true(v: JsonView, paths: Seq<Seq<char>>) -> bool {
    exists|i: int| 0 <= i < paths.len() && #[trigger] v.path_flag(paths[i]) == Some(true)
}

/// The value at the first of `paths` that leads anywhere.
pub open spec fn first_found(v: JsonView, paths: Seq<Seq<char>>) -> Option<JsonView>
    decreases paths.len(),
{
    if paths.len() == 0 {
        None
    } else {
        match v.at_path(paths[0]) {
            Some(x) => Some(x),
            None => first_found(v, paths.drop_first()),
        }
    }
}

/// The string at the first path that holds one (`json_string`).
pub fn json_string(value: &Json, paths: &[&str]) -> (r: Option<String>)
    ensures
        match r {
            Some(s) => first_text(value@, path_list(paths@)) == Some(s@),
            None => first_text(value@, path_list(paths@)) is None,
        },
{
    let ghost all = path_list(paths@);
    let n = paths.len();
    assert(all.skip(0) =~= all);
    for i in 0..n
        invariant
            n == paths@.len(),
            all == path_list(paths@),
            first_text(value@, all) == first_text(value@, all.skip(i as int)),
    {
        let ghost rest = all.skip(i as int);
        assert(rest[0] == paths@[i as int]@);
        assert(rest.drop_first() =~= all.skip(i + 1));
        match value.path_str(paths[i]) {
            Some(s) => {
                return Some(s.clone());
            },
            None => {},
        }
    }
    assert(all.skip(n as int) =~= Seq::<Seq<char>>::empty());
    None
}

/// The string at the first path that holds one, or the empty string (`string_field`).
pub fn string_field(value: &Json, paths: &[&str]) -> (r: String)
    ensures
        r@ == match first_text(value@, path_list(paths@)) {
            Some(s) => s,
            None => Seq::<char>::empty(),
        },
{
    match json_string(value, paths) {
        Some(s) => s,
        None => String::new(),
    }
}

/// Some path holds `true` (`json_bool`).
pub fn json_bool(value: &Json, paths: &[&str]) -> (r: bool)
    ensures
        r == any_true(value@, path_list(paths@)),
{
    let ghost all = path_list(paths@);
    let n = paths.len();
    for i in 0..n
        invariant
            n == paths@.len(),
            all == path_list(paths@),
            forall|j: int| 0 <= j < i ==> #[trigger] value@.path_flag(all[j]) != Some(true),
    {
        assert(all[i as int] == paths@[i as int]@);
        match value.get_path(paths[i]) {
            Some(x) => match x.as_bool() {
                Some(true) => {
                    assert(value@.path_flag(all[i as int]) == Some(true));
                    return true;
                },
                _ => {},
            },
            None => {},
        }
    }
    false
}

/// The string at one path.
pub fn path_string(value: &Json, path: &str) -> (r: Option<String>)
    ensures
        opt_str(r) == first_text(value@, seq![path@]),
{
    assert(seq![path@].drop_first() =~= Seq::<Seq<char>>::empty());
    assert(seq![path@][0] == path@);
    assert(first_text(value@, Seq::<Seq<char>>::empty()) is None);
    match value.path_str(path) {
        Some(s) => Some(s.clone()),
        None => None,
    }
}

/// One path holds `true`.
pub fn path_bool(value: &Json, path: &str) -> (r: bool)
    ensures
        r == any_true(value@, seq![path@]),
{
    let r = match value.get_path(path) {
        Some(x) => match x.as_bool() {
            Some(b) => b,
            None => false,
        },
        None => false,
    };
    assert(seq![path@][0] == path@);
    assert(seq![path@].len() == 1);
    if r {
        assert(value@.path_flag(seq![path@][0]) == Some(true));
    } else {
        assert(value@.path_flag(path@) != Some(true));
    }
    r
}

/// The value at the first path that leads anywhere.
pub fn first_value<'a>(value: &'a Json, paths: &[&str]) -> (r: Option<&'a Json>)
    ensures
        match r {
            Some(x) => first_found(value@, path_list(paths@)) == Some(x@),
            None => first_found(value@, path_list(paths@)) is None,
        },
{
    let ghost all = path_list(paths@);
    let n = paths.len();
    assert(all.skip(0) =~= all);
    for i in 0..n
        invariant
            n == paths@.len(),
            all == path_list(paths@),
            first_found(value@, all) == first_found(value@, all.skip(i as int)),
    {
        let ghost rest = all.skip(i as int);
        assert(rest[0] == paths@[i as int]@);
        assert(rest.drop_first() =~= all.skip(i + 1));
        match value.get_path(paths[i]) {
            Some(x) => {
                return Some(x);
            },
            None => {},
        }
    }
    assert(all.skip(n as int) =~= Seq::<Seq<char>>::empty());
    None
}

/// How a detail value reads: non-empty text as it is, numbers in decimal, booleans as
/// Yes or No, and arrays as their first eight strings joined by commas.
pub open spec fn field_display(v: JsonView) -> Option<Seq<char>> {
    match v {
        JsonView::Str(t) => if t.len() > 0 {
            Some(t)
        } else {
            None
        },
        JsonView::Number(_, _, text) => Some(text),
        JsonView::Bool(b) => Some(
            if b {
                "Yes"@
            } else {
                "No"@
            },
        ),
        JsonView::Array(items) => if items.len() > 0 {
            let texts = text_items(items);
            Some(joined(texts.take(if texts.len() < 8 { texts.len() as int } else { 8 }), ", "@))
        } else {
            None
        },
        _ => None,
    }
}

/// The first `k` strings of `v`.
pub fn first_strings(v: &Vec<String>, k: usize) -> (r: Vec<String>)
    ensures
        strs(r@) == strs(v@).take(if v@.len() < k { v@.len() as int } else { k as int }),
{
    let m = if v.len() < k {
        v.len()
    } else {
        k
    };
    let mut out: Vec<String> = Vec::new();
    for i in 0..m
        invariant
            m <= v@.len(),
            out@.len() == i,
            forall|j: int| 0 <= j < i ==> #[trigger] out@[j]@ == v@[j]@,
    {
        out.push(copy_string(&v[i]));
    }
    assert(strs(out@) =~= strs(v@).take(m as int));
    out
}

/// How a detail value reads.
pub fn display_value(x: &Json) -> (r: Option<String>)
    ensures
        opt_str(r) == field_display(x@),
{
    match x {
        Json::Str(t) => {
            proof {
                reveal_strlit("");
            }
            if str_eq(t.as_str(), "") {
                None
            } else {
                assert(t@.len() != 0) by {
                    if t@.len() == 0 {
                        assert(t@ =~= ""@);
                    }
                }
                Some(t.clone())
            }
        },
        Json::Number(n) => Some(n.text.clone()),
        Json::Bool(b) => Some(
            owned(
                if *b {
                    "Yes"
                } else {
                    "No"
                },
            ),
        ),
        Json::Array(items) => {
            proof {
                lemma_array_view(*x);
                assert(items@.map_values(|j: Json| j@) =~= x@->Array_0);
            }
            if items.len() > 0 {
                let texts = json_texts(items);
                let first = first_strings(&texts, 8);
                Some(join_strings(&first, ", "))
            } else {
                None
            }
        },
        _ => None,
    }
}

/// The displayed value at the first path that leads anywhere (`json_field`).
pub fn json_field(value: &Json, paths: &[&str]) -> (r: Option<String>)
    ensures
        opt_str(r) == match first_found(value@, path_list(paths@)) {
            Some(x) => field_display(x),
            None => None,
        },
{
    match first_value(value, paths) {
        None => None,
        Some(x) => display_value(x),
    }
}

/// The displayed value at one path.
pub fn path_field(value: &Json, path: &str) -> (r: Option<String>)
    ensures
        opt_str(r) == match first_found(value@, seq![path@]) {
            Some(x) => field_display(x),
            None => None,
        },
{
    assert(seq![path@].drop_first() =~= Seq::<Seq<char>>::empty());
    assert(seq![path@][0] == path@);
    assert(first_found(value@, Seq::<Seq<char>>::empty()) is None);
    match value.get_path(path) {
        None => None,
        Some(x) => display_value(x),
    }
}

} // verus!
