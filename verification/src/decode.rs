//! Reading typed members out of JSON objects, the way the data model's records are
//! decoded: a required member must be present, and every member present must have
//! the expected type.
use vstd::prelude::*;
use crate::json::{Json, JsonView};
use crate::text::{concat, owned, strs};

verus! {

// ---------------------------------------------------------------------------
// Records
// ---------------------------------------------------------------------------
/// A record decoded from JSON content, member by member.
pub trait Content: Sized {
    /// Why `v` does not decode, if it does not.
    spec fn problem(v: JsonView) -> Option<Seq<char>>;

    /// `self` holds exactly the members decoded from `v`.
    spec fn decoded(&self, v: JsonView) -> bool;

    fn from_json(v: &Json) -> (r: Result<Self, String>)
        ensures
            match r {
                Ok(x) => Self::problem(v@) is None && x.decoded(v@),
                Err(e) => Self::problem(v@) == Some(e@),
            },
    ;
}

// ---------------------------------------------------------------------------
// Messages
// ---------------------------------------------------------------------------
pub open spec fn missing_msg(key: Seq<char>) -> Seq<char> {
    "missing field `"@ + key + "`"@
}

pub open spec fn invalid_msg(key: Seq<char>) -> Seq<char> {
    "invalid type for field `"@ + key + "`"@
}

pub open spec fn not_struct_msg(name: Seq<char>) -> Seq<char> {
    "invalid type: expected struct "@ + name
}

pub open spec fn duplicate_msg(key: Seq<char>) -> Seq<char> {
    "duplicate field `"@ + key + "`"@
}

pub open spec fn unknown_variant_msg(value: Seq<char>) -> Seq<char> {
    "unknown variant `"@ + value + "`"@
}

pub open spec fn not_enum_msg(name: Seq<char>) -> Seq<char> {
    "invalid type: expected enum "@ + name
}

pub fn unknown_variant_message(value: &str) -> (r: String)
    ensures
        r@ == unknown_variant_msg(value@),
{
    concat(&concat(&owned("unknown variant `"), value), "`")
}

pub fn not_enum_message(name: &str) -> (r: String)
    ensures
        r@ == not_enum_msg(name@),
{
    concat(&owned("invalid type: expected enum "), name)
}

pub fn missing_message(key: &str) -> (r: String)
    ensures
        r@ == missing_msg(key@),
{
    let s = concat(&owned("missing field `"), key);
    concat(&s, "`")
}

pub fn invalid_message(key: &str) -> (r: String)
    ensures
        r@ == invalid_msg(key@),
{
    let s = concat(&owned("invalid type for field `"), key);
    concat(&s, "`")
}

pub fn duplicate_message(key: &str) -> (r: String)
    ensures
        r@ == duplicate_msg(key@),
{
    let s = concat(&owned("duplicate field `"), key);
    concat(&s, "`")
}

pub fn not_struct_message(name: &str) -> (r: String)
    ensures
        r@ == not_struct_msg(name@),
{
    concat(&owned("invalid type: expected struct "), name)
}

// ---------------------------------------------------------------------------
// Member specifications
// ---------------------------------------------------------------------------
/// The problem a member result carries, if any.
pub open spec fn err_of<T>(r: Result<T, Seq<char>>) -> Option<Seq<char>> {
    match r {
        Ok(_) => None,
        Err(e) => Some(e),
    }
}

/// The first of two problems: `first` if there is one, else `rest`.
pub open spec fn either(first: Option<Seq<char>>, rest: Option<Seq<char>>) -> Option<Seq<char>> {
    match first {
        Some(e) => Some(e),
        None => rest,
    }
}

/// The problem with decoding a record named `name` from `v`, where `members` is the
/// first problem among its members in declaration order.
pub open spec fn record_problem(v: JsonView, name: Seq<char>, members: Option<Seq<char>>) -> Option<
    Seq<char>,
> {
    if v is Object {
        members
    } else {
        Some(not_struct_msg(name))
    }
}

/// The view of an optional string.
pub open spec fn opt_str(o: Option<String>) -> Option<Seq<char>> {
    match o {
        Some(s) => Some(s@),
        None => None,
    }
}

/// A required string member.
pub open spec fn text_member(v: JsonView, key: Seq<char>) -> Result<Seq<char>, Seq<char>> {
    match v.field(key) {
        None => Err(missing_msg(key)),
        Some(JsonView::Str(s)) => Ok(s),
        Some(_) => Err(invalid_msg(key)),
    }
}

/// A required string member that may also be spelled `alias`; both spellings at
/// once are a duplicate.
pub open spec fn aliased_text_member(v: JsonView, key: Seq<char>, alias: Seq<char>) -> Result<
    Seq<char>,
    Seq<char>,
> {
    match (v.field(key), v.field(alias)) {
        (Some(_), Some(_)) => Err(duplicate_msg(key)),
        (Some(JsonView::Str(s)), None) => Ok(s),
        (None, Some(JsonView::Str(s))) => Ok(s),
        (None, None) => Err(missing_msg(key)),
        _ => Err(invalid_msg(key)),
    }
}

/// An optional string member (`Option<String>`): absent or null is `None`.
pub open spec fn opt_text_member(v: JsonView, key: Seq<char>) -> Result<Option<Seq<char>>, Seq<char>> {
    match v.field(key) {
        None => Ok(None),
        Some(JsonView::Null) => Ok(None),
        Some(JsonView::Str(s)) => Ok(Some(s)),
        Some(_) => Err(invalid_msg(key)),
    }
}

/// A string member that may be absent, in which case it is empty.
pub open spec fn default_text_member(v: JsonView, key: Seq<char>) -> Result<Seq<char>, Seq<char>> {
    match v.field(key) {
        None => Ok(Seq::empty()),
        Some(JsonView::Str(s)) => Ok(s),
        Some(_) => Err(invalid_msg(key)),
    }
}

/// An array-of-strings member that may be absent, in which case it is empty.
pub open spec fn default_text_list_member(v: JsonView, key: Seq<char>) -> Result<Seq<Seq<char>>, Seq<char>> {
    match v.field(key) {
        None => Ok(Seq::empty()),
        _ => text_list_member(v, key),
    }
}

/// A required boolean member.
pub open spec fn flag_member(v: JsonView, key: Seq<char>) -> Result<bool, Seq<char>> {
    match v.field(key) {
        None => Err(missing_msg(key)),
        Some(JsonView::Bool(b)) => Ok(b),
        Some(_) => Err(invalid_msg(key)),
    }
}

/// A required unsigned integer member.
pub open spec fn u64_member(v: JsonView, key: Seq<char>) -> Result<u64, Seq<char>> {
    match v.field(key) {
        None => Err(missing_msg(key)),
        Some(x) => match x.unsigned() {
            Some(n) => Ok(n),
            None => Err(invalid_msg(key)),
        },
    }
}

/// A required unsigned integer member that fits a `u32`.
pub open spec fn u32_member(v: JsonView, key: Seq<char>) -> Result<u32, Seq<char>> {
    match u64_member(v, key) {
        Err(e) => Err(e),
        Ok(n) => if n <= u32::MAX {
            Ok(n as u32)
        } else {
            Err(invalid_msg(key))
        },
    }
}

/// A required member of any JSON type.
pub open spec fn any_member(v: JsonView, key: Seq<char>) -> Result<JsonView, Seq<char>> {
    match v.field(key) {
        None => Err(missing_msg(key)),
        Some(x) => Ok(x),
    }
}

/// All items of `items` are strings.
pub open spec fn all_text(items: Seq<JsonView>) -> bool {
    forall|i: int| 0 <= i < items.len() ==> #[trigger] items[i] is Str
}

/// The strings of an all-string sequence.
pub open spec fn texts_of(items: Seq<JsonView>) -> Seq<Seq<char>> {
    items.map_values(|x: JsonView| x->Str_0)
}

/// A required member that is an array of strings.
pub open spec fn text_list_member(v: JsonView, key: Seq<char>) -> Result<Seq<Seq<char>>, Seq<char>> {
    match v.field(key) {
        None => Err(missing_msg(key)),
        Some(JsonView::Array(items)) => if all_text(items) {
            Ok(texts_of(items))
        } else {
            Err(invalid_msg(key))
        },
        Some(_) => Err(invalid_msg(key)),
    }
}

/// A boolean member that may be absent, in which case it is false.
pub open spec fn default_flag_member(v: JsonView, key: Seq<char>) -> Result<bool, Seq<char>> {
    match v.field(key) {
        None => Ok(false),
        Some(JsonView::Bool(b)) => Ok(b),
        Some(_) => Err(invalid_msg(key)),
    }
}

/// An optional array-of-strings member (`Option<Vec<String>>`): absent or null is
/// `None`.
pub open spec fn opt_text_list_member(v: JsonView, key: Seq<char>) -> Result<Option<Seq<Seq<char>>>, Seq<char>> {
    match v.field(key) {
        None => Ok(None),
        Some(JsonView::Null) => Ok(None),
        _ => match text_list_member(v, key) {
            Ok(l) => Ok(Some(l)),
            Err(e) => Err(e),
        },
    }
}

/// An optional member of any JSON type: absent or null is `None`.
pub open spec fn opt_any_member(v: JsonView, key: Seq<char>) -> Option<JsonView> {
    match v.field(key) {
        None => None,
        Some(JsonView::Null) => None,
        Some(x) => Some(x),
    }
}

/// A required member that is an array.
pub open spec fn any_list_member(v: JsonView, key: Seq<char>) -> Result<Seq<JsonView>, Seq<char>> {
    match v.field(key) {
        None => Err(missing_msg(key)),
        Some(JsonView::Array(items)) => Ok(items),
        Some(_) => Err(invalid_msg(key)),
    }
}

/// Why a required member does not decode as a `T`.
pub open spec fn nested_problem<T: Content>(v: JsonView, key: Seq<char>) -> Option<Seq<char>> {
    match v.field(key) {
        None => Some(missing_msg(key)),
        Some(x) => T::problem(x),
    }
}

/// `x` is the member decoded.
pub open spec fn nested_decoded<T: Content>(x: T, v: JsonView, key: Seq<char>) -> bool {
    match v.field(key) {
        Some(f) => x.decoded(f),
        None => false,
    }
}

/// Why a required member does not decode as an array of `T`.
pub open spec fn list_problem<T: Content>(v: JsonView, key: Seq<char>) -> Option<Seq<char>> {
    match v.field(key) {
        None => Some(missing_msg(key)),
        Some(JsonView::Array(items)) => items_problem::<T>(items),
        Some(_) => Some(invalid_msg(key)),
    }
}

/// `xs` are the member's items decoded.
pub open spec fn list_decoded<T: Content>(xs: Seq<T>, v: JsonView, key: Seq<char>) -> bool {
    match v.field(key) {
        Some(JsonView::Array(items)) => all_decoded(xs, items),
        _ => false,
    }
}

// ---------------------------------------------------------------------------
// Executable readers
// ---------------------------------------------------------------------------
pub fn is_object(v: &Json) -> (r: bool)
    ensures
        r == (v@ is Object),
{
    match v {
        Json::Object(_) => true,
        _ => false,
    }
}

pub fn read_text(v: &Json, key: &str) -> (r: Result<String, String>)
    ensures
        match r {
            Ok(s) => text_member(v@, key@) == Ok::<Seq<char>, Seq<char>>(s@),
            Err(e) => text_member(v@, key@) == Err::<Seq<char>, Seq<char>>(e@),
        },
{
    match v.get(key) {
        None => Err(missing_message(key)),
        Some(x) => match x {
            Json::Str(s) => Ok(s.clone()),
            _ => Err(invalid_message(key)),
        },
    }
}

pub fn read_aliased_text(v: &Json, key: &str, alias: &str) -> (r: Result<String, String>)
    ensures
        match r {
            Ok(s) => aliased_text_member(v@, key@, alias@) == Ok::<Seq<char>, Seq<char>>(s@),
            Err(e) => aliased_text_member(v@, key@, alias@) == Err::<Seq<char>, Seq<char>>(e@),
        },
{
    match (v.get(key), v.get(alias)) {
        (Some(_), Some(_)) => Err(duplicate_message(key)),
        (Some(x), None) => match x {
            Json::Str(s) => Ok(s.clone()),
            _ => Err(invalid_message(key)),
        },
        (None, Some(x)) => match x {
            Json::Str(s) => Ok(s.clone()),
            _ => Err(invalid_message(key)),
        },
        (None, None) => Err(missing_message(key)),
    }
}

pub fn read_default_text(v: &Json, key: &str) -> (r: Result<String, String>)
    ensures
        match r {
            Ok(s) => default_text_member(v@, key@) == Ok::<Seq<char>, Seq<char>>(s@),
            Err(e) => default_text_member(v@, key@) == Err::<Seq<char>, Seq<char>>(e@),
        },
{
    match v.get(key) {
        None => Ok(String::new()),
        Some(x) => match x {
            Json::Str(s) => Ok(s.clone()),
            _ => Err(invalid_message(key)),
        },
    }
}

pub fn read_default_text_list(v: &Json, key: &str) -> (r: Result<Vec<String>, String>)
    ensures
        match r {
            Ok(l) => default_text_list_member(v@, key@) == Ok::<Seq<Seq<char>>, Seq<char>>(strs(l@)),
            Err(e) => default_text_list_member(v@, key@) == Err::<Seq<Seq<char>>, Seq<char>>(e@),
        },
{
    match v.get(key) {
        None => {
            let out: Vec<String> = Vec::new();
            assert(strs(out@) =~= Seq::<Seq<char>>::empty());
            Ok(out)
        },
        Some(_) => read_text_list(v, key),
    }
}

pub fn read_opt_text(v: &Json, key: &str) -> (r: Result<Option<String>, String>)
    ensures
        match r {
            Ok(Some(s)) => opt_text_member(v@, key@) == Ok::<Option<Seq<char>>, Seq<char>>(
                Some(s@),
            ),
            Ok(None) => opt_text_member(v@, key@) == Ok::<Option<Seq<char>>, Seq<char>>(None),
            Err(e) => opt_text_member(v@, key@) == Err::<Option<Seq<char>>, Seq<char>>(e@),
        },
{
    match v.get(key) {
        None => Ok(None),
        Some(x) => match x {
            Json::Null => Ok(None),
            Json::Str(s) => Ok(Some(s.clone())),
            _ => Err(invalid_message(key)),
        },
    }
}

pub fn read_flag(v: &Json, key: &str) -> (r: Result<bool, String>)
    ensures
        match r {
            Ok(b) => flag_member(v@, key@) == Ok::<bool, Seq<char>>(b),
            Err(e) => flag_member(v@, key@) == Err::<bool, Seq<char>>(e@),
        },
{
    match v.get(key) {
        None => Err(missing_message(key)),
        Some(x) => match x {
            Json::Bool(b) => Ok(*b),
            _ => Err(invalid_message(key)),
        },
    }
}

pub fn read_u64(v: &Json, key: &str) -> (r: Result<u64, String>)
    ensures
        match r {
            Ok(n) => u64_member(v@, key@) == Ok::<u64, Seq<char>>(n),
            Err(e) => u64_member(v@, key@) == Err::<u64, Seq<char>>(e@),
        },
{
    match v.get(key) {
        None => Err(missing_message(key)),
        Some(x) => match x.as_u64() {
            Some(n) => Ok(n),
            None => Err(invalid_message(key)),
        },
    }
}

pub fn read_u32(v: &Json, key: &str) -> (r: Result<u32, String>)
    ensures
        match r {
            Ok(n) => u32_member(v@, key@) == Ok::<u32, Seq<char>>(n),
            Err(e) => u32_member(v@, key@) == Err::<u32, Seq<char>>(e@),
        },
{
    match read_u64(v, key) {
        Err(e) => Err(e),
        Ok(n) => if n <= 4294967295u64 {
            Ok(n as u32)
        } else {
            Err(invalid_message(key))
        },
    }
}

pub fn read_any(v: &Json, key: &str) -> (r: Result<Json, String>)
    ensures
        match r {
            Ok(x) => any_member(v@, key@) == Ok::<JsonView, Seq<char>>(x@),
            Err(e) => any_member(v@, key@) == Err::<JsonView, Seq<char>>(e@),
        },
{
    match v.get(key) {
        None => Err(missing_message(key)),
        Some(x) => Ok(x.copy()),
    }
}

pub fn read_text_list(v: &Json, key: &str) -> (r: Result<Vec<String>, String>)
    ensures
        match r {
            Ok(l) => text_list_member(v@, key@) == Ok::<Seq<Seq<char>>, Seq<char>>(strs(l@)),
            Err(e) => text_list_member(v@, key@) == Err::<Seq<Seq<char>>, Seq<char>>(e@),
        },
{
    match v.get(key) {
        None => Err(missing_message(key)),
        Some(x) => match x.as_array() {
            Some(items) => {
                let ghost iv = items@.map_values(|x: Json| x@);
                let mut out: Vec<String> = Vec::new();
                let n = items.len();
                for i in 0..n
                    invariant
                        n == items.len(),
                        iv == items@.map_values(|x: Json| x@),
                        v@.field(key@) == Some(JsonView::Array(iv)),
                        out@.len() == i,
                        forall|k: int| 0 <= k < i ==> #[trigger] iv[k] is Str,
                        forall|k: int| 0 <= k < i ==> #[trigger] out@[k]@ == iv[k]->Str_0,
                {
                    match items[i].as_str() {
                        Some(s) => out.push(s.clone()),
                        None => {
                            assert(!(iv[i as int] is Str));
                            return Err(invalid_message(key));
                        },
                    }
                }
                assert(strs(out@) =~= texts_of(iv));
                Ok(out)
            },
            None => Err(invalid_message(key)),
        },
    }
}

pub fn read_default_flag(v: &Json, key: &str) -> (r: Result<bool, String>)
    ensures
        match r {
            Ok(b) => default_flag_member(v@, key@) == Ok::<bool, Seq<char>>(b),
            Err(e) => default_flag_member(v@, key@) == Err::<bool, Seq<char>>(e@),
        },
{
    match v.get(key) {
        None => Ok(false),
        Some(x) => match x {
            Json::Bool(b) => Ok(*b),
            _ => Err(invalid_message(key)),
        },
    }
}

pub fn read_opt_text_list(v: &Json, key: &str) -> (r: Result<Option<Vec<String>>, String>)
    ensures
        match r {
            Ok(Some(l)) => opt_text_list_member(v@, key@) == Ok::<Option<Seq<Seq<char>>>, Seq<char>>(
                Some(strs(l@)),
            ),
            Ok(None) => opt_text_list_member(v@, key@) == Ok::<Option<Seq<Seq<char>>>, Seq<char>>(None),
            Err(e) => opt_text_list_member(v@, key@) == Err::<Option<Seq<Seq<char>>>, Seq<char>>(e@),
        },
{
    match v.get(key) {
        None => Ok(None),
        Some(Json::Null) => Ok(None),
        Some(_) => match read_text_list(v, key) {
            Ok(l) => Ok(Some(l)),
            Err(e) => Err(e),
        },
    }
}

pub fn read_opt_any(v: &Json, key: &str) -> (r: Option<Json>)
    ensures
        match r {
            Some(x) => opt_any_member(v@, key@) == Some(x@),
            None => opt_any_member(v@, key@) is None,
        },
{
    match v.get(key) {
        None => None,
        Some(Json::Null) => None,
        Some(x) => Some(x.copy()),
    }
}

pub fn read_any_list(v: &Json, key: &str) -> (r: Result<Vec<Json>, String>)
    ensures
        match r {
            Ok(l) => any_list_member(v@, key@) == Ok::<Seq<JsonView>, Seq<char>>(
                l@.map_values(|x: Json| x@),
            ),
            Err(e) => any_list_member(v@, key@) == Err::<Seq<JsonView>, Seq<char>>(e@),
        },
{
    match v.get(key) {
        None => Err(missing_message(key)),
        Some(x) => match x.as_array() {
            Some(items) => {
                let mut out: Vec<Json> = Vec::new();
                let n = items.len();
                for i in 0..n
                    invariant
                        n == items.len(),
                        out@.len() == i,
                        forall|k: int| 0 <= k < i ==> #[trigger] out@[k]@ == items@[k]@,
                {
                    out.push(items[i].copy());
                }
                assert(out@.map_values(|x: Json| x@) =~= items@.map_values(|x: Json| x@));
                Ok(out)
            },
            None => Err(invalid_message(key)),
        },
    }
}

pub fn read_nested<T: Content>(v: &Json, key: &str) -> (r: Result<T, String>)
    ensures
        match r {
            Ok(x) => nested_problem::<T>(v@, key@) is None && nested_decoded(x, v@, key@),
            Err(e) => nested_problem::<T>(v@, key@) == Some(e@),
        },
{
    match v.get(key) {
        None => Err(missing_message(key)),
        Some(x) => T::from_json(x),
    }
}

pub fn read_list<T: Content>(v: &Json, key: &str) -> (r: Result<Vec<T>, String>)
    ensures
        match r {
            Ok(xs) => list_problem::<T>(v@, key@) is None && list_decoded(xs@, v@, key@),
            Err(e) => list_problem::<T>(v@, key@) == Some(e@),
        },
{
    match v.get(key) {
        None => Err(missing_message(key)),
        Some(x) => match x.as_array() {
            Some(items) => decode_items::<T>(items),
            None => Err(invalid_message(key)),
        },
    }
}

// ---------------------------------------------------------------------------
// Lists of records
// ---------------------------------------------------------------------------
/// The first problem among items decoded as `T`.
pub open spec fn items_problem<T: Content>(items: Seq<JsonView>) -> Option<Seq<char>>
    decreases items.len(),
{
    if items.len() == 0 {
        None
    } else {
        either(items_problem::<T>(items.drop_last()), T::problem(items.last()))
    }
}

/// `xs` are the items decoded one by one.
pub open spec fn all_decoded<T: Content>(xs: Seq<T>, items: Seq<JsonView>) -> bool {
    xs.len() == items.len() && forall|i: int| 0 <= i < items.len() ==> #[trigger] xs[i].decoded(items[i])
}

proof fn lemma_items_problem_push<T: Content>(items: Seq<JsonView>, i: int)
    requires
        0 <= i < items.len(),
    ensures
        items.take(i + 1).drop_last() == items.take(i),
        items.take(i + 1).last() == items[i],
{
    assert(items.take(i + 1).drop_last() =~= items.take(i));
}

proof fn lemma_items_problem_some<T: Content>(items: Seq<JsonView>, k: int)
    requires
        0 <= k <= items.len(),
        items_problem::<T>(items.take(k)) is Some,
    ensures
        items_problem::<T>(items) == items_problem::<T>(items.take(k)),
    decreases items.len() - k,
{
    if k < items.len() {
        lemma_items_problem_push::<T>(items, k);
        lemma_items_problem_some::<T>(items, k + 1);
    } else {
        assert(items.take(k) =~= items);
    }
}

/// Decodes every item as a `T`; the first item that does not decode fails the list.
pub fn decode_items<T: Content>(items: &Vec<Json>) -> (r: Result<Vec<T>, String>)
    ensures
        match r {
            Ok(xs) => items_problem::<T>(items@.map_values(|x: Json| x@)) is None && all_decoded(
                xs@,
                items@.map_values(|x: Json| x@),
            ),
            Err(e) => items_problem::<T>(items@.map_values(|x: Json| x@)) == Some(e@),
        },
{
    let ghost iv = items@.map_values(|x: Json| x@);
    let mut out: Vec<T> = Vec::new();
    let n = items.len();
    assert(iv.take(0) =~= Seq::<JsonView>::empty());
    for i in 0..n
        invariant
            n == items.len(),
            iv == items@.map_values(|x: Json| x@),
            items_problem::<T>(iv.take(i as int)) is None,
            all_decoded(out@, iv.take(i as int)),
    {
        proof {
            lemma_items_problem_push::<T>(iv, i as int);
        }
        match T::from_json(&items[i]) {
            Ok(x) => {
                let ghost before = out@;
                out.push(x);
                assert forall|k: int| 0 <= k < i + 1 implies #[trigger] out@[k].decoded(iv.take(i + 1)[k]) by {
                    if k < i {
                        assert(out@[k] == before[k]);
                        assert(iv.take(i + 1)[k] == iv.take(i as int)[k]);
                    }
                }
            },
            Err(e) => {
                proof {
                    lemma_items_problem_some::<T>(iv, i + 1);
                }
                return Err(e);
            },
        }
    }
    assert(iv.take(n as int) =~= iv);
    Ok(out)
}

// ---------------------------------------------------------------------------
// Lenient members
// ---------------------------------------------------------------------------
/// A string member, or the empty string where it is absent or not a string.
pub open spec fn text_or_empty(v: JsonView, key: Seq<char>) -> Seq<char> {
    match v.field_text(key) {
        Some(s) => s,
        None => Seq::empty(),
    }
}

/// A boolean member, or `false` where it is absent or not a boolean.
pub open spec fn flag_or_false(v: JsonView, key: Seq<char>) -> bool {
    v.field_flag(key) == Some(true)
}

/// The strings of an array member, where it is an array.
pub open spec fn string_array_of(v: JsonView, key: Seq<char>) -> Option<Seq<Seq<char>>> {
    match v.field(key) {
        Some(JsonView::Array(items)) => Some(crate::json::text_items(items)),
        _ => None,
    }
}

pub fn text_or_empty_exec(v: &Json, key: &str) -> (r: String)
    ensures
        r@ == text_or_empty(v@, key@),
{
    match v.get_str(key) {
        Some(s) => s.clone(),
        None => String::new(),
    }
}

pub fn flag_or_false_exec(v: &Json, key: &str) -> (r: bool)
    ensures
        r == flag_or_false(v@, key@),
{
    match v.get_bool(key) {
        Some(b) => b,
        None => false,
    }
}

pub fn string_array(v: &Json, key: &str) -> (r: Option<Vec<String>>)
    ensures
        match r {
            Some(l) => string_array_of(v@, key@) == Some(strs(l@)),
            None => string_array_of(v@, key@) is None,
        },
{
    match v.get(key) {
        Some(x) => match x.as_array() {
            Some(items) => Some(crate::json::json_texts(items)),
            None => None,
        },
        None => None,
    }
}

} // verus!
