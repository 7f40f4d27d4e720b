//! A JSON document model held as plain values, with the lookups the rest of the
//! library performs on it.
use vstd::prelude::*;
use crate::text::{chars_of, owned, split_exec, split_on, str_eq, string_of, strs};

verus! {

broadcast use vstd::std_specs::vec::group_vec_axioms;

#[derive(Debug, Clone, PartialEq)]
/// A JSON number: its decimal text, and its value where it fits an integer type.
pub struct JsonNumber {
    /// `Some` when the number is a non-negative integer that fits a `u64`.
    pub unsigned: Option<u64>,
    /// `Some` when the number is an integer that fits an `i64`.
    pub signed: Option<i64>,
    /// The number as JSON text.
    pub text: String,
}

/// A JSON value. Objects keep their members in order.
#[derive(Debug, PartialEq)]
pub enum Json {
    Null,
    Bool(bool),
    Number(JsonNumber),
    Str(String),
    Array(Vec<Json>),
    Object(Vec<JsonEntry>),
}

/// One member of a JSON object.
#[derive(Debug, Clone, PartialEq)]
pub struct JsonEntry {
    pub key: String,
    pub value: Json,
}

/// The abstract JSON value that a `Json` denotes.
#[verifier::ext_equal]
pub enum JsonView {
    Null,
    Bool(bool),
    /// Unsigned value, signed value, decimal text.
    Number(Option<u64>, Option<i64>, Seq<char>),
    Str(Seq<char>),
    Array(Seq<JsonView>),
    Object(Seq<(Seq<char>, JsonView)>),
}

/// The views of a sequence of values.
pub open spec fn items_view(s: Seq<Json>) -> Seq<JsonView>
    decreases s,
{
    if s.len() == 0 {
        Seq::empty()
    } else {
        seq![json_view(s[0])] + items_view(s.subrange(1, s.len() as int))
    }
}

/// The views of a sequence of object members.
pub open spec fn entries_view(s: Seq<JsonEntry>) -> Seq<(Seq<char>, JsonView)>
    decreases s,
{
    if s.len() == 0 {
        Seq::empty()
    } else {
        seq![(s[0].key@, json_view(s[0].value))] + entries_view(s.subrange(1, s.len() as int))
    }
}

/// The abstract value of a `Json`.
pub open spec fn json_view(j: Json) -> JsonView
    decreases j,
{
    match j {
        Json::Null => JsonView::Null,
        Json::Bool(b) => JsonView::Bool(b),
        Json::Number(n) => JsonView::Number(n.unsigned, n.signed, n.text@),
        Json::Str(s) => JsonView::Str(s@),
        Json::Array(a) => JsonView::Array(items_view(a@)),
        Json::Object(es) => JsonView::Object(entries_view(es@)),
    }
}

impl View for Json {
    type V = JsonView;

    open spec fn view(&self) -> JsonView {
        json_view(*self)
    }
}

pub proof fn lemma_items_view(s: Seq<Json>)
    ensures
        items_view(s).len() == s.len(),
        forall|i: int| 0 <= i < s.len() ==> #[trigger] items_view(s)[i] == s[i]@,
    decreases s.len(),
{
    if s.len() > 0 {
        let t = s.subrange(1, s.len() as int);
        lemma_items_view(t);
        assert forall|i: int| 0 <= i < s.len() implies #[trigger] items_view(s)[i] == s[i]@ by {
            if i > 0 {
                assert(t[i - 1] == s[i]);
            }
        }
    }
}

pub proof fn lemma_entries_view(s: Seq<JsonEntry>)
    ensures
        entries_view(s).len() == s.len(),
        forall|i: int|
            0 <= i < s.len() ==> #[trigger] entries_view(s)[i] == (s[i].key@, s[i].value@),
    decreases s.len(),
{
    if s.len() > 0 {
        let t = s.subrange(1, s.len() as int);
        lemma_entries_view(t);
        assert forall|i: int| 0 <= i < s.len() implies #[trigger] entries_view(s)[i] == (
            s[i].key@,
            s[i].value@,
        ) by {
            if i > 0 {
                assert(t[i - 1] == s[i]);
            }
        }
    }
}

/// How the view of an object relates to its members.
pub proof fn lemma_object_view(j: Json)
    requires
        j is Object,
    ensures
        j@ is Object,
        j@->Object_0.len() == j->Object_0@.len(),
        forall|i: int|
            0 <= i < j->Object_0@.len() ==> #[trigger] j@->Object_0[i] == (
                j->Object_0@[i].key@,
                j->Object_0@[i].value@,
            ),
{
    match j {
        Json::Object(es) => {
            lemma_entries_view(es@);
        },
        _ => {},
    }
}

/// How the view of an array relates to its items.
pub proof fn lemma_array_view(j: Json)
    requires
        j is Array,
    ensures
        j@ is Array,
        j@->Array_0.len() == j->Array_0@.len(),
        forall|i: int| 0 <= i < j->Array_0@.len() ==> #[trigger] j@->Array_0[i] == j->Array_0@[i]@,
{
    match j {
        Json::Array(a) => {
            lemma_items_view(a@);
        },
        _ => {},
    }
}

/// The value of the first member named `key`.
pub open spec fn lookup(es: Seq<(Seq<char>, JsonView)>, key: Seq<char>) -> Option<JsonView>
    decreases es.len(),
{
    if es.len() == 0 {
        None
    } else if es[0].0 == key {
        Some(es[0].1)
    } else {
        lookup(es.drop_first(), key)
    }
}

/// The members of `es` not named `key`, in order.
pub open spec fn without_key(es: Seq<(Seq<char>, JsonView)>, key: Seq<char>) -> Seq<
    (Seq<char>, JsonView),
>
    decreases es.len(),
{
    if es.len() == 0 {
        es
    } else {
        let rest = without_key(es.drop_last(), key);
        if es.last().0 == key {
            rest
        } else {
            rest.push(es.last())
        }
    }
}

/// The position of the first member named `key`.
pub open spec fn member_index(es: Seq<(Seq<char>, JsonView)>, key: Seq<char>) -> Option<int>
    decreases es.len(),
{
    if es.len() == 0 {
        None
    } else if es[0].0 == key {
        Some(0)
    } else {
        match member_index(es.drop_first(), key) {
            Some(i) => Some(i + 1),
            None => None,
        }
    }
}

/// `es` with the member `key` set to `value`: in place where there is one, else
/// appended.
pub open spec fn set_member(es: Seq<(Seq<char>, JsonView)>, key: Seq<char>, value: JsonView) -> Seq<
    (Seq<char>, JsonView),
> {
    match member_index(es, key) {
        Some(i) => es.update(i, (key, value)),
        None => es.push((key, value)),
    }
}

pub proof fn lemma_member_index(es: Seq<(Seq<char>, JsonView)>, key: Seq<char>)
    ensures
        member_index(es, key) matches Some(i) ==> {
            &&& 0 <= i < es.len()
            &&& es[i].0 == key
            &&& forall|j: int| 0 <= j < i ==> es[j].0 != key
        },
        member_index(es, key) is None ==> forall|j: int| 0 <= j < es.len() ==> es[j].0 != key,
    decreases es.len(),
{
    if es.len() > 0 && es[0].0 != key {
        let rest = es.drop_first();
        lemma_member_index(rest, key);
        assert forall|j: int| 0 < j < es.len() implies es[j] == rest[j - 1] by {}
    }
}

/// `lookup` finds the member that `member_index` points at.
pub proof fn lemma_lookup_index(es: Seq<(Seq<char>, JsonView)>, key: Seq<char>)
    ensures
        lookup(es, key) == match member_index(es, key) {
            Some(i) => Some(es[i].1),
            None => None::<JsonView>,
        },
    decreases es.len(),
{
    if es.len() > 0 && es[0].0 != key {
        lemma_lookup_index(es.drop_first(), key);
        lemma_member_index(es.drop_first(), key);
    }
}

/// After `set_member`, the member reads back as what was set, and every other
/// member reads as before.
pub proof fn lemma_set_member(es: Seq<(Seq<char>, JsonView)>, key: Seq<char>, value: JsonView, other: Seq<char>)
    ensures
        lookup(set_member(es, key, value), key) == Some(value),
        other != key ==> lookup(set_member(es, key, value), other) == lookup(es, other),
{
    let t = set_member(es, key, value);
    lemma_member_index(es, key);
    lemma_member_index(es, other);
    lemma_member_index(t, key);
    lemma_member_index(t, other);
    lemma_lookup_index(es, key);
    lemma_lookup_index(es, other);
    lemma_lookup_index(t, key);
    lemma_lookup_index(t, other);
    match member_index(es, key) {
        Some(i) => {
            assert(t[i].0 == key);
            if member_index(t, key) != Some(i) {
                let j = member_index(t, key)->Some_0;
                assert(j < i ==> t[j] == es[j]);
            }
            if other != key {
                match member_index(es, other) {
                    Some(m) => {
                        assert(t[m] == es[m]);
                        if member_index(t, other) != Some(m) {
                            if member_index(t, other) is Some {
                                let j = member_index(t, other)->Some_0;
                                assert(j != i);
                                assert(t[j] == es[j]);
                            }
                        }
                    },
                    None => {
                        if member_index(t, other) is Some {
                            let j = member_index(t, other)->Some_0;
                            assert(j != i);
                            assert(t[j] == es[j]);
                        }
                    },
                }
            }
        },
        None => {
            assert(t[es.len() as int].0 == key);
            if member_index(t, key) != Some(es.len() as int) {
                let j = member_index(t, key)->Some_0;
                assert(t[j] == es[j]);
            }
            if other != key {
                match member_index(es, other) {
                    Some(m) => {
                        assert(t[m] == es[m]);
                        if member_index(t, other) != Some(m) {
                            if member_index(t, other) is Some {
                                let j = member_index(t, other)->Some_0;
                                assert(t[j] == es[j]);
                            }
                        }
                    },
                    None => {
                        if member_index(t, other) is Some {
                            let j = member_index(t, other)->Some_0;
                            assert(t[j] == es[j]);
                        }
                    },
                }
            }
        },
    }
}

/// The strings among `items`, in order.
pub open spec fn text_items(items: Seq<JsonView>) -> Seq<Seq<char>>
    decreases items.len(),
{
    if items.len() == 0 {
        Seq::empty()
    } else {
        let rest = text_items(items.drop_last());
        match items.last() {
            JsonView::Str(s) => rest.push(s),
            _ => rest,
        }
    }
}

/// `path` split at its dots.
pub open spec fn dotted(path: Seq<char>) -> Seq<Seq<char>> {
    split_on(path, '.')
}

impl JsonView {
    /// `value.get(key)`: the member `key` of an object.
    pub open spec fn field(self, key: Seq<char>) -> Option<JsonView> {
        match self {
            JsonView::Object(es) => lookup(es, key),
            _ => None,
        }
    }

    /// `value.as_str()`.
    pub open spec fn text(self) -> Option<Seq<char>> {
        match self {
            JsonView::Str(s) => Some(s),
            _ => None,
        }
    }

    /// `value.as_bool()`.
    pub open spec fn flag(self) -> Option<bool> {
        match self {
            JsonView::Bool(b) => Some(b),
            _ => None,
        }
    }

    /// `value.as_u64()`.
    pub open spec fn unsigned(self) -> Option<u64> {
        match self {
            JsonView::Number(u, _, _) => u,
            _ => None,
        }
    }

    /// `value.as_array()`.
    pub open spec fn items(self) -> Option<Seq<JsonView>> {
        match self {
            JsonView::Array(a) => Some(a),
            _ => None,
        }
    }

    /// `value.get(key).and_then(Value::as_str)`.
    pub open spec fn field_text(self, key: Seq<char>) -> Option<Seq<char>> {
        match self.field(key) {
            Some(v) => v.text(),
            None => None,
        }
    }

    /// `value.get(key).and_then(Value::as_bool)`.
    pub open spec fn field_flag(self, key: Seq<char>) -> Option<bool> {
        match self.field(key) {
            Some(v) => v.flag(),
            None => None,
        }
    }

    /// `value.get(key).and_then(Value::as_u64)`.
    pub open spec fn field_unsigned(self, key: Seq<char>) -> Option<u64> {
        match self.field(key) {
            Some(v) => v.unsigned(),
            None => None,
        }
    }

    /// Successive `get` calls along `keys`.
    pub open spec fn at_keys(self, keys: Seq<Seq<char>>) -> Option<JsonView>
        decreases keys.len(),
    {
        if keys.len() == 0 {
            Some(self)
        } else {
            match self.field(keys[0]) {
                Some(v) => v.at_keys(keys.drop_first()),
                None => None,
            }
        }
    }

    /// `path.split('.').try_fold(value, |value, key| value.get(key))`.
    pub open spec fn at_path(self, path: Seq<char>) -> Option<JsonView> {
        self.at_keys(dotted(path))
    }

    /// The string found at a dotted path.
    pub open spec fn path_text(self, path: Seq<char>) -> Option<Seq<char>> {
        match self.at_path(path) {
            Some(v) => v.text(),
            None => None,
        }
    }

    /// The boolean found at a dotted path.
    pub open spec fn path_flag(self, path: Seq<char>) -> Option<bool> {
        match self.at_path(path) {
            Some(v) => v.flag(),
            None => None,
        }
    }
}

impl Json {
    /// `value.get(key)` on an object, a reference into the value.
    pub fn get(&self, key: &str) -> (r: Option<&Json>)
        ensures
            r is Some <==> self@.field(key@) is Some,
            r is Some ==> r.unwrap()@ == self@.field(key@).unwrap(),
    {
        match self {
            Json::Object(es) => {
                let ghost all = self@->Object_0;
                proof {
                    lemma_object_view(*self);
                }
                let n = es.len();
                assert(all.skip(0) =~= all);
                for i in 0..n
                    invariant
                        n == es.len(),
                        self@ is Object,
                        all == self@->Object_0,
                        all.len() == es@.len(),
                        forall|k: int| 0 <= k < es@.len() ==> #[trigger] all[k] == (es@[k].key@, es@[k].value@),
                        lookup(all, key@) == lookup(all.skip(i as int), key@),
                {
                    let ghost rest = all.skip(i as int);
                    assert(rest[0] == (es@[i as int].key@, es@[i as int].value@));
                    assert(rest.drop_first() =~= all.skip(i + 1));
                    if str_eq(es[i].key.as_str(), key) {
                        return Some(&es[i].value);
                    }
                }
                assert(all.skip(n as int) =~= Seq::<(Seq<char>, JsonView)>::empty());
                None
            },
            _ => None,
        }
    }

    /// `value.as_str()`.
    pub fn as_str(&self) -> (r: Option<&String>)
        ensures
            r is Some <==> self@.text() is Some,
            r is Some ==> r.unwrap()@ == self@.text().unwrap(),
    {
        match self {
            Json::Str(s) => Some(s),
            _ => None,
        }
    }

    /// `value.as_bool()`.
    pub fn as_bool(&self) -> (r: Option<bool>)
        ensures
            r == self@.flag(),
    {
        match self {
            Json::Bool(b) => Some(*b),
            _ => None,
        }
    }

    /// `value.as_u64()`.
    pub fn as_u64(&self) -> (r: Option<u64>)
        ensures
            r == self@.unsigned(),
    {
        match self {
            Json::Number(n) => n.unsigned,
            _ => None,
        }
    }

    /// `value.as_array()`.
    pub fn as_array(&self) -> (r: Option<&Vec<Json>>)
        ensures
            r is Some <==> self@.items() is Some,
            r is Some ==> r.unwrap()@.map_values(|x: Json| x@) == self@.items().unwrap(),
    {
        match self {
            Json::Array(a) => {
                proof {
                    lemma_array_view(*self);
                }
                assert(a@.map_values(|x: Json| x@) =~= self@->Array_0);
                Some(a)
            },
            _ => None,
        }
    }

    /// `value.get(key).and_then(Value::as_str)`.
    pub fn get_str(&self, key: &str) -> (r: Option<&String>)
        ensures
            r is Some <==> self@.field_text(key@) is Some,
            r is Some ==> r.unwrap()@ == self@.field_text(key@).unwrap(),
    {
        match self.get(key) {
            Some(v) => v.as_str(),
            None => None,
        }
    }

    /// `value.get(key).and_then(Value::as_bool)`.
    pub fn get_bool(&self, key: &str) -> (r: Option<bool>)
        ensures
            r == self@.field_flag(key@),
    {
        match self.get(key) {
            Some(v) => v.as_bool(),
            None => None,
        }
    }

    /// `value.get(key).and_then(Value::as_u64)`.
    pub fn get_u64(&self, key: &str) -> (r: Option<u64>)
        ensures
            r == self@.field_unsigned(key@),
    {
        match self.get(key) {
            Some(v) => v.as_u64(),
            None => None,
        }
    }

    /// Follows a dotted path of object members.
    pub fn get_path(&self, path: &str) -> (r: Option<&Json>)
        ensures
            r is Some <==> self@.at_path(path@) is Some,
            r is Some ==> r.unwrap()@ == self@.at_path(path@).unwrap(),
    {
        let pieces = split_exec(&chars_of(path), '.');
        let ghost keys = pieces@.map_values(|v: Vec<char>| v@);
        let mut cur: &Json = self;
        let n = pieces.len();
        assert(keys.skip(0) =~= keys);
        for i in 0..n
            invariant
                n == pieces.len(),
                keys == pieces@.map_values(|v: Vec<char>| v@),
                keys == dotted(path@),
                self@.at_keys(keys) == cur@.at_keys(keys.skip(i as int)),
        {
            let key = string_of(&pieces[i]);
            let ghost rest = keys.skip(i as int);
            assert(rest[0] == key@);
            assert(rest.drop_first() =~= keys.skip(i + 1));
            match cur.get(key.as_str()) {
                Some(next) => {
                    cur = next;
                },
                None => {
                    return None;
                },
            }
        }
        assert(keys.skip(n as int) =~= Seq::<Seq<char>>::empty());
        Some(cur)
    }

    /// The string at a dotted path.
    pub fn path_str(&self, path: &str) -> (r: Option<&String>)
        ensures
            r is Some <==> self@.path_text(path@) is Some,
            r is Some ==> r.unwrap()@ == self@.path_text(path@).unwrap(),
    {
        match self.get_path(path) {
            Some(v) => v.as_str(),
            None => None,
        }
    }

    /// The position of the first member named `key` among `es`.
    pub fn member_position(es: &Vec<JsonEntry>, key: &str) -> (r: Option<usize>)
        ensures
            match r {
                Some(i) => member_index(entries_view(es@), key@) == Some(i as int),
                None => member_index(entries_view(es@), key@) is None,
            },
    {
        let ghost all = entries_view(es@);
        proof {
            lemma_entries_view(es@);
            lemma_member_index(all, key@);
        }
        let n = es.len();
        for i in 0..n
            invariant
                n == es.len(),
                all == entries_view(es@),
                all.len() == es@.len(),
                forall|k: int| 0 <= k < es@.len() ==> #[trigger] all[k] == (es@[k].key@, es@[k].value@),
                forall|j: int| 0 <= j < i ==> all[j].0 != key@,
                member_index(all, key@) matches Some(m) ==> {
                    &&& 0 <= m < all.len()
                    &&& all[m].0 == key@
                    &&& forall|j: int| 0 <= j < m ==> all[j].0 != key@
                },
                member_index(all, key@) is None ==> forall|j: int| 0 <= j < all.len() ==> all[j].0 != key@,
        {
            if str_eq(es[i].key.as_str(), key) {
                assert(all[i as int].0 == key@);
                return Some(i);
            }
        }
        None
    }

    /// Sets the member `key` of an object to `value` (`Map::insert`); other values
    /// are left as they are.
    pub fn insert_member(&mut self, key: &str, value: Json)
        ensures
            old(self)@ is Object ==> final(self)@ == JsonView::Object(
                set_member(old(self)@->Object_0, key@, value@),
            ),
            !(old(self)@ is Object) ==> final(self)@ == old(self)@,
    {
        match self {
            Json::Object(es) => {
                let ghost before = es@;
                proof {
                    lemma_entries_view(before);
                    lemma_member_index(entries_view(before), key@);
                }
                match Json::member_position(es, key) {
                    Some(i) => {
                        es[i] = JsonEntry { key: owned(key), value };
                        proof {
                            lemma_entries_view(es@);
                            assert(entries_view(es@) =~= entries_view(before).update(
                                i as int,
                                (key@, value@),
                            ));
                        }
                    },
                    None => {
                        es.push(JsonEntry { key: owned(key), value });
                        proof {
                            lemma_entries_view(es@);
                            assert(entries_view(es@) =~= entries_view(before).push((key@, value@)));
                        }
                    },
                }
            },
            _ => {},
        }
    }

    /// Copies of the members of an object that are not named `key`.
    pub fn members_except(&self, key: &str) -> (r: Vec<JsonEntry>)
        ensures
            self@ is Object ==> entries_view(r@) == without_key(self@->Object_0, key@),
            !(self@ is Object) ==> r@.len() == 0,
    {
        let mut out: Vec<JsonEntry> = Vec::new();
        match self {
            Json::Object(es) => {
                let ghost all = self@->Object_0;
                proof {
                    lemma_object_view(*self);
                }
                let n = es.len();
                assert(all.take(0) =~= Seq::<(Seq<char>, JsonView)>::empty());
                proof {
                    lemma_entries_view(out@);
                }
                for i in 0..n
                    invariant
                        n == es.len(),
                        all.len() == es@.len(),
                        forall|k: int| 0 <= k < es@.len() ==> #[trigger] all[k] == (es@[k].key@, es@[k].value@),
                        entries_view(out@) == without_key(all.take(i as int), key@),
                {
                    let ghost before = out@;
                    assert(all.take(i + 1).drop_last() =~= all.take(i as int));
                    assert(all.take(i + 1).last() == all[i as int]);
                    if !str_eq(es[i].key.as_str(), key) {
                        let v = es[i].value.copy();
                        out.push(JsonEntry { key: es[i].key.clone(), value: v });
                        proof {
                            lemma_entries_view(before);
                            lemma_entries_view(out@);
                            assert(entries_view(out@) =~= entries_view(before).push(all[i as int]));
                        }
                    }
                }
                assert(all.take(n as int) =~= all);
                out
            },
            _ => out,
        }
    }

    /// A deep copy.
    #[verifier::loop_isolation(false)]
    pub fn copy(&self) -> (r: Json)
        ensures
            r@ == self@,
        decreases self,
    {
        match self {
            Json::Null => Json::Null,
            Json::Bool(b) => Json::Bool(*b),
            Json::Number(n) => Json::Number(
                JsonNumber { unsigned: n.unsigned, signed: n.signed, text: n.text.clone() },
            ),
            Json::Str(s) => Json::Str(s.clone()),
            Json::Array(items) => {
                let mut out: Vec<Json> = Vec::new();
                let len = items.len();
                for i in 0..len
                    invariant
                        len == items.len(),
                        out@.len() == i,
                        forall|k: int| 0 <= k < i ==> out@[k]@ == items@[k]@,
                {
                    proof {
                        assert(decreases_to!(*self => items[i as int]));
                    }
                    out.push(items[i].copy());
                }
                let r = Json::Array(out);
                proof {
                    lemma_items_view(out@);
                    lemma_items_view(items@);
                    assert(r@->Array_0 =~= self@->Array_0);
                }
                r
            },
            Json::Object(es) => {
                let mut out: Vec<JsonEntry> = Vec::new();
                let len = es.len();
                for i in 0..len
                    invariant
                        len == es.len(),
                        out@.len() == i,
                        forall|k: int|
                            0 <= k < i ==> out@[k].key@ == es@[k].key@ && out@[k].value@
                                == es@[k].value@,
                {
                    proof {
                        assert(decreases_to!(*self => es[i as int].value));
                    }
                    let v = es[i].value.copy();
                    out.push(JsonEntry { key: es[i].key.clone(), value: v });
                }
                let r = Json::Object(out);
                proof {
                    lemma_entries_view(out@);
                    lemma_entries_view(es@);
                    assert(r@->Object_0 =~= self@->Object_0);
                }
                r
            },
        }
    }
}

impl Clone for Json {
    /// A deep copy.
    fn clone(&self) -> (r: Self)
        ensures
            r@ == self@,
    {
        self.copy()
    }
}

/// The strings among JSON items, in order.
pub fn json_texts(items: &Vec<Json>) -> (r: Vec<String>)
    ensures
        strs(r@) == text_items(items@.map_values(|x: Json| x@)),
{
    let ghost iv = items@.map_values(|x: Json| x@);
    let mut out: Vec<String> = Vec::new();
    let n = items.len();
    assert(iv.take(0) =~= Seq::<JsonView>::empty());
    assert(strs(out@) =~= Seq::<Seq<char>>::empty());
    for i in 0..n
        invariant
            n == items.len(),
            iv == items@.map_values(|x: Json| x@),
            strs(out@) == text_items(iv.take(i as int)),
    {
        assert(iv.take(i + 1).drop_last() =~= iv.take(i as int));
        assert(iv.take(i + 1).last() == items@[i as int]@);
        match &items[i] {
            Json::Str(s) => {
                let ghost before = out@;
                out.push(s.clone());
                assert(strs(out@) =~= strs(before).push(s@));
            },
            _ => {},
        }
    }
    assert(iv.take(n as int) =~= iv);
    out
}

/// A JSON string value.
pub fn json_string(s: &str) -> (r: Json)
    ensures
        r@ == JsonView::Str(s@),
{
    Json::Str(owned(s))
}

/// JSON strings for texts.
pub open spec fn str_views(s: Seq<Seq<char>>) -> Seq<JsonView> {
    s.map_values(|t: Seq<char>| JsonView::Str(t))
}

/// A JSON array of strings.
pub fn strings_json(items: &Vec<String>) -> (r: Json)
    ensures
        r@ == JsonView::Array(str_views(strs(items@))),
{
    let mut out: Vec<Json> = Vec::new();
    let n = items.len();
    for i in 0..n
        invariant
            n == items@.len(),
            out@.len() == i,
            forall|k: int| 0 <= k < i ==> #[trigger] out@[k]@ == JsonView::Str(items@[k]@),
    {
        out.push(Json::Str(items[i].clone()));
    }
    let r = Json::Array(out);
    proof {
        lemma_items_view(out@);
        assert(items_view(out@) =~= str_views(strs(items@)));
    }
    r
}

} // verus!
