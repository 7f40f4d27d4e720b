//! What a result card shows of a JSON record: platforms, performance rating,
//! presence, trust rank and badges.
use vstd::prelude::*;
use crate::decode::opt_str;
use crate::json::{lemma_array_view, lemma_object_view, Json, JsonEntry, JsonView};
use crate::screen_overlay::Rgb;
use crate::store::trust_rank_name;
use crate::text::{
    alnum_only, alnum_only_exec, before_char, before_char_exec, chars_of, ends_with, lower_exec,
    lower_seq, owned, seq_eq, starts_with, str_eq, string_of, strs,
};
use crate::ui::fields::{
    any_true, first_text, json_bool, json_string, path_bool, path_list, path_string, string_field,
};

verus! {

// ---------------------------------------------------------------------------
// Platforms
// ---------------------------------------------------------------------------
/// A platform content is built for.
#[derive(Debug, Clone, Copy, PartialEq, Eq, Structural)]
pub enum ContentPlatform {
    Windows,
    Android,
    Ios,
}

/// The platform a name stands for, in any letter case.
pub open spec fn platform_named(name: Seq<char>) -> Option<ContentPlatform> {
    let n = lower_seq(name);
    if n == "standalonewindows"@ || n == "windows"@ || n == "win"@ {
        Some(ContentPlatform::Windows)
    } else if n == "android"@ || n == "quest"@ {
        Some(ContentPlatform::Android)
    } else if n == "ios"@ {
        Some(ContentPlatform::Ios)
    } else {
        None
    }
}

/// `ps` with the platform `name` stands for added, unless it is there already.
pub open spec fn with_platform(ps: Seq<ContentPlatform>, name: Seq<char>) -> Seq<ContentPlatform> {
    match platform_named(name) {
        Some(p) => if ps.contains(p) {
            ps
        } else {
            ps.push(p)
        },
        None => ps,
    }
}

pub fn push_platform(platforms: &mut Vec<ContentPlatform>, platform: &str)
    ensures
        final(platforms)@ == with_platform(old(platforms)@, platform@),
{
    let lower = lower_exec(&chars_of(platform));
    let p = if seq_eq(&lower, &chars_of("standalonewindows")) || seq_eq(&lower, &chars_of("windows"))
        || seq_eq(&lower, &chars_of("win")) {
        ContentPlatform::Windows
    } else if seq_eq(&lower, &chars_of("android")) || seq_eq(&lower, &chars_of("quest")) {
        ContentPlatform::Android
    } else if seq_eq(&lower, &chars_of("ios")) {
        ContentPlatform::Ios
    } else {
        return;
    };
    let n = platforms.len();
    for i in 0..n
        invariant
            n == platforms@.len(),
            platforms@ == old(platforms)@,
            platform_named(platform@) == Some(p),
            forall|j: int| 0 <= j < i ==> platforms@[j] != p,
    {
        if platforms[i] == p {
            assert(platforms@.contains(p));
            return;
        }
    }
    platforms.push(p);
}

/// `with_platform` over every name, in order.
pub open spec fn with_platforms(ps: Seq<ContentPlatform>, names: Seq<Seq<char>>) -> Seq<ContentPlatform>
    decreases names.len(),
{
    if names.len() == 0 {
        ps
    } else {
        with_platform(with_platforms(ps, names.drop_last()), names.last())
    }
}

/// The `platform` strings of the packages in `items`, in order.
pub open spec fn package_platforms(items: Seq<JsonView>) -> Seq<Seq<char>>
    decreases items.len(),
{
    if items.len() == 0 {
        Seq::empty()
    } else {
        let rest = package_platforms(items.drop_last());
        match items.last().field_text("platform"@) {
            Some(p) => rest.push(p),
            None => rest,
        }
    }
}

/// The package list of a record: `unityPackages`, or else `content.unityPackage`.
pub open spec fn packages_of(v: JsonView) -> Seq<JsonView> {
    let found = match v.field("unityPackages"@) {
        Some(x) => Some(x),
        None => match v.field("content"@) {
            Some(c) => c.field("unityPackage"@),
            None => None,
        },
    };
    match found {
        Some(JsonView::Array(items)) => items,
        _ => Seq::empty(),
    }
}

/// The member names of `performance`, where it is an object.
pub open spec fn performance_keys(v: JsonView) -> Seq<Seq<char>> {
    match v.field("performance"@) {
        Some(JsonView::Object(es)) => es.map_values(|e: (Seq<char>, JsonView)| e.0),
        _ => Seq::empty(),
    }
}

/// The platforms of a record: those of its packages, then those its performance
/// ratings name, each once.
pub open spec fn platforms_of(v: JsonView) -> Seq<ContentPlatform> {
    with_platforms(with_platforms(Seq::empty(), package_platforms(packages_of(v))), performance_keys(v))
}

/// Adds the platform of each name, in order.
fn push_platforms(platforms: &mut Vec<ContentPlatform>, names: &Vec<String>)
    ensures
        final(platforms)@ == with_platforms(old(platforms)@, strs(names@)),
{
    let ghost all = strs(names@);
    let ghost start = platforms@;
    let n = names.len();
    assert(all.take(0) =~= Seq::<Seq<char>>::empty());
    for i in 0..n
        invariant
            n == names@.len(),
            all == strs(names@),
            platforms@ == with_platforms(start, all.take(i as int)),
    {
        assert(all.take(i + 1).drop_last() =~= all.take(i as int));
        assert(all.take(i + 1).last() == names@[i as int]@);
        push_platform(platforms, names[i].as_str());
    }
    assert(all.take(n as int) =~= all);
}

/// The package list of a record.
fn packages<'a>(value: &'a Json) -> (r: Option<&'a Vec<Json>>)
    ensures
        match r {
            Some(items) => items@.map_values(|x: Json| x@) == packages_of(value@),
            None => packages_of(value@).len() == 0,
        },
{
    let found = match value.get("unityPackages") {
        Some(x) => Some(x),
        None => match value.get("content") {
            Some(c) => c.get("unityPackage"),
            None => None,
        },
    };
    match found {
        Some(x) => x.as_array(),
        None => None,
    }
}

/// The `platform` strings of packages.
fn package_platform_names(items: &Vec<Json>) -> (r: Vec<String>)
    ensures
        strs(r@) == package_platforms(items@.map_values(|x: Json| x@)),
{
    let ghost iv = items@.map_values(|x: Json| x@);
    let mut out: Vec<String> = Vec::new();
    let n = items.len();
    assert(iv.take(0) =~= Seq::<JsonView>::empty());
    assert(strs(out@) =~= Seq::<Seq<char>>::empty());
    for i in 0..n
        invariant
            n == items.len(),
            iv == items@.map_values(|x: Json| x@),
            strs(out@) == package_platforms(iv.take(i as int)),
    {
        assert(iv.take(i + 1).drop_last() =~= iv.take(i as int));
        assert(iv.take(i + 1).last() == items@[i as int]@);
        match items[i].get_str("platform") {
            Some(p) => {
                let ghost before = out@;
                out.push(p.clone());
                assert(strs(out@) =~= strs(before).push(p@));
            },
            None => {},
        }
    }
    assert(iv.take(n as int) =~= iv);
    out
}

/// The member names of an object, in order; none for anything else.
pub fn member_names(value: &Json) -> (r: Vec<String>)
    ensures
        value@ is Object ==> strs(r@) == value@->Object_0.map_values(|e: (Seq<char>, JsonView)| e.0),
        !(value@ is Object) ==> r@.len() == 0,
{
    let mut out: Vec<String> = Vec::new();
    match value {
        Json::Object(es) => {
            proof {
                lemma_object_view(*value);
            }
            let n = es.len();
            for i in 0..n
                invariant
                    n == es@.len(),
                    value@ is Object,
                    value@->Object_0.len() == es@.len(),
                    forall|k: int| 0 <= k < es@.len() ==> #[trigger] value@->Object_0[k] == (es@[k].key@, es@[k].value@),
                    out@.len() == i,
                    forall|j: int| 0 <= j < i ==> #[trigger] out@[j]@ == es@[j].key@,
            {
                out.push(es[i].key.clone());
            }
            assert(strs(out@) =~= value@->Object_0.map_values(|e: (Seq<char>, JsonView)| e.0));
        },
        _ => {},
    }
    out
}

/// The platforms a record's content is built for.
pub fn content_platforms(value: &Json) -> (r: Vec<ContentPlatform>)
    ensures
        r@ == platforms_of(value@),
{
    let mut platforms: Vec<ContentPlatform> = Vec::new();
    let ghost empty = platforms@;
    match packages(value) {
        Some(items) => {
            let names = package_platform_names(items);
            push_platforms(&mut platforms, &names);
        },
        None => {
            assert(package_platforms(packages_of(value@)) =~= Seq::<Seq<char>>::empty());
        },
    }
    let keys = match value.get("performance") {
        Some(p) => member_names(p),
        None => Vec::new(),
    };
    assert(strs(keys@) =~= performance_keys(value@));
    push_platforms(&mut platforms, &keys);
    platforms
}

// ---------------------------------------------------------------------------
// Avatar performance
// ---------------------------------------------------------------------------
/// The performance rating of an avatar, from best to worst.
#[derive(Debug, Clone, Copy, PartialEq, Eq, PartialOrd, Ord, Structural)]
pub enum AvatarPerformance {
    Excellent,
    Good,
    Medium,
    Poor,
    VeryPoor,
}

/// The place of a rating, best first.
pub open spec fn rank(p: AvatarPerformance) -> int {
    match p {
        AvatarPerformance::Excellent => 0,
        AvatarPerformance::Good => 1,
        AvatarPerformance::Medium => 2,
        AvatarPerformance::Poor => 3,
        AvatarPerformance::VeryPoor => 4,
    }
}

/// The rating a text names, ignoring case and everything but letters and digits.
pub open spec fn performance_named(value: Seq<char>) -> Option<AvatarPerformance> {
    let k = lower_seq(alnum_only(value));
    if k == "excellent"@ {
        Some(AvatarPerformance::Excellent)
    } else if k == "good"@ {
        Some(AvatarPerformance::Good)
    } else if k == "medium"@ {
        Some(AvatarPerformance::Medium)
    } else if k == "poor"@ {
        Some(AvatarPerformance::Poor)
    } else if k == "verypoor"@ {
        Some(AvatarPerformance::VeryPoor)
    } else {
        None
    }
}

pub fn parse_avatar_performance(value: &str) -> (r: Option<AvatarPerformance>)
    ensures
        r == performance_named(value@),
{
    let k = lower_exec(&alnum_only_exec(&chars_of(value)));
    if seq_eq(&k, &chars_of("excellent")) {
        Some(AvatarPerformance::Excellent)
    } else if seq_eq(&k, &chars_of("good")) {
        Some(AvatarPerformance::Good)
    } else if seq_eq(&k, &chars_of("medium")) {
        Some(AvatarPerformance::Medium)
    } else if seq_eq(&k, &chars_of("poor")) {
        Some(AvatarPerformance::Poor)
    } else if seq_eq(&k, &chars_of("verypoor")) {
        Some(AvatarPerformance::VeryPoor)
    } else {
        None
    }
}

/// The worse of a rating so far and another.
pub open spec fn worse(so_far: Option<AvatarPerformance>, p: Option<AvatarPerformance>) -> Option<AvatarPerformance> {
    match (so_far, p) {
        (Some(a), Some(b)) => if rank(b) >= rank(a) {
            Some(b)
        } else {
            Some(a)
        },
        (None, b) => b,
        (a, None) => a,
    }
}

/// The worst rating the texts name.
pub open spec fn worst_named(texts: Seq<Seq<char>>) -> Option<AvatarPerformance>
    decreases texts.len(),
{
    if texts.len() == 0 {
        None
    } else {
        worse(worst_named(texts.drop_last()), performance_named(texts.last()))
    }
}

/// The rating texts of a `performance` object: string members whose name does not end
/// in `_sort` or `Sort`.
pub open spec fn rating_texts(es: Seq<(Seq<char>, JsonView)>) -> Seq<Seq<char>>
    decreases es.len(),
{
    if es.len() == 0 {
        Seq::empty()
    } else {
        let rest = rating_texts(es.drop_last());
        let (k, v) = es.last();
        if "_sort"@.is_suffix_of(k) || "Sort"@.is_suffix_of(k) {
            rest
        } else {
            match v {
                JsonView::Str(s) => rest.push(s),
                _ => rest,
            }
        }
    }
}

/// The `performanceRating` strings of packages, in order.
pub open spec fn package_ratings(items: Seq<JsonView>) -> Seq<Seq<char>>
    decreases items.len(),
{
    if items.len() == 0 {
        Seq::empty()
    } else {
        let rest = package_ratings(items.drop_last());
        match items.last().field_text("performanceRating"@) {
            Some(p) => rest.push(p),
            None => rest,
        }
    }
}

/// The id of a record, or of its identifier.
pub open spec fn record_id(v: JsonView) -> Seq<char> {
    match first_text(v, seq!["id"@, "identifier.id"@]) {
        Some(s) => s,
        None => Seq::empty(),
    }
}

/// The worst performance rating of an avatar record, over its platforms and packages.
pub open spec fn avatar_performance(v: JsonView) -> Option<AvatarPerformance> {
    if !"avtr_"@.is_prefix_of(record_id(v)) {
        None
    } else {
        let from_performance = match v.field("performance"@) {
            Some(JsonView::Object(es)) => rating_texts(es),
            _ => Seq::empty(),
        };
        let from_packages = match v.field("unityPackages"@) {
            Some(JsonView::Array(items)) => package_ratings(items),
            _ => Seq::empty(),
        };
        worst_named(from_performance + from_packages)
    }
}

/// The worse of two ratings.
fn worse_of(so_far: Option<AvatarPerformance>, p: Option<AvatarPerformance>) -> (r: Option<AvatarPerformance>)
    ensures
        r == worse(so_far, p),
{
    match (so_far, p) {
        (Some(a), Some(b)) => {
            let ra: u8 = match a {
                AvatarPerformance::Excellent => 0,
                AvatarPerformance::Good => 1,
                AvatarPerformance::Medium => 2,
                AvatarPerformance::Poor => 3,
                AvatarPerformance::VeryPoor => 4,
            };
            let rb: u8 = match b {
                AvatarPerformance::Excellent => 0,
                AvatarPerformance::Good => 1,
                AvatarPerformance::Medium => 2,
                AvatarPerformance::Poor => 3,
                AvatarPerformance::VeryPoor => 4,
            };
            if rb >= ra {
                Some(b)
            } else {
                Some(a)
            }
        },
        (None, b) => b,
        (a, None) => a,
    }
}

proof fn lemma_worst_append(a: Seq<Seq<char>>, b: Seq<Seq<char>>)
    ensures
        worst_named(a + b) == worst_named_from(worst_named(a), b),
    decreases b.len(),
{
    if b.len() == 0 {
        assert(a + b =~= a);
    } else {
        lemma_worst_append(a, b.drop_last());
        assert((a + b).drop_last() =~= a + b.drop_last());
        assert((a + b).last() == b.last());
    }
}

/// `worst_named` continued from a rating so far.
pub open spec fn worst_named_from(so_far: Option<AvatarPerformance>, texts: Seq<Seq<char>>) -> Option<AvatarPerformance>
    decreases texts.len(),
{
    if texts.len() == 0 {
        so_far
    } else {
        worse(worst_named_from(so_far, texts.drop_last()), performance_named(texts.last()))
    }
}

/// Folds the ratings of `texts` into a rating so far.
fn fold_worst(so_far: Option<AvatarPerformance>, texts: &Vec<String>) -> (r: Option<AvatarPerformance>)
    ensures
        r == worst_named_from(so_far, strs(texts@)),
{
    let ghost all = strs(texts@);
    let mut acc = so_far;
    let n = texts.len();
    assert(all.take(0) =~= Seq::<Seq<char>>::empty());
    for i in 0..n
        invariant
            n == texts@.len(),
            all == strs(texts@),
            acc == worst_named_from(so_far, all.take(i as int)),
    {
        assert(all.take(i + 1).drop_last() =~= all.take(i as int));
        assert(all.take(i + 1).last() == texts@[i as int]@);
        acc = worse_of(acc, parse_avatar_performance(texts[i].as_str()));
    }
    assert(all.take(n as int) =~= all);
    acc
}

proof fn lemma_worst_from_none(texts: Seq<Seq<char>>)
    ensures
        worst_named_from(None, texts) == worst_named(texts),
    decreases texts.len(),
{
    if texts.len() > 0 {
        lemma_worst_from_none(texts.drop_last());
    }
}

/// The rating texts of a `performance` object.
fn rating_strings(value: &Json) -> (r: Vec<String>)
    ensures
        strs(r@) == match value@ {
            JsonView::Object(es) => rating_texts(es),
            _ => Seq::empty(),
        },
{
    let mut out: Vec<String> = Vec::new();
    match value {
        Json::Object(es) => {
            let ghost all = value@->Object_0;
            proof {
                lemma_object_view(*value);
            }
            let n = es.len();
            assert(all.take(0) =~= Seq::<(Seq<char>, JsonView)>::empty());
            assert(strs(out@) =~= Seq::<Seq<char>>::empty());
            for i in 0..n
                invariant
                    n == es@.len(),
                    all.len() == es@.len(),
                    forall|k: int| 0 <= k < es@.len() ==> #[trigger] all[k] == (es@[k].key@, es@[k].value@),
                    strs(out@) == rating_texts(all.take(i as int)),
            {
                assert(all.take(i + 1).drop_last() =~= all.take(i as int));
                assert(all.take(i + 1).last() == all[i as int]);
                let key = es[i].key.as_str();
                if !ends_with(key, "_sort") && !ends_with(key, "Sort") {
                    match &es[i].value {
                        Json::Str(s) => {
                            let ghost before = out@;
                            out.push(s.clone());
                            assert(strs(out@) =~= strs(before).push(s@));
                        },
                        _ => {},
                    }
                }
            }
            assert(all.take(n as int) =~= all);
        },
        _ => {
            assert(strs(out@) =~= Seq::<Seq<char>>::empty());
        },
    }
    out
}

/// The `performanceRating` strings of packages.
fn package_rating_strings(items: &Vec<Json>) -> (r: Vec<String>)
    ensures
        strs(r@) == package_ratings(items@.map_values(|x: Json| x@)),
{
    let ghost iv = items@.map_values(|x: Json| x@);
    let mut out: Vec<String> = Vec::new();
    let n = items.len();
    assert(iv.take(0) =~= Seq::<JsonView>::empty());
    assert(strs(out@) =~= Seq::<Seq<char>>::empty());
    for i in 0..n
        invariant
            n == items.len(),
            iv == items@.map_values(|x: Json| x@),
            strs(out@) == package_ratings(iv.take(i as int)),
    {
        assert(iv.take(i + 1).drop_last() =~= iv.take(i as int));
        assert(iv.take(i + 1).last() == items@[i as int]@);
        match items[i].get_str("performanceRating") {
            Some(p) => {
                let ghost before = out@;
                out.push(p.clone());
                assert(strs(out@) =~= strs(before).push(p@));
            },
            None => {},
        }
    }
    assert(iv.take(n as int) =~= iv);
    out
}

/// The worst performance rating of an avatar record.
pub fn resource_avatar_performance(value: &Json) -> (r: Option<AvatarPerformance>)
    ensures
        r == avatar_performance(value@),
{
    let id = string_field(value, &["id", "identifier.id"]);
    proof {
        reveal_strlit("id");
        reveal_strlit("identifier.id");
        assert(path_list(seq!["id", "identifier.id"]) =~= seq!["id"@, "identifier.id"@]);
    }
    if !starts_with(id.as_str(), "avtr_") {
        return None;
    }
    let from_performance = match value.get("performance") {
        Some(p) => rating_strings(p),
        None => Vec::new(),
    };
    let from_packages = match value.get("unityPackages") {
        Some(p) => match p.as_array() {
            Some(items) => package_rating_strings(items),
            None => Vec::new(),
        },
        None => Vec::new(),
    };
    let ghost a = strs(from_performance@);
    let ghost b = strs(from_packages@);
    proof {
        lemma_worst_append(a, b);
        lemma_worst_from_none(a);
    }
    let first = fold_worst(None, &from_performance);
    fold_worst(first, &from_packages)
}

// ---------------------------------------------------------------------------
// Presence
// ---------------------------------------------------------------------------
/// The presence dot of a user.
#[derive(Debug, Clone, Copy, PartialEq, Eq, Structural)]
pub enum PresenceStatus {
    Online,
    JoinMe,
    AskMe,
    DoNotDisturb,
    Offline,
}

/// The dot for a status: offline users are offline whatever their status says.
pub open spec fn status_dot_of(status: Option<Seq<char>>, online: bool) -> PresenceStatus {
    if !online {
        PresenceStatus::Offline
    } else {
        match status {
            Some(s) => if s == "joinMe"@ {
                PresenceStatus::JoinMe
            } else if s == "askMe"@ {
                PresenceStatus::AskMe
            } else if s == "busy"@ {
                PresenceStatus::DoNotDisturb
            } else if s == "offline"@ {
                PresenceStatus::Offline
            } else {
                PresenceStatus::Online
            },
            None => PresenceStatus::Online,
        }
    }
}

pub fn friend_status(status: Option<&str>, online: bool) -> (r: PresenceStatus)
    ensures
        r == status_dot_of(
            match status {
                Some(s) => Some(s@),
                None => None,
            },
            online,
        ),
{
    if !online {
        return PresenceStatus::Offline;
    }
    match status {
        Some(s) => if str_eq(s, "joinMe") {
            PresenceStatus::JoinMe
        } else if str_eq(s, "askMe") {
            PresenceStatus::AskMe
        } else if str_eq(s, "busy") {
            PresenceStatus::DoNotDisturb
        } else if str_eq(s, "offline") {
            PresenceStatus::Offline
        } else {
            PresenceStatus::Online
        },
        None => PresenceStatus::Online,
    }
}

/// The dot of a user record, by its own or its identity's status.
pub open spec fn record_status(v: JsonView) -> PresenceStatus {
    match first_text(v, seq!["status"@, "identity.status.status"@]) {
        Some(s) => status_dot_of(Some(s), s != "offline"@),
        None => PresenceStatus::Offline,
    }
}

pub fn user_status_from_value(value: &Json) -> (r: PresenceStatus)
    ensures
        r == record_status(value@),
{
    let status = json_string(value, &["status", "identity.status.status"]);
    proof {
        reveal_strlit("status");
        reveal_strlit("identity.status.status");
        assert(path_list(seq!["status", "identity.status.status"]) =~= seq!["status"@, "identity.status.status"@]);
    }
    match status {
        Some(s) => {
            let online = !str_eq(s.as_str(), "offline");
            friend_status(Some(s.as_str()), online)
        },
        None => PresenceStatus::Offline,
    }
}

/// The record says the user is on the way somewhere.
pub open spec fn traveling(v: JsonView) -> bool {
    match first_text(
        v,
        seq![
            "travelingToLocation"@,
            "presence.travelingToLocation"@,
            "presence.travelingToInstance"@,
        ],
    ) {
        Some(s) => s.len() > 0,
        None => false,
    }
}

pub fn is_traveling(value: &Json) -> (r: bool)
    ensures
        r == traveling(value@),
{
    let found = json_string(
        value,
        &["travelingToLocation", "presence.travelingToLocation", "presence.travelingToInstance"],
    );
    proof {
        reveal_strlit("travelingToLocation");
        reveal_strlit("presence.travelingToLocation");
        reveal_strlit("presence.travelingToInstance");
        assert(path_list(
            seq!["travelingToLocation", "presence.travelingToLocation", "presence.travelingToInstance"],
        ) =~= seq![
            "travelingToLocation"@,
            "presence.travelingToLocation"@,
            "presence.travelingToInstance"@,
        ]);
        reveal_strlit("");
    }
    match found {
        Some(s) => {
            let empty = str_eq(s.as_str(), "");
            assert(empty == (s@.len() == 0)) by {
                if s@.len() == 0 {
                    assert(s@ =~= ""@);
                }
            }
            !empty
        },
        None => false,
    }
}

// ---------------------------------------------------------------------------
// Trust rank
// ---------------------------------------------------------------------------
/// The short name of a trust rank the service spells out.
pub open spec fn rank_alias(r: Seq<char>) -> Seq<char> {
    if r == "newUser"@ {
        "new"@
    } else if r == "knownUser"@ {
        "known"@
    } else if r == "trustedUser"@ {
        "trusted"@
    } else {
        r
    }
}

/// The trust rank of a record: the rank it states, or the one its tags name; none
/// where it has neither.
pub open spec fn record_trust_rank(v: JsonView) -> Option<Seq<char>> {
    match first_text(v, seq!["trustRank"@, "tags.trustRank"@]) {
        Some(r) => Some(rank_alias(r)),
        None => match v.field("tags"@) {
            Some(t) => {
                let list = match t.field("raw"@) {
                    Some(x) => x,
                    None => t,
                };
                match list {
                    JsonView::Array(items) => Some(trust_rank_name(crate::json::text_items(items))),
                    _ => None,
                }
            },
            None => None,
        },
    }
}

pub fn resource_trust_rank(value: &Json) -> (r: Option<String>)
    ensures
        opt_str(r) == record_trust_rank(value@),
{
    let stated = json_string(value, &["trustRank", "tags.trustRank"]);
    proof {
        reveal_strlit("trustRank");
        reveal_strlit("tags.trustRank");
        assert(path_list(seq!["trustRank", "tags.trustRank"]) =~= seq!["trustRank"@, "tags.trustRank"@]);
    }
    if let Some(rank) = stated {
        let r = rank.as_str();
        return Some(
            if str_eq(r, "newUser") {
                owned("new")
            } else if str_eq(r, "knownUser") {
                owned("known")
            } else if str_eq(r, "trustedUser") {
                owned("trusted")
            } else {
                rank.clone()
            },
        );
    }
    let tags = match value.get("tags") {
        Some(t) => t,
        None => return None,
    };
    let list = match tags.get("raw") {
        Some(x) => x,
        None => tags,
    };
    match list.as_array() {
        Some(items) => {
            let texts = crate::json::json_texts(items);
            crate::store::trust_rank_from_tags(&texts)
        },
        None => None,
    }
}

// ---------------------------------------------------------------------------
// Badges and thumbnails
// ---------------------------------------------------------------------------
/// The result of `str::to_uppercase` (Unicode uppercase mapping).
pub uninterp spec fn uppercase(s: Seq<char>) -> Seq<char>;

/// `str::to_uppercase`: the Unicode uppercase of `s`, a function of `s` alone.
#[verifier::external_body]
fn to_uppercase(s: &str) -> (r: String)
    ensures
        r@ == uppercase(s@),
{
    s.to_uppercase()
}

/// The age-verification badge.
pub open spec fn age_badge(v: JsonView) -> Seq<Seq<char>> {
    let age = any_true(v, seq!["ageVerified"@]) || match first_text(v, seq!["ageVerificationStatus"@]) {
        Some(s) => s == "verified"@ || s == "18+"@,
        None => false,
    };
    if age {
        seq!["18+ VERIFIED"@]
    } else {
        Seq::empty()
    }
}

/// The friendship badge.
pub open spec fn friend_badge(v: JsonView) -> Seq<Seq<char>> {
    if any_true(v, seq!["isFriend"@, "social.isFriend"@]) {
        seq!["FRIEND"@]
    } else {
        Seq::empty()
    }
}

/// The verified badge.
pub open spec fn verified_badge(v: JsonView) -> Seq<Seq<char>> {
    if v.field_flag("isVerified"@) == Some(true) {
        seq!["VERIFIED"@]
    } else {
        Seq::empty()
    }
}

/// The status badge: the upper-cased status, release status or membership status.
pub open spec fn status_badge(v: JsonView) -> Seq<Seq<char>> {
    match first_text(v, seq!["status"@, "identity.status.status"@]) {
        Some(s) => seq![uppercase(s)],
        None => match v.field_text("releaseStatus"@) {
            Some(s) => seq![uppercase(s)],
            None => match v.field_text("membershipStatus"@) {
                Some(s) => seq![uppercase(s)],
                None => Seq::empty(),
            },
        },
    }
}

/// The badges of a result card, in order: age verification, friendship, verified
/// status, then the status.
pub open spec fn badges_of(v: JsonView) -> Seq<Seq<char>> {
    age_badge(v) + friend_badge(v) + verified_badge(v) + status_badge(v)
}

pub fn resource_badges(value: &Json) -> (r: Vec<String>)
    ensures
        strs(r@) == badges_of(value@),
{
    proof {
        reveal_strlit("ageVerified");
        reveal_strlit("ageVerificationStatus");
        reveal_strlit("isFriend");
        reveal_strlit("social.isFriend");
        reveal_strlit("status");
        reveal_strlit("identity.status.status");
        assert(path_list(seq!["isFriend", "social.isFriend"]) =~= seq!["isFriend"@, "social.isFriend"@]);
        assert(path_list(seq!["status", "identity.status.status"]) =~= seq!["status"@, "identity.status.status"@]);
    }
    let mut badges: Vec<String> = Vec::new();
    let verified_flag = path_bool(value, "ageVerified");
    let status_text = path_string(value, "ageVerificationStatus");
    let age = verified_flag || match status_text {
        Some(s) => str_eq(s.as_str(), "verified") || str_eq(s.as_str(), "18+"),
        None => false,
    };
    assert(age == (any_true(value@, seq!["ageVerified"@]) || match first_text(value@, seq!["ageVerificationStatus"@]) {
        Some(s) => s == "verified"@ || s == "18+"@,
        None => false,
    }));
    if age {
        badges.push(owned("18+ VERIFIED"));
    }
    assert(strs(badges@) =~= age_badge(value@));
    if json_bool(value, &["isFriend", "social.isFriend"]) {
        badges.push(owned("FRIEND"));
    }
    assert(strs(badges@) =~= age_badge(value@) + friend_badge(value@));
    if value.get_bool("isVerified") == Some(true) {
        badges.push(owned("VERIFIED"));
    }
    assert(strs(badges@) =~= age_badge(value@) + friend_badge(value@) + verified_badge(value@));
    if let Some(status) = json_string(value, &["status", "identity.status.status"]) {
        badges.push(to_uppercase(status.as_str()));
    } else if let Some(status) = value.get_str("releaseStatus") {
        badges.push(to_uppercase(status.as_str()));
    } else if let Some(status) = value.get_str("membershipStatus") {
        badges.push(to_uppercase(status.as_str()));
    }
    assert(strs(badges@) =~= badges_of(value@));
    badges
}

/// Users and avatars get a round thumbnail.
pub open spec fn round_thumbnail(v: JsonView) -> bool {
    let prefix = before_char(record_id(v), '_');
    prefix == "usr"@ || prefix == "avtr"@
}

pub fn resource_is_round(value: &Json) -> (r: bool)
    ensures
        r == round_thumbnail(value@),
{
    let id = string_field(value, &["id", "identifier.id"]);
    proof {
        reveal_strlit("id");
        reveal_strlit("identifier.id");
        assert(path_list(seq!["id", "identifier.id"]) =~= seq!["id"@, "identifier.id"@]);
    }
    let prefix = string_of(&before_char_exec(&chars_of(id.as_str()), '_'));
    str_eq(prefix.as_str(), "usr") || str_eq(prefix.as_str(), "avtr")
}

/// The colour of a status dot.
pub open spec fn status_color_of(status: PresenceStatus) -> Rgb {
    match status {
        PresenceStatus::Online => Rgb { red: 52, green: 199, blue: 89 },
        PresenceStatus::JoinMe => Rgb { red: 64, green: 156, blue: 255 },
        PresenceStatus::AskMe => Rgb { red: 255, green: 159, blue: 10 },
        PresenceStatus::DoNotDisturb => Rgb { red: 255, green: 69, blue: 58 },
        PresenceStatus::Offline => Rgb { red: 142, green: 142, blue: 147 },
    }
}

/// The colour of a status dot.
pub fn status_color(status: PresenceStatus) -> (r: Rgb)
    ensures
        r == status_color_of(status),
{
    match status {
        PresenceStatus::Online => Rgb { red: 52, green: 199, blue: 89 },
        PresenceStatus::JoinMe => Rgb { red: 64, green: 156, blue: 255 },
        PresenceStatus::AskMe => Rgb { red: 255, green: 159, blue: 10 },
        PresenceStatus::DoNotDisturb => Rgb { red: 255, green: 69, blue: 58 },
        PresenceStatus::Offline => Rgb { red: 142, green: 142, blue: 147 },
    }
}

/// The background of a card for a trust rank.
pub open spec fn rank_color_of(rank: Option<Seq<char>>) -> Rgb {
    match rank {
        Some(r) => if r == "visitor"@ {
            Rgb { red: 24, green: 26, blue: 31 }
        } else if r == "new"@ {
            Rgb { red: 12, green: 27, blue: 45 }
        } else if r == "user"@ {
            Rgb { red: 11, green: 36, blue: 27 }
        } else if r == "known"@ {
            Rgb { red: 38, green: 26, blue: 12 }
        } else if r == "trusted"@ {
            Rgb { red: 31, green: 18, blue: 44 }
        } else {
            Rgb { red: 19, green: 21, blue: 31 }
        },
        None => Rgb { red: 19, green: 21, blue: 31 },
    }
}

/// The background of a card for a trust rank.
pub fn rank_color(rank: Option<&str>) -> (r: Rgb)
    ensures
        r == rank_color_of(match rank {
            Some(s) => Some(s@),
            None => None,
        }),
{
    match rank {
        Some(s) => if str_eq(s, "visitor") {
            Rgb { red: 24, green: 26, blue: 31 }
        } else if str_eq(s, "new") {
            Rgb { red: 12, green: 27, blue: 45 }
        } else if str_eq(s, "user") {
            Rgb { red: 11, green: 36, blue: 27 }
        } else if str_eq(s, "known") {
            Rgb { red: 38, green: 26, blue: 12 }
        } else if str_eq(s, "trusted") {
            Rgb { red: 31, green: 18, blue: 44 }
        } else {
            Rgb { red: 19, green: 21, blue: 31 }
        },
        None => Rgb { red: 19, green: 21, blue: 31 },
    }
}

} // verus!
