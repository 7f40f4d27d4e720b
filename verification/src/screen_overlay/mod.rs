//! Lightweight, event-driven on-screen notifications: which pipeline events become
//! toasts, what they say, and which toasts are showing.
pub mod config;

use vstd::prelude::*;
use std::collections::VecDeque;
use crate::json::{Json, JsonView};
use crate::screen_overlay::config::{
    default_rule_view, rules_view, EventRule, EventRuleView, ScreenOverlayConfig,
};
use crate::store::reducer::{kept, RecentPipelineEvent};
use crate::text::{contains_seq, 
    chars_of, concat, copy_string, decimal, lemma_utf8_append, lemma_utf8_ascii, owned, replace_all, replace_str,
    strip_prefix, strs, trim, trim_exec, u64_text, utf8, utf8_char,
};
use crate::ui::activity::{user_label, user_name};
use crate::websocket::event::{event_outcome, PipelineEvent};

verus! {

// ---------------------------------------------------------------------------
// Colours
// ---------------------------------------------------------------------------
/// An RGB colour, eight bits a channel.
#[derive(Debug, Clone, Copy, PartialEq, Eq)]
pub struct Rgb {
    pub red: u8,
    pub green: u8,
    pub blue: u8,
}

/// The value of a hexadecimal digit, in either case.
pub open spec fn hex_value(c: char) -> Option<u8> {
    if '0' <= c && c <= '9' {
        Some((c as u32 - 48) as u8)
    } else if 'a' <= c && c <= 'f' {
        Some((c as u32 - 87) as u8)
    } else if 'A' <= c && c <= 'F' {
        Some((c as u32 - 55) as u8)
    } else {
        None
    }
}

/// Two characters read as a hexadecimal byte (`u8::from_str_radix(_, 16)`): two
/// digits, or a `+` sign and one digit.
pub open spec fn hex_byte(a: char, b: char) -> Option<u8> {
    if a == '+' {
        hex_value(b)
    } else {
        match (hex_value(a), hex_value(b)) {
            (Some(x), Some(y)) => Some((x * 16 + y) as u8),
            _ => None,
        }
    }
}

/// The colour text after its `#`, where it has one.
pub open spec fn color_digits(text: Seq<char>) -> Option<Seq<char>> {
    strip_prefix(trim(text), "#"@)
}

/// Byte offset `b` falls between characters of `s`.
pub open spec fn is_char_boundary(s: Seq<char>, b: int) -> bool {
    exists|k: int| 0 <= k <= s.len() && #[trigger] utf8(s.take(k)).len() == b
}

/// Reading the colour does not slice a character in two: where its digits are six
/// bytes, bytes 2 and 4 fall between characters.
pub open spec fn color_text_ok(text: Seq<char>) -> bool {
    match color_digits(text) {
        Some(d) => utf8(d).len() != 6 || (is_char_boundary(d, 2) && is_char_boundary(d, 4)),
        None => true,
    }
}

/// Every character is ASCII.
pub open spec fn all_ascii(s: Seq<char>) -> bool {
    forall|i: int| 0 <= i < s.len() ==> (#[trigger] s[i] as int) < 128
}

/// The colour `#rrggbb` names, surrounding whitespace allowed: six bytes of
/// hexadecimal pairs; anything else names none.
pub open spec fn color_of(text: Seq<char>) -> Option<Rgb> {
    match color_digits(text) {
        Some(d) => if utf8(d).len() != 6 || !all_ascii(d) {
            None
        } else {
            match (hex_byte(d[0], d[1]), hex_byte(d[2], d[3]), hex_byte(d[4], d[5])) {
                (Some(r), Some(g), Some(b)) => Some(Rgb { red: r, green: g, blue: b }),
                _ => None,
            }
        },
        None => None,
    }
}

fn hex_value_exec(c: char) -> (r: Option<u8>)
    ensures
        r == hex_value(c),
{
    if '0' <= c && c <= '9' {
        Some((c as u32 - 48) as u8)
    } else if 'a' <= c && c <= 'f' {
        Some((c as u32 - 87) as u8)
    } else if 'A' <= c && c <= 'F' {
        Some((c as u32 - 55) as u8)
    } else {
        None
    }
}

fn hex_byte_exec(a: char, b: char) -> (r: Option<u8>)
    ensures
        r == hex_byte(a, b),
{
    if a == '+' {
        hex_value_exec(b)
    } else {
        match (hex_value_exec(a), hex_value_exec(b)) {
            (Some(x), Some(y)) => {
                assert(x < 16 && y < 16);
                Some(x * 16 + y)
            },
            _ => None,
        }
    }
}

/// The number of bytes UTF-8 takes for `c`.
fn utf8_width(c: char) -> (w: usize)
    ensures
        w == utf8_char(c).len(),
{
    let n = c as u32;
    assert(n as int == c as int);
    if n < 0x80 {
        1
    } else if n < 0x800 {
        2
    } else if n < 0x10000 {
        3
    } else {
        4
    }
}

/// `c` is ASCII.
fn is_ascii_char(c: char) -> (r: bool)
    ensures
        r == ((c as int) < 128),
{
    let n = c as u32;
    assert(n as int == c as int);
    n < 128
}

/// The UTF-8 length of `s`, or `cap` where it is longer.
fn utf8_len_capped(s: &Vec<char>, cap: usize) -> (r: usize)
    ensures
        r == if utf8(s@).len() < cap {
            utf8(s@).len()
        } else {
            cap as nat
        },
{
    let mut total: usize = 0;
    let n = s.len();
    assert(s@.take(0) =~= Seq::<char>::empty());
    for i in 0..n
        invariant
            n == s@.len(),
            total == if utf8(s@.take(i as int)).len() < cap {
                utf8(s@.take(i as int)).len()
            } else {
                cap as nat
            },
    {
        assert(s@.take(i + 1).drop_last() =~= s@.take(i as int));
        assert(s@.take(i + 1).last() == s@[i as int]);
        let c = s[i];
        let w = utf8_width(c);
        if total < cap {
            total = if cap - total < w {
                cap
            } else {
                total + w
            };
        }
    }
    assert(s@.take(n as int) =~= s@);
    total
}

/// The colour text after its `#`, where it has one.
fn color_digits_exec(value: &str) -> (r: Option<Vec<char>>)
    ensures
        match r {
            Some(d) => color_digits(value@) == Some(d@),
            None => color_digits(value@) is None,
        },
{
    let t = trim_exec(&chars_of(value));
    if t.len() == 0 || t[0] != '#' {
        proof {
            reveal_strlit("#");
            if t@.len() > 0 {
                assert(t@[0] != "#"@[0]);
            }
        }
        return None;
    }
    let mut d: Vec<char> = Vec::new();
    let n = t.len();
    for i in 1..n
        invariant
            n == t@.len(),
            1 <= n,
            d@ =~= t@.subrange(1, i as int),
    {
        d.push(t[i]);
    }
    proof {
        reveal_strlit("#");
        assert("#"@.is_prefix_of(t@));
        assert(d@ =~= t@.skip(1));
    }
    Some(d)
}

/// Bytes 2 and 4 of six-byte text fall between characters.
fn boundaries_ok(d: &Vec<char>) -> (r: bool)
    requires
        utf8(d@).len() == 6,
    ensures
        r == (is_char_boundary(d@, 2) && is_char_boundary(d@, 4)),
{
    let n = d.len();
    let mut total: usize = 0;
    let mut found2 = false;
    let mut found4 = false;
    assert(d@.take(0) =~= Seq::<char>::empty());
    for i in 0..n
        invariant
            n == d@.len(),
            utf8(d@).len() == 6,
            total == utf8(d@.take(i as int)).len(),
            found2 == exists|k: int| 0 <= k < i && #[trigger] utf8(d@.take(k)).len() == 2,
            found4 == exists|k: int| 0 <= k < i && #[trigger] utf8(d@.take(k)).len() == 4,
    {
        if total == 2 {
            found2 = true;
        }
        if total == 4 {
            found4 = true;
        }
        proof {
            assert(d@.take(i + 1).drop_last() =~= d@.take(i as int));
            assert(d@.take(i + 1).last() == d@[i as int]);
            lemma_utf8_append(d@.take(i + 1), d@.skip(i + 1));
            assert(d@.take(i + 1) + d@.skip(i + 1) =~= d@);
        }
        let w = utf8_width(d[i]);
        total = total + w;
    }
    assert(d@.take(n as int) =~= d@);
    found2 && found4
}

/// Whether the colour setting can be read without slicing a character in two.
pub fn color_text_readable(value: &str) -> (r: bool)
    ensures
        r == color_text_ok(value@),
{
    match color_digits_exec(value) {
        None => true,
        Some(d) => if utf8_len_capped(&d, 7) != 6 {
            true
        } else {
            boundaries_ok(&d)
        },
    }
}

/// The colour a setting names, where it names one.
pub fn parse_color(value: &str) -> (r: Option<Rgb>)
    requires
        color_text_ok(value@),
    ensures
        r == color_of(value@),
{
    let d = match color_digits_exec(value) {
        Some(d) => d,
        None => return None,
    };
    if utf8_len_capped(&d, 7) != 6 {
        return None;
    }
    let m = d.len();
    for i in 0..m
        invariant
            m == d@.len(),
            color_digits(value@) == Some(d@),
            utf8(d@).len() == 6,
            forall|j: int| 0 <= j < i ==> (d@[j] as int) < 128,
    {
        let c = d[i];
        if !is_ascii_char(c) {
            assert(!all_ascii(d@));
            return None;
        }
    }
    proof {
        lemma_utf8_ascii(d@);
    }
    match (hex_byte_exec(d[0], d[1]), hex_byte_exec(d[2], d[3]), hex_byte_exec(d[4], d[5])) {
        (Some(r), Some(g), Some(b)) => Some(Rgb { red: r, green: g, blue: b }),
        _ => None,
    }
}

/// The colour a setting names, or `fallback`.
pub open spec fn color_or(text: Seq<char>, fallback: Rgb) -> Rgb {
    match color_of(text) {
        Some(c) => c,
        None => fallback,
    }
}

fn parse_color_or(text: &str, fallback: Rgb) -> (r: Rgb)
    requires
        color_text_ok(text@),
    ensures
        r == color_or(text@, fallback),
{
    match parse_color(text) {
        Some(c) => c,
        None => fallback,
    }
}

/// The accent of a rule whose own does not parse.
pub open spec fn default_accent() -> Rgb {
    Rgb { red: 108, green: 140, blue: 255 }
}

/// The background where the setting does not parse.
pub open spec fn default_background() -> Rgb {
    Rgb { red: 17, green: 19, blue: 30 }
}

/// The text colour where the setting does not parse.
pub open spec fn default_foreground() -> Rgb {
    Rgb { red: 255, green: 255, blue: 255 }
}

// ---------------------------------------------------------------------------
// What an event says
// ---------------------------------------------------------------------------
/// The texts a toast template can use.
#[derive(Debug, Clone, PartialEq, Eq)]
pub struct EventFields {
    /// The rule the event falls under.
    pub key: String,
    /// The kind of event, in words.
    pub event: String,
    pub name: String,
    pub user_id: Option<String>,
    pub platform: String,
    pub location: String,
    pub message: String,
}

/// The abstract value of [`EventFields`].
pub struct FieldsView {
    pub key: Seq<char>,
    pub event: Seq<char>,
    pub name: Seq<char>,
    pub user_id: Option<Seq<char>>,
    pub platform: Seq<char>,
    pub location: Seq<char>,
    pub message: Seq<char>,
}

impl View for EventFields {
    type V = FieldsView;

    open spec fn view(&self) -> FieldsView {
        FieldsView {
            key: self.key@,
            event: self.event@,
            name: self.name@,
            user_id: crate::decode::opt_str(self.user_id),
            platform: self.platform@,
            location: self.location@,
            message: self.message@,
        }
    }
}

/// The name of an event kind without a rule of its own.
pub open spec fn event_key_of(event: PipelineEvent) -> Seq<char> {
    match event {
        PipelineEvent::FriendUpdate(_) => "friend-update"@,
        PipelineEvent::UserUpdate(_) => "user-update"@,
        PipelineEvent::UserLocation(_) => "user-location"@,
        PipelineEvent::ResponseNotification(_) => "response-notification"@,
        PipelineEvent::SeeNotification(_) => "see-notification"@,
        PipelineEvent::HideNotification(_) => "hide-notification"@,
        PipelineEvent::ClearNotification => "clear-notification"@,
        PipelineEvent::NotificationV2Update(_) => "notification-v2-update"@,
        PipelineEvent::NotificationV2Delete(_) => "notification-v2-delete"@,
        PipelineEvent::UserBadgeAssigned(_) => "user-badge-assigned"@,
        PipelineEvent::UserBadgeUnassigned(_) => "user-badge-unassigned"@,
        PipelineEvent::ContentRefresh(_) => "content-refresh"@,
        PipelineEvent::EconomyUpdate(_) => "economy-update"@,
        PipelineEvent::ModifiedImageUpdate(_) => "modified-image-update"@,
        PipelineEvent::GroupJoined(_) => "group-joined"@,
        PipelineEvent::GroupLeft(_) => "group-left"@,
        PipelineEvent::GroupMemberUpdated(_) => "group-member-updated"@,
        PipelineEvent::GroupRoleUpdated(_) => "group-role-updated"@,
        PipelineEvent::Unknown { .. } => "unknown"@,
        _ => "event"@,
    }
}

pub fn event_key(event: &PipelineEvent) -> (r: &'static str)
    ensures
        r@ == event_key_of(*event),
{
    match event {
        PipelineEvent::FriendUpdate(_) => "friend-update",
        PipelineEvent::UserUpdate(_) => "user-update",
        PipelineEvent::UserLocation(_) => "user-location",
        PipelineEvent::ResponseNotification(_) => "response-notification",
        PipelineEvent::SeeNotification(_) => "see-notification",
        PipelineEvent::HideNotification(_) => "hide-notification",
        PipelineEvent::ClearNotification => "clear-notification",
        PipelineEvent::NotificationV2Update(_) => "notification-v2-update",
        PipelineEvent::NotificationV2Delete(_) => "notification-v2-delete",
        PipelineEvent::UserBadgeAssigned(_) => "user-badge-assigned",
        PipelineEvent::UserBadgeUnassigned(_) => "user-badge-unassigned",
        PipelineEvent::ContentRefresh(_) => "content-refresh",
        PipelineEvent::EconomyUpdate(_) => "economy-update",
        PipelineEvent::ModifiedImageUpdate(_) => "modified-image-update",
        PipelineEvent::GroupJoined(_) => "group-joined",
        PipelineEvent::GroupLeft(_) => "group-left",
        PipelineEvent::GroupMemberUpdated(_) => "group-member-updated",
        PipelineEvent::GroupRoleUpdated(_) => "group-role-updated",
        PipelineEvent::Unknown { .. } => "unknown",
        _ => "event",
    }
}

/// A string member, or the empty string.
pub open spec fn member_text(v: JsonView, key: Seq<char>) -> Seq<char> {
    match v.field_text(key) {
        Some(s) => s,
        None => Seq::empty(),
    }
}

/// The fields of an event with nothing but its user.
pub open spec fn user_fields(key: Seq<char>, event: Seq<char>, name: Seq<char>, user_id: Seq<char>, platform: Seq<char>, location: Seq<char>, message: Seq<char>) -> FieldsView {
    FieldsView { key, event, name, user_id: Some(user_id), platform, location, message }
}

/// The texts a toast about an event can use.
pub open spec fn fields_of(event: PipelineEvent) -> FieldsView {
    match event {
        PipelineEvent::FriendOnline(c) => user_fields(
            "friend-online"@,
            "Friend online"@,
            user_name(c.user@, c.user_id@),
            c.user_id@,
            c.platform@,
            c.location@,
            user_name(c.user@, c.user_id@),
        ),
        PipelineEvent::FriendOffline(c) => user_fields(
            "friend-offline"@,
            "Friend offline"@,
            c.user_id@,
            c.user_id@,
            c.platform@,
            Seq::empty(),
            c.user_id@,
        ),
        PipelineEvent::FriendActive(c) => user_fields(
            "friend-active"@,
            "Friend active"@,
            user_name(c.user@, c.user_id@),
            c.user_id@,
            c.platform@,
            Seq::empty(),
            user_name(c.user@, c.user_id@),
        ),
        PipelineEvent::FriendLocation(c) => user_fields(
            "friend-location"@,
            "Friend location"@,
            user_name(c.user@, c.user_id@),
            c.user_id@,
            Seq::empty(),
            c.location@,
            c.location@,
        ),
        PipelineEvent::FriendAdd(c) => user_fields(
            "friend-add"@,
            "Friend added"@,
            user_name(c.user@, c.user_id@),
            c.user_id@,
            Seq::empty(),
            Seq::empty(),
            user_name(c.user@, c.user_id@),
        ),
        PipelineEvent::FriendDelete { user_id } => user_fields(
            "friend-delete"@,
            "Friend removed"@,
            user_id@,
            user_id@,
            Seq::empty(),
            Seq::empty(),
            user_id@,
        ),
        PipelineEvent::Notification(v) => FieldsView {
            key: "notification"@,
            event: "Notification"@,
            name: member_text(v@, "senderUsername"@),
            user_id: v@.field_text("senderUserId"@),
            platform: Seq::empty(),
            location: Seq::empty(),
            message: member_text(v@, "message"@),
        },
        PipelineEvent::NotificationV2(v) => FieldsView {
            key: "notification"@,
            event: "Notification"@,
            name: member_text(v@, "senderUsername"@),
            user_id: v@.field_text("senderUserId"@),
            platform: Seq::empty(),
            location: Seq::empty(),
            message: member_text(v@, "message"@),
        },
        PipelineEvent::InstanceQueueReady(c) => FieldsView {
            key: "instance-queue-ready"@,
            event: "Instance ready"@,
            name: Seq::empty(),
            user_id: None,
            platform: Seq::empty(),
            location: c.instance_location@,
            message: c.instance_location@,
        },
        PipelineEvent::InstanceQueueJoined(c) => FieldsView {
            key: "instance-queue-joined"@,
            event: "Instance queue"@,
            name: Seq::empty(),
            user_id: None,
            platform: Seq::empty(),
            location: c.instance_location@,
            message: "Position "@ + decimal(c.position as nat),
        },
        _ => FieldsView {
            key: event_key_of(event),
            event: event_key_of(event),
            name: Seq::empty(),
            user_id: None,
            platform: Seq::empty(),
            location: Seq::empty(),
            message: event_key_of(event),
        },
    }
}

fn member_string(v: &Json, key: &str) -> (r: String)
    ensures
        r@ == member_text(v@, key@),
{
    match v.get_str(key) {
        Some(s) => s.clone(),
        None => String::new(),
    }
}

fn fields_of_user(key: &str, event: &str, name: String, user_id: &String, platform: &str, location: &str, message: String) -> (r: EventFields)
    ensures
        r@ == user_fields(key@, event@, name@, user_id@, platform@, location@, message@),
{
    EventFields {
        key: owned(key),
        event: owned(event),
        name,
        user_id: Some(user_id.clone()),
        platform: owned(platform),
        location: owned(location),
        message,
    }
}

fn notification_fields(v: &Json) -> (r: EventFields)
    ensures
        r@ == (FieldsView {
            key: "notification"@,
            event: "Notification"@,
            name: member_text(v@, "senderUsername"@),
            user_id: v@.field_text("senderUserId"@),
            platform: Seq::empty(),
            location: Seq::empty(),
            message: member_text(v@, "message"@),
        }),
{
    EventFields {
        key: owned("notification"),
        event: owned("Notification"),
        name: member_string(v, "senderUsername"),
        user_id: match v.get_str("senderUserId") {
            Some(s) => Some(s.clone()),
            None => None,
        },
        platform: String::new(),
        location: String::new(),
        message: member_string(v, "message"),
    }
}

/// The texts a toast about an event can use.
pub fn event_fields(event: &PipelineEvent) -> (r: EventFields)
    ensures
        r@ == fields_of(*event),
{
    proof {
        reveal_strlit("");
        assert(""@ =~= Seq::<char>::empty());
    }
    match event {
        PipelineEvent::FriendOnline(c) => fields_of_user(
            "friend-online",
            "Friend online",
            user_label(&c.user, c.user_id.as_str()),
            &c.user_id,
            c.platform.as_str(),
            c.location.as_str(),
            user_label(&c.user, c.user_id.as_str()),
        ),
        PipelineEvent::FriendOffline(c) => fields_of_user(
            "friend-offline",
            "Friend offline",
            c.user_id.clone(),
            &c.user_id,
            c.platform.as_str(),
            "",
            c.user_id.clone(),
        ),
        PipelineEvent::FriendActive(c) => fields_of_user(
            "friend-active",
            "Friend active",
            user_label(&c.user, c.user_id.as_str()),
            &c.user_id,
            c.platform.as_str(),
            "",
            user_label(&c.user, c.user_id.as_str()),
        ),
        PipelineEvent::FriendLocation(c) => fields_of_user(
            "friend-location",
            "Friend location",
            user_label(&c.user, c.user_id.as_str()),
            &c.user_id,
            "",
            c.location.as_str(),
            c.location.clone(),
        ),
        PipelineEvent::FriendAdd(c) => fields_of_user(
            "friend-add",
            "Friend added",
            user_label(&c.user, c.user_id.as_str()),
            &c.user_id,
            "",
            "",
            user_label(&c.user, c.user_id.as_str()),
        ),
        PipelineEvent::FriendDelete { user_id } => fields_of_user(
            "friend-delete",
            "Friend removed",
            user_id.clone(),
            user_id,
            "",
            "",
            user_id.clone(),
        ),
        PipelineEvent::Notification(v) => notification_fields(v),
        PipelineEvent::NotificationV2(v) => notification_fields(v),
        PipelineEvent::InstanceQueueReady(c) => EventFields {
            key: owned("instance-queue-ready"),
            event: owned("Instance ready"),
            name: String::new(),
            user_id: None,
            platform: String::new(),
            location: c.instance_location.clone(),
            message: c.instance_location.clone(),
        },
        PipelineEvent::InstanceQueueJoined(c) => {
            let position = u64_text(c.position);
            EventFields {
                key: owned("instance-queue-joined"),
                event: owned("Instance queue"),
                name: String::new(),
                user_id: None,
                platform: String::new(),
                location: c.instance_location.clone(),
                message: concat(&owned("Position "), position.as_str()),
            }
        },
        _ => {
            let key = event_key(event);
            EventFields {
                key: owned(key),
                event: owned(key),
                name: String::new(),
                user_id: None,
                platform: String::new(),
                location: String::new(),
                message: owned(key),
            }
        },
    }
}

// ---------------------------------------------------------------------------
// Templates
// ---------------------------------------------------------------------------
/// A template with every placeholder filled in from the event's fields.
pub open spec fn rendered(template: Seq<char>, f: FieldsView) -> Seq<char> {
    let user_id = match f.user_id {
        Some(u) => u,
        None => Seq::empty(),
    };
    replace_all(
        replace_all(
            replace_all(
                replace_all(
                    replace_all(replace_all(template, "{event}"@, f.event), "{name}"@, f.name),
                    "{user_id}"@,
                    user_id,
                ),
                "{platform}"@,
                f.platform,
            ),
            "{location}"@,
            f.location,
        ),
        "{message}"@,
        f.message,
    )
}

pub fn render_template(template: &str, fields: &EventFields) -> (r: String)
    ensures
        r@ == rendered(template@, fields@),
{
    proof {
        reveal_strlit("{event}");
        reveal_strlit("{name}");
        reveal_strlit("{user_id}");
        reveal_strlit("{platform}");
        reveal_strlit("{location}");
        reveal_strlit("{message}");
    }
    let user_id = match &fields.user_id {
        Some(u) => u.clone(),
        None => String::new(),
    };
    let s = replace_str(&owned(template), "{event}", fields.event.as_str());
    let s = replace_str(&s, "{name}", fields.name.as_str());
    let s = replace_str(&s, "{user_id}", user_id.as_str());
    let s = replace_str(&s, "{platform}", fields.platform.as_str());
    let s = replace_str(&s, "{location}", fields.location.as_str());
    replace_str(&s, "{message}", fields.message.as_str())
}

/// A template filled in with sample values, for previews.
pub open spec fn preview_rendered(template: Seq<char>, event: Seq<char>) -> Seq<char> {
    replace_all(
        replace_all(
            replace_all(
                replace_all(
                    replace_all(replace_all(template, "{event}"@, event), "{name}"@, "Utilisateur test"@),
                    "{user_id}"@,
                    "usr_test"@,
                ),
                "{platform}"@,
                "PC"@,
            ),
            "{location}"@,
            "Monde de test"@,
        ),
        "{message}"@,
        "Ceci est une notification de test"@,
    )
}

pub fn render_preview_template(template: &str, event: &str) -> (r: String)
    ensures
        r@ == preview_rendered(template@, event@),
{
    proof {
        reveal_strlit("{event}");
        reveal_strlit("{name}");
        reveal_strlit("{user_id}");
        reveal_strlit("{platform}");
        reveal_strlit("{location}");
        reveal_strlit("{message}");
    }
    let s = replace_str(&owned(template), "{event}", event);
    let s = replace_str(&s, "{name}", "Utilisateur test");
    let s = replace_str(&s, "{user_id}", "usr_test");
    let s = replace_str(&s, "{platform}", "PC");
    let s = replace_str(&s, "{location}", "Monde de test");
    replace_str(&s, "{message}", "Ceci est une notification de test")
}

// ---------------------------------------------------------------------------
// Toasts
// ---------------------------------------------------------------------------
/// A notification on screen. `rule` names the rule it was made by, whose duration
/// and opacity apply to it.
#[derive(Debug, Clone, PartialEq, Eq)]
pub struct Toast {
    pub id: u64,
    pub title: String,
    pub body: String,
    pub accent: Rgb,
    pub background: Rgb,
    pub foreground: Rgb,
    pub rule: String,
}

/// The abstract value of a [`Toast`].
pub struct ToastView {
    pub id: u64,
    pub title: Seq<char>,
    pub body: Seq<char>,
    pub accent: Rgb,
    pub background: Rgb,
    pub foreground: Rgb,
    pub rule: Seq<char>,
}

impl View for Toast {
    type V = ToastView;

    open spec fn view(&self) -> ToastView {
        ToastView {
            id: self.id,
            title: self.title@,
            body: self.body@,
            accent: self.accent,
            background: self.background,
            foreground: self.foreground,
            rule: self.rule@,
        }
    }
}

impl Toast {
    /// A copy of the toast.
    pub fn copy(&self) -> (r: Toast)
        ensures
            r@ == self@,
    {
        Toast {
            id: self.id,
            title: self.title.clone(),
            body: self.body.clone(),
            accent: self.accent,
            background: self.background,
            foreground: self.foreground,
            rule: self.rule.clone(),
        }
    }
}

/// The views of a list of toasts.
pub open spec fn toasts_view(s: Seq<Toast>) -> Seq<ToastView> {
    s.map_values(|t: Toast| t@)
}

/// A rule lets a toast through: it is on, and it either selects nobody in
/// particular or selects the event's user.
pub open spec fn rule_admits(rule: EventRuleView, user_id: Option<Seq<char>>) -> bool {
    rule.enabled && (rule.selected_users.len() == 0 || match user_id {
        Some(u) => rule.selected_users.contains(u),
        None => false,
    })
}

/// The rule an event falls under, where the settings have one and it lets the event
/// through.
pub open spec fn admitting_rule(cfg: ScreenOverlayConfig, event: PipelineEvent) -> Option<EventRuleView> {
    let f = fields_of(event);
    let rules = rules_view(cfg.rules@);
    if rules.contains_key(f.key) && rule_admits(rules[f.key], f.user_id) {
        Some(rules[f.key])
    } else {
        None
    }
}

/// The toast an event makes, with the id `id`.
pub open spec fn toast_of(cfg: ScreenOverlayConfig, event: PipelineEvent, id: u64) -> Option<ToastView> {
    match admitting_rule(cfg, event) {
        Some(rule) => {
            let f = fields_of(event);
            Some(
                ToastView {
                    id,
                    title: rendered(rule.title, f),
                    body: rendered(rule.body, f),
                    accent: color_or(rule.accent, default_accent()),
                    background: color_or(cfg.background@, default_background()),
                    foreground: color_or(cfg.foreground@, default_foreground()),
                    rule: f.key,
                },
            )
        },
        None => None,
    }
}

/// Making a toast of the event reads only colours that can be read.
pub open spec fn toast_colors_ok(cfg: ScreenOverlayConfig, event: PipelineEvent) -> bool {
    match admitting_rule(cfg, event) {
        Some(rule) => color_text_ok(rule.accent) && color_text_ok(cfg.background@)
            && color_text_ok(cfg.foreground@),
        None => true,
    }
}

/// The id after `id`: ids wrap around but skip zero.
pub open spec fn next_id(id: u64) -> u64 {
    if id == u64::MAX {
        1
    } else {
        (id + 1) as u64
    }
}

/// The toasts the events above `watermark` make, in order, with ids from `next`, and
/// the id after them.
pub open spec fn emitted(cfg: ScreenOverlayConfig, events: Seq<RecentPipelineEvent>, watermark: u64, next: u64) -> (Seq<ToastView>, u64)
    decreases events.len(),
{
    if events.len() == 0 {
        (Seq::empty(), next)
    } else {
        let (prev, id) = emitted(cfg, events.drop_last(), watermark, next);
        let e = events.last();
        if e.sequence > watermark {
            match toast_of(cfg, e.event, id) {
                Some(t) => (prev.push(t), next_id(id)),
                None => (prev, id),
            }
        } else {
            (prev, id)
        }
    }
}

/// The largest sequence number among the events.
pub open spec fn newest_sequence(events: Seq<RecentPipelineEvent>) -> Option<u64>
    decreases events.len(),
{
    if events.len() == 0 {
        None
    } else {
        match newest_sequence(events.drop_last()) {
            Some(n) => if events.last().sequence > n {
                Some(events.last().sequence)
            } else {
                Some(n)
            },
            None => Some(events.last().sequence),
        }
    }
}

/// The watermark after a batch whose newest sequence is `newest`: it never goes down.
pub open spec fn raised(watermark: u64, newest: Option<u64>) -> u64 {
    match newest {
        Some(n) => if n > watermark {
            n
        } else {
            watermark
        },
        None => watermark,
    }
}

/// The toasts showing after `made` were shown, oldest dropped beyond `max`; showing
/// nothing changes nothing.
pub open spec fn shown_after(shown: Seq<ToastView>, made: Seq<ToastView>, max: nat) -> Seq<ToastView> {
    if made.len() == 0 {
        shown
    } else {
        kept(shown + made, max)
    }
}

/// Trimming to `max` before and after adding one item is trimming after it.
pub proof fn lemma_kept_push<T>(s: Seq<T>, x: T, max: nat)
    ensures
        kept(kept(s, max).push(x), max) == kept(s.push(x), max),
{
    if s.len() > max {
        assert(kept(kept(s, max).push(x), max) =~= kept(s.push(x), max));
    }
}

/// The rule a preview of `event` uses: the configured one, or the default rule.
pub open spec fn preview_rule(cfg: ScreenOverlayConfig, event: Seq<char>) -> EventRuleView {
    let rules = rules_view(cfg.rules@);
    if rules.contains_key(event) {
        rules[event]
    } else {
        default_rule_view()
    }
}

/// The sample toast a preview of `event` shows, with the id `id`. It is made whether
/// or not the overlay or the rule is enabled.
pub open spec fn preview_toast(cfg: ScreenOverlayConfig, event: Seq<char>, id: u64) -> ToastView {
    let rule = preview_rule(cfg, event);
    ToastView {
        id,
        title: preview_rendered(rule.title, event),
        body: preview_rendered(rule.body, event),
        accent: color_or(rule.accent, default_accent()),
        background: color_or(cfg.background@, default_background()),
        foreground: color_or(cfg.foreground@, default_foreground()),
        rule: event,
    }
}

/// A preview of `event` reads only colours that can be read.
pub open spec fn preview_colors_ok(cfg: ScreenOverlayConfig, event: Seq<char>) -> bool {
    &&& color_text_ok(preview_rule(cfg, event).accent)
    &&& color_text_ok(cfg.background@)
    &&& color_text_ok(cfg.foreground@)
}

/// The toasts left after the first one with id `id` is taken away; all of them where
/// none has it.
pub open spec fn without_id(s: Seq<ToastView>, id: u64) -> Seq<ToastView>
    decreases s.len(),
{
    if s.len() == 0 {
        s
    } else if s[0].id == id {
        s.drop_first()
    } else {
        seq![s[0]] + without_id(s.drop_first(), id)
    }
}

/// The on-screen notifications: the settings, the toasts showing (oldest first), the
/// newest event already seen, and the id of the next toast.
#[derive(Debug, Clone)]
pub struct ScreenOverlay {
    pub config: ScreenOverlayConfig,
    toasts: VecDeque<Toast>,
    last_sequence: Option<u64>,
    next_toast_id: u64,
}

impl ScreenOverlay {
    /// The toasts showing, oldest first.
    pub closed spec fn shown(&self) -> Seq<ToastView> {
        toasts_view(self.toasts@)
    }

    /// The settings.
    pub closed spec fn settings(&self) -> ScreenOverlayConfig {
        self.config
    }

    /// The newest event sequence already seen; none before the first snapshot.
    pub closed spec fn watermark(&self) -> Option<u64> {
        self.last_sequence
    }

    /// The id the next toast gets.
    pub closed spec fn upcoming_id(&self) -> u64 {
        if self.next_toast_id == 0 {
            1
        } else {
            self.next_toast_id
        }
    }

    /// The next toast id is at least one.
    pub proof fn lemma_upcoming_id_positive(self)
        ensures
            self.upcoming_id() >= 1,
    {
    }

    /// An overlay with nothing showing and nothing seen.
    pub fn from_config(config: ScreenOverlayConfig) -> (r: Self)
        ensures
            r.settings() == config,
            r.shown().len() == 0,
            r.watermark() is None,
            r.upcoming_id() == 1,
    {
        let r = ScreenOverlay { config, toasts: VecDeque::new(), last_sequence: None, next_toast_id: 1 };
        assert(toasts_view(r.toasts@) =~= Seq::<ToastView>::empty());
        r
    }

    /// The toasts showing, oldest first.
    pub fn toasts(&self) -> (r: &VecDeque<Toast>)
        ensures
            toasts_view(r@) == self.shown(),
    {
        &self.toasts
    }

    /// Something is showing.
    pub fn has_toasts(&self) -> (r: bool)
        ensures
            r == (self.shown().len() > 0),
    {
        self.toasts.len() > 0
    }

    /// Forgets the toasts and what was seen.
    pub fn reset(&mut self)
        ensures
            final(self).settings() == old(self).settings(),
            final(self).shown().len() == 0,
            final(self).watermark() is None,
            final(self).upcoming_id() == old(self).upcoming_id(),
    {
        self.toasts.clear();
        self.last_sequence = None;
    }

    /// Shows a toast, dropping the oldest beyond the limit.
    fn show(&mut self, toast: Toast)
        ensures
            final(self).settings() == old(self).settings(),
            final(self).watermark() == old(self).watermark(),
            final(self).upcoming_id() == old(self).upcoming_id(),
            final(self).shown() == kept(old(self).shown().push(toast@), old(self).settings().max_visible as nat),
    {
        let ghost before = self.toasts@;
        self.toasts.push_back(toast);
        let ghost full = self.toasts@;
        while self.toasts.len() > self.config.max_visible
            invariant
                self.config == old(self).settings(),
                self.last_sequence == old(self).last_sequence,
                self.next_toast_id == old(self).next_toast_id,
                self.toasts@.len() <= full.len(),
                self.toasts@ == full.subrange(full.len() - self.toasts@.len(), full.len() as int),
                full.len() <= self.config.max_visible ==> self.toasts@.len() == full.len(),
                full.len() > self.config.max_visible ==> self.toasts@.len() >= self.config.max_visible,
            decreases self.toasts@.len(),
        {
            self.toasts.pop_front();
            assert(self.toasts@ =~= full.subrange(full.len() - self.toasts@.len(), full.len() as int));
        }
        proof {
            let m = self.config.max_visible as nat;
            if full.len() <= m {
                assert(full.subrange(0, full.len() as int) =~= full);
            }
            assert(self.toasts@ =~= kept(full, m));
            assert(toasts_view(kept(full, m)) =~= kept(toasts_view(before).push(toast@), m));
        }
    }

    /// Takes the next toast id.
    fn take_id(&mut self) -> (id: u64)
        ensures
            id == old(self).upcoming_id(),
            final(self).upcoming_id() == next_id(id),
            final(self).settings() == old(self).settings(),
            final(self).shown() == old(self).shown(),
            final(self).watermark() == old(self).watermark(),
    {
        let id = if self.next_toast_id == 0 {
            1
        } else {
            self.next_toast_id
        };
        self.next_toast_id = if id == u64::MAX {
            1
        } else {
            id + 1
        };
        id
    }

    /// The toast an event makes, taking an id where it makes one.
    fn toast_for(&mut self, recent: &RecentPipelineEvent) -> (r: Option<Toast>)
        requires
            toast_colors_ok(old(self).settings(), recent.event),
        ensures
            final(self).settings() == old(self).settings(),
            final(self).shown() == old(self).shown(),
            final(self).watermark() == old(self).watermark(),
            match toast_of(old(self).settings(), recent.event, old(self).upcoming_id()) {
                Some(t) => r matches Some(x) && x@ == t && final(self).upcoming_id() == next_id(old(self).upcoming_id()),
                None => r is None && final(self).upcoming_id() == old(self).upcoming_id(),
            },
    {
        let fields = event_fields(&recent.event);
        let rule = match self.config.rules.get(fields.key.as_str()) {
            Some(rule) => rule,
            None => return None,
        };
        let admits = rule.enabled && (rule.selected_users.len() == 0 || match &fields.user_id {
            Some(u) => crate::text::any_eq(&rule.selected_users, u.as_str()),
            None => false,
        });
        if !admits {
            return None;
        }
        let title = render_template(rule.title.as_str(), &fields);
        let body = render_template(rule.body.as_str(), &fields);
        let accent = parse_color_or(rule.accent.as_str(), Rgb { red: 108, green: 140, blue: 255 });
        let background = parse_color_or(self.config.background.as_str(), Rgb { red: 17, green: 19, blue: 30 });
        let foreground = parse_color_or(self.config.foreground.as_str(), Rgb { red: 255, green: 255, blue: 255 });
        let id = self.take_id();
        Some(Toast { id, title, body, accent, background, foreground, rule: fields.key })
    }

    /// Shows a sample toast for the event kind `event`, whether or not the overlay is
    /// enabled, and returns it.
    pub fn preview(&mut self, event: &str) -> (r: Toast)
        requires
            preview_colors_ok(old(self).settings(), event@),
        ensures
            r@ == preview_toast(old(self).settings(), event@, old(self).upcoming_id()),
            final(self).settings() == old(self).settings(),
            final(self).watermark() == old(self).watermark(),
            final(self).upcoming_id() == next_id(old(self).upcoming_id()),
            final(self).shown() == kept(old(self).shown().push(r@), old(self).settings().max_visible as nat),
            r@.id >= 1,
    {
        proof {
            old(self).lemma_upcoming_id_positive();
        }
        let rule = match self.config.rules.get(event) {
            Some(rule) => rule.copy(),
            None => EventRule::default(),
        };
        let title = render_preview_template(rule.title.as_str(), event);
        let body = render_preview_template(rule.body.as_str(), event);
        let accent = parse_color_or(rule.accent.as_str(), Rgb { red: 108, green: 140, blue: 255 });
        let background = parse_color_or(self.config.background.as_str(), Rgb { red: 17, green: 19, blue: 30 });
        let foreground = parse_color_or(self.config.foreground.as_str(), Rgb { red: 255, green: 255, blue: 255 });
        let id = self.take_id();
        let toast = Toast { id, title, body, accent, background, foreground, rule: owned(event) };
        let r = toast.copy();
        self.show(toast);
        r
    }

    /// Whether [`preview`](Self::preview) can show `event`.
    pub fn preview_is_safe(&self, event: &str) -> (r: bool)
        ensures
            r == preview_colors_ok(self.settings(), event@),
    {
        let accent_ok = match self.config.rules.get(event) {
            Some(rule) => color_text_readable(rule.accent.as_str()),
            None => color_text_readable("#6C8CFF"),
        };
        accent_ok && color_text_readable(self.config.background.as_str())
            && color_text_readable(self.config.foreground.as_str())
    }

    /// Takes away the first toast with id `id`, where one shows, and tells whether
    /// none is left.
    pub fn expire(&mut self, id: u64) -> (r: bool)
        ensures
            final(self).shown() == without_id(old(self).shown(), id),
            r == (final(self).shown().len() == 0),
            final(self).settings() == old(self).settings(),
            final(self).watermark() == old(self).watermark(),
            final(self).upcoming_id() == old(self).upcoming_id(),
    {
        let ghost all = self.shown();
        let n = self.toasts.len();
        let mut i: usize = 0;
        proof {
            assert(all.skip(0) =~= all);
            assert(all.take(0) + without_id(all, id) =~= without_id(all, id));
        }
        while i < n
            invariant
                n == self.toasts@.len(),
                all == toasts_view(self.toasts@),
                all == toasts_view(old(self).toasts@),
                self.config == old(self).config,
                self.last_sequence == old(self).last_sequence,
                self.next_toast_id == old(self).next_toast_id,
                i <= n,
                without_id(all, id) == all.take(i as int) + without_id(all.skip(i as int), id),
            decreases n - i,
        {
            if self.toasts[i].id == id {
                proof {
                    assert(all.skip(i as int)[0].id == id);
                    assert(all.skip(i as int).drop_first() =~= all.skip(i + 1));
                    assert(without_id(all.skip(i as int), id) == all.skip(i + 1));
                }
                self.toasts.remove(i);
                proof {
                    assert(toasts_view(self.toasts@) =~= all.take(i as int) + all.skip(i + 1));
                }
                return self.toasts.len() == 0;
            }
            proof {
                assert(all.skip(i as int)[0] == all[i as int]);
                assert(all.skip(i as int).drop_first() =~= all.skip(i + 1));
                assert(all.take(i as int) + seq![all[i as int]] =~= all.take(i + 1));
                assert(all.take(i as int) + (seq![all[i as int]] + without_id(all.skip(i + 1), id))
                    =~= all.take(i + 1) + without_id(all.skip(i + 1), id));
            }
            i = i + 1;
        }
        proof {
            assert(all.skip(n as int) =~= Seq::<ToastView>::empty());
            assert(all.take(n as int) =~= all);
        }
        self.toasts.len() == 0
    }

    /// Events above the watermark whose toasts can be made read only readable colours.
    pub open spec fn ingest_colors_ok(&self, events: Seq<RecentPipelineEvent>) -> bool {
        match self.watermark() {
            Some(w) => self.settings().enabled ==> forall|i: int|
                0 <= i < events.len() && #[trigger] events[i].sequence > w ==> toast_colors_ok(
                    self.settings(),
                    events[i].event,
                ),
            None => true,
        }
    }

    /// Takes in the recent events and returns the toasts they newly make. The first
    /// snapshot only sets the watermark, so cached events never make a burst of toasts
    /// when the client starts; after that, each event above the watermark makes a
    /// toast where its rule lets it through, while the overlay is enabled. The
    /// watermark then rises to the newest event taken in, and never goes down.
    pub fn ingest(&mut self, events: &VecDeque<RecentPipelineEvent>) -> (r: Vec<Toast>)
        requires
            old(self).ingest_colors_ok(events@),
        ensures
            final(self).settings() == old(self).settings(),
            old(self).watermark() is None ==> {
                &&& r@.len() == 0
                &&& final(self).watermark() == newest_sequence(events@)
                &&& final(self).shown() == old(self).shown()
                &&& final(self).upcoming_id() == old(self).upcoming_id()
            },
            old(self).watermark() matches Some(w) ==> {
                &&& final(self).watermark() == Some(raised(w, newest_sequence(events@)))
                &&& old(self).settings().enabled ==> {
                    let (made, next) = emitted(old(self).settings(), events@, w, old(self).upcoming_id());
                    &&& toasts_view(r@) == made
                    &&& final(self).upcoming_id() == next
                    &&& final(self).shown() == shown_after(old(self).shown(), made, old(self).settings().max_visible as nat)
                }
                &&& !old(self).settings().enabled ==> {
                    &&& r@.len() == 0
                    &&& final(self).shown() == old(self).shown()
                    &&& final(self).upcoming_id() == old(self).upcoming_id()
                }
            },
    {
        let newest = newest_of(events);
        let mut accepted: Vec<Toast> = Vec::new();
        let watermark = match self.last_sequence {
            Some(w) => w,
            None => {
                self.last_sequence = newest;
                return accepted;
            },
        };
        if self.config.enabled {
            let ghost start_shown = self.shown();
            let ghost start_id = self.upcoming_id();
            let ghost cfg = self.config;
            let ghost all = events@;
            let n = events.len();
            assert(all.take(0) =~= Seq::<RecentPipelineEvent>::empty());
            assert(toasts_view(accepted@) =~= Seq::<ToastView>::empty());
            for i in 0..n
                invariant
                    n == events@.len(),
                    all == events@,
                    self.config == cfg,
                    cfg.enabled,
                    self.watermark() == Some(watermark),
                    forall|k: int| 0 <= k < all.len() && #[trigger] all[k].sequence > watermark ==> toast_colors_ok(cfg, all[k].event),
                    toasts_view(accepted@) == emitted(cfg, all.take(i as int), watermark, start_id).0,
                    self.upcoming_id() == emitted(cfg, all.take(i as int), watermark, start_id).1,
                    self.shown() == shown_after(start_shown, toasts_view(accepted@), cfg.max_visible as nat),
            {
                assert(all.take(i + 1).drop_last() =~= all.take(i as int));
                assert(all.take(i + 1).last() == all[i as int]);
                let recent = &events[i];
                if recent.sequence > watermark {
                    match self.toast_for(recent) {
                        Some(t) => {
                            let ghost before_accepted = toasts_view(accepted@);
                            let ghost before_shown = self.shown();
                            accepted.push(t.copy());
                            assert(toasts_view(accepted@) =~= before_accepted.push(t@));
                            self.show(t);
                            proof {
                                assert((start_shown + before_accepted).push(t@) =~= start_shown + toasts_view(accepted@));
                                if before_accepted.len() > 0 {
                                    lemma_kept_push(start_shown + before_accepted, t@, cfg.max_visible as nat);
                                }
                            }
                        },
                        None => {},
                    }
                }
            }
            assert(all.take(n as int) =~= all);
        } else {
            assert(toasts_view(accepted@) =~= Seq::<ToastView>::empty());
        }
        self.last_sequence = match newest {
            Some(s) => if s > watermark {
                Some(s)
            } else {
                Some(watermark)
            },
            None => Some(watermark),
        };
        accepted
    }

    /// Whether [`ingest`](Self::ingest) can take these events.
    pub fn ingest_is_safe(&self, events: &VecDeque<RecentPipelineEvent>) -> (r: bool)
        ensures
            r == self.ingest_colors_ok(events@),
    {
        let w = match self.last_sequence {
            Some(w) => w,
            None => return true,
        };
        if !self.config.enabled {
            return true;
        }
        let n = events.len();
        for i in 0..n
            invariant
                n == events@.len(),
                self.watermark() == Some(w),
                self.config.enabled,
                forall|k: int| 0 <= k < i && #[trigger] events@[k].sequence > w ==> toast_colors_ok(self.config, events@[k].event),
        {
            if events[i].sequence > w && !self.toast_colors_readable(&events[i].event) {
                return false;
            }
        }
        true
    }

    /// Whether making a toast of the event reads only readable colours.
    fn toast_colors_readable(&self, event: &PipelineEvent) -> (r: bool)
        ensures
            r == toast_colors_ok(self.config, *event),
    {
        let fields = event_fields(event);
        let rule = match self.config.rules.get(fields.key.as_str()) {
            Some(rule) => rule,
            None => return true,
        };
        let admits = rule.enabled && (rule.selected_users.len() == 0 || match &fields.user_id {
            Some(u) => crate::text::any_eq(&rule.selected_users, u.as_str()),
            None => false,
        });
        if !admits {
            return true;
        }
        color_text_readable(rule.accent.as_str()) && color_text_readable(self.config.background.as_str())
            && color_text_readable(self.config.foreground.as_str())
    }
}

/// The largest sequence number among the events.
fn newest_of(events: &VecDeque<RecentPipelineEvent>) -> (r: Option<u64>)
    ensures
        r == newest_sequence(events@),
{
    let ghost all = events@;
    let mut best: Option<u64> = None;
    let n = events.len();
    assert(all.take(0) =~= Seq::<RecentPipelineEvent>::empty());
    for i in 0..n
        invariant
            n == events@.len(),
            all == events@,
            best == newest_sequence(all.take(i as int)),
    {
        assert(all.take(i + 1).drop_last() =~= all.take(i as int));
        assert(all.take(i + 1).last() == all[i as int]);
        let s = events[i].sequence;
        best = match best {
            Some(b) => if s > b {
                Some(s)
            } else {
                Some(b)
            },
            None => Some(s),
        };
    }
    assert(all.take(n as int) =~= all);
    best
}

// ---------------------------------------------------------------------------
// Laws
// ---------------------------------------------------------------------------
/// No event is newer than the newest.
proof fn lemma_newest_bounds(events: Seq<RecentPipelineEvent>)
    ensures
        newest_sequence(events) matches Some(n) ==> forall|i: int|
            0 <= i < events.len() ==> #[trigger] events[i].sequence <= n,
        events.len() > 0 ==> newest_sequence(events) is Some,
    decreases events.len(),
{
    if events.len() > 0 {
        let d = events.drop_last();
        lemma_newest_bounds(d);
        if let Some(n) = newest_sequence(events) {
            assert forall|i: int| 0 <= i < events.len() implies #[trigger] events[i].sequence <= n by {
                if i < events.len() - 1 {
                    assert(events[i] == d[i]);
                }
            }
        }
    }
}

/// Events no newer than the watermark make no toast.
proof fn lemma_nothing_above(cfg: ScreenOverlayConfig, events: Seq<RecentPipelineEvent>, watermark: u64, next: u64)
    requires
        forall|i: int| 0 <= i < events.len() ==> #[trigger] events[i].sequence <= watermark,
    ensures
        emitted(cfg, events, watermark, next) == (Seq::<ToastView>::empty(), next),
    decreases events.len(),
{
    if events.len() > 0 {
        assert forall|i: int| 0 <= i < events.len() - 1 implies #[trigger] events.drop_last()[i].sequence <= watermark by {
            assert(events.drop_last()[i] == events[i]);
        }
        lemma_nothing_above(cfg, events.drop_last(), watermark, next);
        assert(events.last().sequence <= watermark);
    }
}

/// Events are shown once: once the watermark has reached the newest of some events,
/// taking the same events in again makes no toast and takes no id.
pub proof fn law_seen_events_make_no_toast(cfg: ScreenOverlayConfig, events: Seq<RecentPipelineEvent>, next: u64)
    requires
        newest_sequence(events) is Some,
    ensures
        emitted(cfg, events, newest_sequence(events)->0, next) == (Seq::<ToastView>::empty(), next),
{
    lemma_newest_bounds(events);
    lemma_nothing_above(cfg, events, newest_sequence(events)->0, next);
}

/// Whether an event is newer than the watermark.
pub open spec fn above(watermark: u64) -> spec_fn(RecentPipelineEvent) -> bool {
    |e: RecentPipelineEvent| e.sequence > watermark
}

/// Only events above the watermark count: a batch makes exactly the toasts its events
/// above the watermark make, so no event at or below the watermark makes a toast.
pub proof fn law_only_events_above_watermark_count(
    cfg: ScreenOverlayConfig,
    events: Seq<RecentPipelineEvent>,
    watermark: u64,
    next: u64,
)
    ensures
        emitted(cfg, events, watermark, next) == emitted(cfg, events.filter(above(watermark)), watermark, next),
    decreases events.len(),
{
    reveal(Seq::filter);
    if events.len() > 0 {
        let d = events.drop_last();
        law_only_events_above_watermark_count(cfg, d, watermark, next);
        let f = events.filter(above(watermark));
        if events.last().sequence > watermark {
            assert(f.drop_last() == d.filter(above(watermark)));
            assert(f.last() == events.last());
        } else {
            assert(f == d.filter(above(watermark)));
        }
    }
}

/// The watermark never goes down, and after a batch it has reached the batch's newest
/// event: with [`law_only_events_above_watermark_count`], an event that made a toast
/// never makes another.
pub proof fn law_watermark_never_lowers(watermark: u64, newest: Option<u64>)
    ensures
        raised(watermark, newest) >= watermark,
        newest matches Some(n) ==> raised(watermark, newest) >= n,
{
}

/// Events no newer than the watermark make no toast and take no id: after the first
/// batch only set the watermark to its newest event, none of its events ever makes a
/// toast.
pub proof fn law_events_at_or_below_watermark_make_no_toast(
    cfg: ScreenOverlayConfig,
    events: Seq<RecentPipelineEvent>,
    watermark: u64,
    next: u64,
)
    requires
        forall|i: int| 0 <= i < events.len() ==> #[trigger] events[i].sequence <= watermark,
    ensures
        emitted(cfg, events, watermark, next) == (Seq::<ToastView>::empty(), next),
{
    lemma_nothing_above(cfg, events, watermark, next);
}

/// After at least one toast was shown, no more than `max_visible` show.
pub proof fn law_toasts_within_limit(shown: Seq<ToastView>, made: Seq<ToastView>, max: nat)
    requires
        made.len() > 0,
    ensures
        shown_after(shown, made, max).len() <= max,
        shown_after(shown, made, max).len() <= shown.len() + made.len(),
{
}

/// Toast ids are never zero.
pub proof fn law_ids_never_zero(id: u64)
    ensures
        next_id(id) != 0,
{
}

/// Every overlay's next toast id is at least one, and the id after it differs from
/// it: successive previews and toasts get distinct ids until the ids wrap around.
pub proof fn law_upcoming_id_positive(o: ScreenOverlay)
    ensures
        o.upcoming_id() >= 1,
        next_id(o.upcoming_id()) != o.upcoming_id(),
{
    o.lemma_upcoming_id_positive();
}

/// An expired toast is gone: where ids are distinct, taking away the toast with id
/// `id` leaves none with it, and keeps the others in order.
pub proof fn law_expired_toast_is_gone(s: Seq<ToastView>, id: u64)
    requires
        forall|i: int, j: int| 0 <= i < j < s.len() ==> #[trigger] s[i].id != #[trigger] s[j].id,
    ensures
        forall|k: int| 0 <= k < without_id(s, id).len() ==> #[trigger] without_id(s, id)[k].id != id,
        without_id(s, id).len() == if exists|k: int| 0 <= k < s.len() && #[trigger] s[k].id == id {
            s.len() - 1
        } else {
            s.len() as int
        },
    decreases s.len(),
{
    if s.len() > 0 {
        let t = s.drop_first();
        assert forall|i: int, j: int| 0 <= i < j < t.len() implies #[trigger] t[i].id != #[trigger] t[j].id by {
            assert(t[i] == s[i + 1] && t[j] == s[j + 1]);
        }
        law_expired_toast_is_gone(t, id);
        if s[0].id == id {
            assert forall|k: int| 0 <= k < t.len() implies #[trigger] t[k].id != id by {
                assert(t[k] == s[k + 1]);
            }
        } else {
            let w = without_id(t, id);
            assert forall|k: int| 0 <= k < without_id(s, id).len() implies #[trigger] without_id(s, id)[k].id != id by {
                if k > 0 {
                    assert(without_id(s, id)[k] == w[k - 1]);
                }
            }
            if exists|k: int| 0 <= k < s.len() && #[trigger] s[k].id == id {
                let k = choose|k: int| 0 <= k < s.len() && #[trigger] s[k].id == id;
                assert(t[k - 1].id == id);
            } else {
                assert forall|k: int| 0 <= k < t.len() implies #[trigger] t[k].id != id by {
                    assert(t[k] == s[k + 1]);
                }
            }
        }
    }
}

/// A rule is keyed by the type name the event came with on the wire: an event read
/// from a message of type `event_type` has that key, so the rule of that name applies
/// to it. The exceptions are `notification-v2` events, which share the `notification`
/// rule, and events of unknown types, which fall under `unknown`.
pub proof fn law_rule_key_is_the_wire_type(event_type: Seq<char>, content: JsonView, event: PipelineEvent)
    requires
        event_outcome(event_type, content, Ok(event)),
    ensures
        !(event is NotificationV2) && !(event is Unknown) ==> fields_of(event).key == event_type,
        event is NotificationV2 ==> fields_of(event).key == "notification"@,
        event is Unknown ==> fields_of(event).key == "unknown"@,
{
}

/// A notification's toast reads the notification: `{message}` is its `message`
/// member, `{name}` its sender's name and the user its sender, each empty (or none)
/// where the member is missing; `notification-v2` reads the same way.
pub proof fn law_notification_fields_read_the_notification(v: Json)
    ensures
        ({
            let f = fields_of(PipelineEvent::Notification(v));
            let g = fields_of(PipelineEvent::NotificationV2(v));
            &&& f == g
            &&& f.key == "notification"@
            &&& f.user_id == v@.field_text("senderUserId"@)
            &&& (v@.field_text("message"@) matches Some(m) ==> f.message == m)
            &&& (v@.field_text("message"@) is None ==> f.message.len() == 0)
            &&& (v@.field_text("senderUsername"@) matches Some(n) ==> f.name == n)
            &&& (v@.field_text("senderUsername"@) is None ==> f.name.len() == 0)
        }),
{
}

/// A friend event's toast is about the friend it names: its user is that friend and
/// its key is the event's type name.
pub proof fn law_friend_event_fields_name_the_friend(event: PipelineEvent)
    ensures
        event matches PipelineEvent::FriendOnline(c) ==> fields_of(event).user_id == Some(c.user_id@)
            && fields_of(event).key == "friend-online"@ && fields_of(event).location == c.location@,
        event matches PipelineEvent::FriendOffline(c) ==> fields_of(event).user_id == Some(c.user_id@)
            && fields_of(event).key == "friend-offline"@,
        event matches PipelineEvent::FriendActive(c) ==> fields_of(event).user_id == Some(c.user_id@)
            && fields_of(event).key == "friend-active"@,
        event matches PipelineEvent::FriendLocation(c) ==> fields_of(event).user_id == Some(c.user_id@)
            && fields_of(event).key == "friend-location"@ && fields_of(event).location == c.location@,
        event matches PipelineEvent::FriendAdd(c) ==> fields_of(event).user_id == Some(c.user_id@)
            && fields_of(event).key == "friend-add"@,
        event matches PipelineEvent::FriendDelete { user_id } ==> fields_of(event).user_id == Some(user_id@)
            && fields_of(event).key == "friend-delete"@,
{
}

/// Replacing a pattern a text does not hold leaves the text as it is.
proof fn lemma_replace_absent(s: Seq<char>, p: Seq<char>, r: Seq<char>)
    requires
        p.len() > 0,
        !contains_seq(s, p),
    ensures
        replace_all(s, p, r) == s,
    decreases s.len(),
{
    if s.len() >= p.len() {
        assert(!p.is_prefix_of(s)) by {
            if p.is_prefix_of(s) {
                let i = 0int;
                assert(s.subrange(i, i + p.len()) =~= p);
            }
        }
        let t = s.drop_first();
        assert(!contains_seq(t, p)) by {
            if contains_seq(t, p) {
                let i = choose|i: int| 0 <= i && i + p.len() <= t.len() && #[trigger] t.subrange(i, i + p.len()) == p;
                assert(s.subrange(i + 1, i + 1 + p.len()) =~= t.subrange(i, i + p.len()));
            }
        }
        lemma_replace_absent(t, p, r);
        assert(seq![s[0]] + t =~= s);
    }
}

/// A text with no `{` holds no placeholder.
proof fn lemma_no_brace_no_placeholder(s: Seq<char>, p: Seq<char>)
    requires
        p.len() > 0,
        p[0] == '{',
        forall|k: int| 0 <= k < s.len() ==> s[k] != '{',
    ensures
        !contains_seq(s, p),
{
    if contains_seq(s, p) {
        let i = choose|i: int| 0 <= i && i + p.len() <= s.len() && #[trigger] s.subrange(i, i + p.len()) == p;
        assert(s.subrange(i, i + p.len())[0] == s[i]);
    }
}

/// Text that holds a `{` only at its start, followed by a character other than the
/// pattern's second one, does not hold the pattern.
proof fn lemma_other_placeholder(s: Seq<char>, p: Seq<char>)
    requires
        p.len() >= 2,
        s.len() >= 2,
        p[0] == '{',
        s[1] != p[1],
        forall|k: int| 1 <= k < s.len() ==> s[k] != '{',
    ensures
        !contains_seq(s, p),
{
    if contains_seq(s, p) {
        let i = choose|i: int| 0 <= i && i + p.len() <= s.len() && #[trigger] s.subrange(i, i + p.len()) == p;
        assert(s.subrange(i, i + p.len())[0] == s[i]);
        assert(s.subrange(i, i + p.len())[1] == s[i + 1]);
    }
}

/// A template with no placeholder in it is shown as written, whatever the event.
pub proof fn law_plain_template_is_shown_as_written(template: Seq<char>, f: FieldsView)
    requires
        forall|k: int| 0 <= k < template.len() ==> template[k] != '{',
    ensures
        rendered(template, f) == template,
{
    reveal_strlit("{event}");
    reveal_strlit("{name}");
    reveal_strlit("{user_id}");
    reveal_strlit("{platform}");
    reveal_strlit("{location}");
    reveal_strlit("{message}");
    let user_id = match f.user_id {
        Some(u) => u,
        None => Seq::empty(),
    };
    lemma_no_brace_no_placeholder(template, "{event}"@);
    lemma_replace_absent(template, "{event}"@, f.event);
    lemma_no_brace_no_placeholder(template, "{name}"@);
    lemma_replace_absent(template, "{name}"@, f.name);
    lemma_no_brace_no_placeholder(template, "{user_id}"@);
    lemma_replace_absent(template, "{user_id}"@, user_id);
    lemma_no_brace_no_placeholder(template, "{platform}"@);
    lemma_replace_absent(template, "{platform}"@, f.platform);
    lemma_no_brace_no_placeholder(template, "{location}"@);
    lemma_replace_absent(template, "{location}"@, f.location);
    lemma_no_brace_no_placeholder(template, "{message}"@);
    lemma_replace_absent(template, "{message}"@, f.message);
}

/// The template `{message}` shows the event's message as it is: for a notification,
/// the notification's `message` member.
pub proof fn law_message_template_shows_the_message(f: FieldsView)
    ensures
        rendered("{message}"@, f) == f.message,
{
    reveal_strlit("{event}");
    reveal_strlit("{name}");
    reveal_strlit("{user_id}");
    reveal_strlit("{platform}");
    reveal_strlit("{location}");
    reveal_strlit("{message}");
    let t = "{message}"@;
    let user_id = match f.user_id {
        Some(u) => u,
        None => Seq::empty(),
    };
    lemma_other_placeholder(t, "{event}"@);
    lemma_replace_absent(t, "{event}"@, f.event);
    lemma_other_placeholder(t, "{name}"@);
    lemma_replace_absent(t, "{name}"@, f.name);
    lemma_other_placeholder(t, "{user_id}"@);
    lemma_replace_absent(t, "{user_id}"@, user_id);
    lemma_other_placeholder(t, "{platform}"@);
    lemma_replace_absent(t, "{platform}"@, f.platform);
    lemma_other_placeholder(t, "{location}"@);
    lemma_replace_absent(t, "{location}"@, f.location);
    assert(forall|k: int| 1 <= k < t.len() ==> t[k] != '{');
    assert(replace_all(t, "{event}"@, f.event) == t);
    assert(replace_all(t, "{name}"@, f.name) == t);
    assert(t.is_prefix_of(t));
    assert(t.skip(t.len() as int) =~= Seq::<char>::empty());
    assert(replace_all(Seq::<char>::empty(), t, f.message) == Seq::<char>::empty());
    assert(replace_all(t, t, f.message) == f.message + replace_all(t.skip(t.len() as int), t, f.message));
    assert(f.message + Seq::<char>::empty() =~= f.message);
}

} // verus!
