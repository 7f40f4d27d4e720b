//! The settings of the on-screen notifications. Rules are keyed by pipeline event
//! names such as `friend-online`, `friend-offline`, `notification` or
//! `instance-queue-ready`. Durations and opacities are measurements and are kept by
//! the caller beside these settings.
use vstd::prelude::*;
use crate::table::Table;
use crate::text::{owned, strs};

verus! {

/// How events of one kind are shown.
#[derive(Debug, Clone, PartialEq, Eq)]
pub struct EventRule {
    pub enabled: bool,
    /// Explicit selection. When empty, `favorites_only` chooses favorites or everyone.
    pub selected_users: Vec<String>,
    /// Used when `selected_users` is empty. Non-user events ignore this filter.
    pub favorites_only: bool,
    pub title: String,
    pub body: String,
    pub accent: String,
    pub show_profile_picture: bool,
    pub show_world_picture: bool,
}

/// The abstract value of an [`EventRule`].
pub struct EventRuleView {
    pub enabled: bool,
    pub selected_users: Seq<Seq<char>>,
    pub favorites_only: bool,
    pub title: Seq<char>,
    pub body: Seq<char>,
    pub accent: Seq<char>,
    pub show_profile_picture: bool,
    pub show_world_picture: bool,
}

impl View for EventRule {
    type V = EventRuleView;

    open spec fn view(&self) -> EventRuleView {
        EventRuleView {
            enabled: self.enabled,
            selected_users: strs(self.selected_users@),
            favorites_only: self.favorites_only,
            title: self.title@,
            body: self.body@,
            accent: self.accent@,
            show_profile_picture: self.show_profile_picture,
            show_world_picture: self.show_world_picture,
        }
    }
}

impl EventRule {
    /// A copy of the rule.
    pub fn copy(&self) -> (r: EventRule)
        ensures
            r@ == self@,
    {
        EventRule {
            enabled: self.enabled,
            selected_users: crate::text::copy_strings(&self.selected_users),
            favorites_only: self.favorites_only,
            title: self.title.clone(),
            body: self.body.clone(),
            accent: self.accent.clone(),
            show_profile_picture: self.show_profile_picture,
            show_world_picture: self.show_world_picture,
        }
    }
}

/// The rule of an event kind nobody configured: off, with the event's name as title
/// and its message as body.
pub open spec fn default_rule_view() -> EventRuleView {
    EventRuleView {
        enabled: false,
        selected_users: Seq::empty(),
        favorites_only: true,
        title: "{event}"@,
        body: "{message}"@,
        accent: "#6C8CFF"@,
        show_profile_picture: true,
        show_world_picture: true,
    }
}

impl Default for EventRule {
    fn default() -> (r: Self)
        ensures
            r@ == default_rule_view(),
    {
        let r = EventRule {
            enabled: false,
            selected_users: Vec::new(),
            favorites_only: true,
            title: owned("{event}"),
            body: owned("{message}"),
            accent: owned("#6C8CFF"),
            show_profile_picture: true,
            show_world_picture: true,
        };
        assert(strs(r.selected_users@) =~= Seq::<Seq<char>>::empty());
        r
    }
}

/// An enabled rule with its own texts and accent.
pub open spec fn enabled_rule_view(title: Seq<char>, body: Seq<char>, accent: Seq<char>) -> EventRuleView {
    EventRuleView { enabled: true, title, body, accent, ..default_rule_view() }
}

fn enabled_rule(title: &str, body: &str, accent: &str) -> (r: EventRule)
    ensures
        r@ == enabled_rule_view(title@, body@, accent@),
{
    let mut r = EventRule::default();
    r.enabled = true;
    r.title = owned(title);
    r.body = owned(body);
    r.accent = owned(accent);
    r
}

/// The rules the settings start with.
pub open spec fn default_rules_view() -> Map<Seq<char>, EventRuleView> {
    Map::empty().insert(
        "friend-online"@,
        enabled_rule_view("{name} est en ligne"@, "Connecte depuis {platform}"@, "#6C8CFF"@),
    ).insert("notification"@, enabled_rule_view("Notification VRChat"@, "{message}"@, "#9B7BFF"@)).insert(
        "instance-queue-ready"@,
        enabled_rule_view("Instance disponible"@, "La file d'attente est terminee."@, "#54D39B"@),
    ).insert("friend-offline"@, default_rule_view()).insert("friend-active"@, default_rule_view()).insert(
        "friend-location"@,
        default_rule_view(),
    ).insert("friend-add"@, default_rule_view()).insert("friend-delete"@, default_rule_view()).insert(
        "instance-queue-joined"@,
        default_rule_view(),
    ).insert("user-location"@, default_rule_view())
}

/// The views of a table of rules.
pub open spec fn rules_view(t: Map<Seq<char>, EventRule>) -> Map<Seq<char>, EventRuleView> {
    t.map_values(|r: EventRule| r@)
}

/// The rules the settings start with.
pub fn default_rules() -> (r: Table<EventRule>)
    ensures
        rules_view(r@) == default_rules_view(),
{
    let mut t: Table<EventRule> = Table::new();
    t.insert(owned("friend-online"), enabled_rule("{name} est en ligne", "Connecte depuis {platform}", "#6C8CFF"));
    t.insert(owned("notification"), enabled_rule("Notification VRChat", "{message}", "#9B7BFF"));
    t.insert(
        owned("instance-queue-ready"),
        enabled_rule("Instance disponible", "La file d'attente est terminee.", "#54D39B"),
    );
    t.insert(owned("friend-offline"), EventRule::default());
    t.insert(owned("friend-active"), EventRule::default());
    t.insert(owned("friend-location"), EventRule::default());
    t.insert(owned("friend-add"), EventRule::default());
    t.insert(owned("friend-delete"), EventRule::default());
    t.insert(owned("instance-queue-joined"), EventRule::default());
    t.insert(owned("user-location"), EventRule::default());
    assert(rules_view(t@) =~= default_rules_view());
    t
}

/// The settings of the on-screen notifications, less durations and opacities.
#[derive(Debug, Clone)]
pub struct ScreenOverlayConfig {
    pub enabled: bool,
    pub width: u16,
    pub margin: u16,
    pub spacing: u16,
    pub max_visible: usize,
    pub background: String,
    pub foreground: String,
    pub rules: Table<EventRule>,
}

impl Default for ScreenOverlayConfig {
    fn default() -> (r: Self)
        ensures
            r.enabled,
            r.width == 380,
            r.margin == 18,
            r.spacing == 8,
            r.max_visible == 4,
            r.background@ == "#11131E"@,
            r.foreground@ == "#F5F7FF"@,
            rules_view(r.rules@) == default_rules_view(),
    {
        ScreenOverlayConfig {
            enabled: true,
            width: 380,
            margin: 18,
            spacing: 8,
            max_visible: 4,
            background: owned("#11131E"),
            foreground: owned("#F5F7FF"),
            rules: default_rules(),
        }
    }
}

/// `rules` with every default rule added that it lacks.
pub open spec fn completed_rules(rules: Map<Seq<char>, EventRuleView>) -> Map<Seq<char>, EventRuleView> {
    Map::new(
        |k: Seq<char>| rules.contains_key(k) || default_rules_view().contains_key(k),
        |k: Seq<char>| if rules.contains_key(k) {
            rules[k]
        } else {
            default_rules_view()[k]
        },
    )
}

/// `v` within `[lo, hi]`.
pub open spec fn clamped(v: int, lo: int, hi: int) -> int {
    if v < lo {
        lo
    } else if v > hi {
        hi
    } else {
        v
    }
}

impl ScreenOverlayConfig {
    /// The settings with every default rule they lack added and the sizes brought
    /// into range: width 240 to 720, margin at most 128, spacing at most 48, one to
    /// eight toasts.
    pub fn sanitized(self) -> (r: Self)
        ensures
            r.enabled == self.enabled,
            r.width == clamped(self.width as int, 240, 720),
            r.margin == clamped(self.margin as int, 0, 128),
            r.spacing == clamped(self.spacing as int, 0, 48),
            r.max_visible == clamped(self.max_visible as int, 1, 8),
            r.background == self.background,
            r.foreground == self.foreground,
            rules_view(r.rules@) == completed_rules(rules_view(self.rules@)),
    {
        let ScreenOverlayConfig {
            enabled,
            width,
            margin,
            spacing,
            max_visible,
            background,
            foreground,
            rules,
        } = self;
        let mut rules = rules;
        let defaults = default_rules();
        let keys = defaults.keys();
        let ghost start = rules_view(rules@);
        let ghost dv = default_rules_view();
        let n = keys.len();
        for i in 0..n
            invariant
                n == keys@.len(),
                rules_view(defaults@) == dv,
                forall|j: int| 0 <= j < keys@.len() ==> defaults@.contains_key(#[trigger] keys@[j]@),
                forall|k: Seq<char>| defaults@.contains_key(k) ==> exists|j: int| 0 <= j < keys@.len() && #[trigger] keys@[j]@ == k,
                forall|k: Seq<char>| #[trigger] rules_view(rules@).contains_key(k) == (start.contains_key(k) || exists|j: int| 0 <= j < i && #[trigger] keys@[j]@ == k),
                forall|k: Seq<char>| rules_view(rules@).contains_key(k) ==> #[trigger] rules_view(rules@)[k] == if start.contains_key(k) {
                    start[k]
                } else {
                    dv[k]
                },
        {
            let key = &keys[i];
            if !rules.contains_key(key.as_str()) {
                let rule = match defaults.get(key.as_str()) {
                    Some(r) => r.copy(),
                    None => EventRule::default(),
                };
                let ghost before = rules_view(rules@);
                assert(!rules_view(rules@).contains_key(key@));
                assert(!start.contains_key(key@));
                assert(defaults@.contains_key(key@));
                assert(rule@ == dv[key@]);
                rules.insert(key.clone(), rule);
                assert(rules_view(rules@) =~= before.insert(key@, dv[key@]));
            }
        }
        proof {
            assert forall|k: Seq<char>| #[trigger] rules_view(rules@).contains_key(k) == (start.contains_key(k) || dv.contains_key(k)) by {
                if dv.contains_key(k) {
                    assert(defaults@.contains_key(k));
                }
                if exists|j: int| 0 <= j < n && #[trigger] keys@[j]@ == k {
                    let j = choose|j: int| 0 <= j < n && #[trigger] keys@[j]@ == k;
                    assert(defaults@.contains_key(keys@[j]@));
                }
            }
        }
        assert(rules_view(rules@) =~= completed_rules(start));
        ScreenOverlayConfig {
            enabled,
            width: if width < 240 {
                240
            } else if width > 720 {
                720
            } else {
                width
            },
            margin: if margin > 128 {
                128
            } else {
                margin
            },
            spacing: if spacing > 48 {
                48
            } else {
                spacing
            },
            max_visible: if max_visible < 1 {
                1
            } else if max_visible > 8 {
                8
            } else {
                max_visible
            },
            background,
            foreground,
            rules,
        }
    }
}

/// Sanitizing settings that were already sanitized changes nothing: the sizes are in
/// range and every default rule is there, so a second pass keeps each field as it is.
pub proof fn law_sanitizing_twice_changes_nothing(
    width: int,
    margin: int,
    spacing: int,
    max_visible: int,
    rules: Map<Seq<char>, EventRuleView>,
)
    ensures
        clamped(clamped(width, 240, 720), 240, 720) == clamped(width, 240, 720),
        clamped(clamped(margin, 0, 128), 0, 128) == clamped(margin, 0, 128),
        clamped(clamped(spacing, 0, 48), 0, 48) == clamped(spacing, 0, 48),
        clamped(clamped(max_visible, 1, 8), 1, 8) == clamped(max_visible, 1, 8),
        completed_rules(completed_rules(rules)) == completed_rules(rules),
{
    assert(completed_rules(completed_rules(rules)) =~= completed_rules(rules));
}

} // verus!
