//! The settings of the VR integration that are not measurements.
use vstd::prelude::*;
use crate::text::owned;

verus! {

/// Where VR notifications go.
#[derive(Debug, Clone, Copy, PartialEq, Eq, Structural)]
pub enum NotificationTarget {
    XsOverlay,
    OvrToolkit,
    Custom,
}

/// How VR notifications are routed and presented. Categories are event names such
/// as `invite` or `friend-online`; an empty list of categories means all of them.
#[derive(Debug, Clone, PartialEq, Eq)]
pub struct NotificationConfig {
    pub targets: Vec<NotificationTarget>,
    pub height: u16,
    pub sound: String,
    pub icon: String,
    pub source_name: String,
    pub categories: Vec<String>,
    pub muted_categories: Vec<String>,
    pub include_title: bool,
    pub include_body: bool,
}

impl Default for NotificationConfig {
    fn default() -> (r: Self)
        ensures
            r.targets@ == seq![NotificationTarget::Custom],
            r.height == 175,
            r.sound@ == "default"@,
            r.icon@ == "default"@,
            r.source_name@ == "VRCX-BIR"@,
            r.categories@.len() == 0,
            r.muted_categories@.len() == 0,
            r.include_title,
            r.include_body,
    {
        NotificationConfig {
            targets: vec![NotificationTarget::Custom],
            height: 175,
            sound: owned("default"),
            icon: owned("default"),
            source_name: owned("VRCX-BIR"),
            categories: Vec::new(),
            muted_categories: Vec::new(),
            include_title: true,
            include_body: true,
        }
    }
}

/// Which VR runtime draws the wrist display.
#[derive(Debug, Clone, Copy, PartialEq, Eq, Structural)]
pub enum WristRuntime {
    Auto,
    SteamVr,
    WayVr,
}

/// The hand the wrist display sits on.
#[derive(Debug, Clone, Copy, PartialEq, Eq, Structural)]
pub enum Hand {
    Left,
    Right,
}

/// A section of the wrist display.
#[derive(Debug, Clone, Copy, PartialEq, Eq, Structural)]
pub enum WristSection {
    Clock,
    CurrentInstance,
    OnlineFriends,
    RecentNotifications,
    Connection,
    Battery,
    Custom,
}

/// The sections a wrist display shows unless configured otherwise.
pub fn default_wrist_sections() -> (r: Vec<WristSection>)
    ensures
        r@ == seq![
            WristSection::Clock,
            WristSection::CurrentInstance,
            WristSection::OnlineFriends,
            WristSection::RecentNotifications,
            WristSection::Connection,
        ],
{
    vec![
        WristSection::Clock,
        WristSection::CurrentInstance,
        WristSection::OnlineFriends,
        WristSection::RecentNotifications,
        WristSection::Connection,
    ]
}

/// The colours and spacing of the wrist display.
#[derive(Debug, Clone, PartialEq, Eq)]
pub struct WristTheme {
    pub background: String,
    pub foreground: String,
    pub accent: String,
    pub danger: String,
    pub font_size: u16,
    pub corner_radius: u16,
    pub padding: u16,
}

impl Default for WristTheme {
    fn default() -> (r: Self)
        ensures
            r.background@ == "#11131EEB"@,
            r.foreground@ == "#F5F7FF"@,
            r.accent@ == "#6C8CFF"@,
            r.danger@ == "#FF6174"@,
            r.font_size == 24,
            r.corner_radius == 22,
            r.padding == 20,
    {
        WristTheme {
            background: owned("#11131EEB"),
            foreground: owned("#F5F7FF"),
            accent: owned("#6C8CFF"),
            danger: owned("#FF6174"),
            font_size: 24,
            corner_radius: 22,
            padding: 20,
        }
    }
}

/// The refresh rate of the wrist display, never below one per second.
pub fn effective_refresh_hz(refresh_hz: u16) -> (r: u16)
    ensures
        r == if refresh_hz < 1 {
            1
        } else {
            refresh_hz
        },
{
    if refresh_hz < 1 {
        1
    } else {
        refresh_hz
    }
}

} // verus!
