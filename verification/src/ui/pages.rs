//! The pages of the client, its languages, and the fixed texts that go with them.
use vstd::prelude::*;
use crate::session::auth::TwoFactorMethod;
use crate::text::{concat, copy_string, join_strings, owned, starts_with, strs};
use crate::ui::ordering::{lowercase, to_lowercase};

verus! {

/// A page of the client.
#[derive(Debug, Clone, Copy, PartialEq, Eq, Hash, Structural)]
pub enum Page {
    Dashboard,
    Friends,
    Notifications,
    Worlds,
    Users,
    Groups,
    Avatars,
    MyAvatars,
    Inventory,
    Calendar,
    Economy,
    Files,
    Jams,
    Props,
    Favorites,
    Instances,
    Invites,
    Moderation,
    Prints,
    System,
    Api,
    VrOverlay,
}

/// The pages that searching applies to.
pub open spec fn searchable(page: Page) -> bool {
    page == Page::Users || page == Page::Worlds || page == Page::Groups || page == Page::Avatars
        || page == Page::MyAvatars || page == Page::Favorites || page == Page::Prints
}

impl Page {
    pub fn is_searchable(self) -> (r: bool)
        ensures
            r == searchable(self),
    {
        match self {
            Page::Users | Page::Worlds | Page::Groups | Page::Avatars | Page::MyAvatars
            | Page::Favorites | Page::Prints => true,
            _ => false,
        }
    }
}

/// The action a result card of the page offers.
pub open spec fn page_action(page: Page) -> Option<Seq<char>> {
    match page {
        Page::Users => Some("Add friend"@),
        Page::Groups => Some("Join"@),
        Page::Avatars => Some("Select"@),
        Page::MyAvatars => Some("Select"@),
        Page::Inventory => Some("Consume"@),
        Page::Files => Some("Delete"@),
        Page::Props => Some("Delete"@),
        _ => None,
    }
}

pub fn resource_action(page: Page) -> (r: Option<&'static str>)
    ensures
        match r {
            Some(s) => page_action(page) == Some(s@),
            None => page_action(page) is None,
        },
{
    match page {
        Page::Users => Some("Add friend"),
        Page::Groups => Some("Join"),
        Page::Avatars | Page::MyAvatars => Some("Select"),
        Page::Inventory => Some("Consume"),
        Page::Files | Page::Props => Some("Delete"),
        _ => None,
    }
}

/// A language of the client.
#[derive(Debug, Clone, Copy, PartialEq, Eq, Structural)]
pub enum Locale {
    English,
    French,
}

impl Locale {
    /// The language code.
    pub fn code(self) -> (r: &'static str)
        ensures
            r@ == match self {
                Locale::English => "en"@,
                Locale::French => "fr"@,
            },
    {
        match self {
            Locale::English => "en",
            Locale::French => "fr",
        }
    }

    /// The short label of the language switch.
    pub fn label(self) -> (r: &'static str)
        ensures
            r@ == match self {
                Locale::English => "EN"@,
                Locale::French => "FR"@,
            },
    {
        match self {
            Locale::English => "EN",
            Locale::French => "FR",
        }
    }
}

/// The language a locale setting (such as `LANG`) asks for: French where its
/// lower-cased text starts with `fr`, else English.
pub fn locale_for_language(lang: Option<&str>) -> (r: Locale)
    ensures
        r == match lang {
            Some(l) => if "fr"@.is_prefix_of(lowercase(l@)) {
                Locale::French
            } else {
                Locale::English
            },
            None => Locale::English,
        },
{
    match lang {
        Some(l) => {
            let lowered = to_lowercase(l);
            if starts_with(lowered.as_str(), "fr") {
                Locale::French
            } else {
                Locale::English
            }
        },
        None => Locale::English,
    }
}

/// The label of a second factor.
pub fn two_factor_label(method: &TwoFactorMethod) -> (r: &'static str)
    ensures
        r@ == match method {
            TwoFactorMethod::Totp => "Authenticator"@,
            TwoFactorMethod::EmailOtp => "Email"@,
            TwoFactorMethod::RecoveryCode => "Recovery"@,
            TwoFactorMethod::Unknown(_) => "Other"@,
        },
{
    match method {
        TwoFactorMethod::Totp => "Authenticator",
        TwoFactorMethod::EmailOtp => "Email",
        TwoFactorMethod::RecoveryCode => "Recovery",
        TwoFactorMethod::Unknown(_) => "Other",
    }
}

/// The VR backends a build was made with.
#[derive(Debug, Clone, Copy, PartialEq, Eq)]
pub struct VrBuild {
    pub xs_notifications: bool,
    pub ovr_toolkit_notifications: bool,
    pub steamvr_wrist: bool,
    pub wayvr_wrist: bool,
}

/// The names of the backends of a build, in a fixed order.
pub open spec fn vr_backends(b: VrBuild) -> Seq<Seq<char>> {
    let a = if b.xs_notifications {
        seq!["XSOverlay notifications"@]
    } else {
        Seq::empty()
    };
    let c = if b.ovr_toolkit_notifications {
        seq!["OVR Toolkit notifications"@]
    } else {
        Seq::empty()
    };
    let d = if b.steamvr_wrist {
        seq!["SteamVR / OpenVR wrist overlay"@]
    } else {
        Seq::empty()
    };
    let e = if b.wayvr_wrist {
        seq!["WayVR / OpenXR wrist overlay"@]
    } else {
        Seq::empty()
    };
    a + c + d + e
}

/// What a build can do in VR: its backends one per line, or that it has none.
pub fn vr_build_summary(build: VrBuild) -> (r: String)
    ensures
        r@ == if vr_backends(build).len() == 0 {
            "VR core only (no notification or wrist backend)"@
        } else {
            crate::text::joined(vr_backends(build), "\n"@)
        },
{
    let mut backends: Vec<String> = Vec::new();
    let ghost start = strs(backends@);
    if build.xs_notifications {
        backends.push(owned("XSOverlay notifications"));
    }
    if build.ovr_toolkit_notifications {
        backends.push(owned("OVR Toolkit notifications"));
    }
    if build.steamvr_wrist {
        backends.push(owned("SteamVR / OpenVR wrist overlay"));
    }
    if build.wayvr_wrist {
        backends.push(owned("WayVR / OpenXR wrist overlay"));
    }
    assert(strs(backends@) =~= vr_backends(build));
    if backends.len() == 0 {
        owned("VR core only (no notification or wrist backend)")
    } else {
        join_strings(&backends, "\n")
    }
}

/// The command that builds the client with VR support on this platform.
pub fn vr_build_command(windows: bool) -> (r: &'static str)
    ensures
        r@ == if windows {
            "cargo build --release --features vr-windows"@
        } else {
            "cargo build --release --features vr-linux"@
        },
{
    if windows {
        "cargo build --release --features vr-windows"
    } else {
        "cargo build --release --features vr-linux"
    }
}

} // verus!
