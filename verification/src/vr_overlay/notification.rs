//! Which VR notifications are delivered, and where to.
use vstd::prelude::*;
use crate::json::Json;
use crate::text::{any_eq, copy_string, strs};
use crate::vr_overlay::config::{NotificationConfig, NotificationTarget};

verus! {

/// How urgent a notification is.
#[derive(Debug, Clone, Copy, PartialEq, Eq, Structural)]
pub enum Priority {
    Low,
    Normal,
    High,
    Critical,
}

impl Default for Priority {
    fn default() -> (r: Self)
        ensures
            r == Priority::Normal,
    {
        Priority::Normal
    }
}

/// A notification for the VR overlays.
#[derive(Debug, Clone, PartialEq)]
pub struct Notification {
    pub title: String,
    pub body: String,
    pub category: String,
    pub icon: Option<String>,
    pub priority: Priority,
    pub metadata: Json,
}

/// One delivery of a notification.
#[derive(Debug, Clone, Copy, PartialEq, Eq, Structural)]
pub enum Delivery {
    /// A UDP packet to XSOverlay.
    XsOverlay,
    /// OVR Toolkit, through the custom sink where one is attached.
    OvrToolkit,
    /// The custom sink.
    Custom,
}

/// Routes notifications to the configured targets.
#[derive(Debug, Clone)]
pub struct NotificationRouter {
    pub config: NotificationConfig,
    pub has_custom_sink: bool,
}

/// A category passes the filters: it is not muted, and either no categories are
/// listed or it is one of them.
pub open spec fn category_accepted(config: NotificationConfig, category: Seq<char>) -> bool {
    !strs(config.muted_categories@).contains(category) && (config.categories@.len() == 0 || strs(
        config.categories@,
    ).contains(category))
}

/// The deliveries for the targets, in order; the custom target counts only with a
/// sink attached.
pub open spec fn deliveries_for(targets: Seq<NotificationTarget>, has_custom_sink: bool) -> Seq<Delivery>
    decreases targets.len(),
{
    if targets.len() == 0 {
        Seq::empty()
    } else {
        let rest = deliveries_for(targets.drop_last(), has_custom_sink);
        match targets.last() {
            NotificationTarget::XsOverlay => rest.push(Delivery::XsOverlay),
            NotificationTarget::OvrToolkit => rest.push(Delivery::OvrToolkit),
            NotificationTarget::Custom => if has_custom_sink {
                rest.push(Delivery::Custom)
            } else {
                rest
            },
        }
    }
}

impl NotificationRouter {
    pub fn new(config: NotificationConfig) -> (r: Self)
        ensures
            r.config == config,
            !r.has_custom_sink,
    {
        NotificationRouter { config, has_custom_sink: false }
    }

    /// The router with a custom sink attached.
    pub fn with_custom_sink(self) -> (r: Self)
        ensures
            r.config == self.config,
            r.has_custom_sink,
    {
        NotificationRouter { config: self.config, has_custom_sink: true }
    }

    pub fn accepts(&self, category: &str) -> (r: bool)
        ensures
            r == category_accepted(self.config, category@),
    {
        !any_eq(&self.config.muted_categories, category) && (self.config.categories.len() == 0
            || any_eq(&self.config.categories, category))
    }

    /// Where a notification of the category goes, in the order of the targets; nowhere
    /// where the filters refuse it.
    pub fn deliveries(&self, category: &str) -> (r: Vec<Delivery>)
        ensures
            r@ == if category_accepted(self.config, category@) {
                deliveries_for(self.config.targets@, self.has_custom_sink)
            } else {
                Seq::empty()
            },
    {
        let mut out: Vec<Delivery> = Vec::new();
        if !self.accepts(category) {
            return out;
        }
        let targets = &self.config.targets;
        let n = targets.len();
        assert(targets@.take(0) =~= Seq::<NotificationTarget>::empty());
        for i in 0..n
            invariant
                n == targets@.len(),
                out@ == deliveries_for(targets@.take(i as int), self.has_custom_sink),
        {
            assert(targets@.take(i + 1).drop_last() =~= targets@.take(i as int));
            assert(targets@.take(i + 1).last() == targets@[i as int]);
            match targets[i] {
                NotificationTarget::XsOverlay => out.push(Delivery::XsOverlay),
                NotificationTarget::OvrToolkit => out.push(Delivery::OvrToolkit),
                NotificationTarget::Custom => {
                    if self.has_custom_sink {
                        out.push(Delivery::Custom);
                    }
                },
            }
        }
        assert(targets@.take(n as int) =~= targets@);
        out
    }

    /// The title, body and icon an XSOverlay packet carries: title and body only where
    /// the settings include them, and the notification's own icon, else the default.
    pub fn xs_texts(&self, n: &Notification) -> (r: (String, String, String))
        ensures
            r.0@ == if self.config.include_title {
                n.title@
            } else {
                Seq::empty()
            },
            r.1@ == if self.config.include_body {
                n.body@
            } else {
                Seq::empty()
            },
            r.2@ == match n.icon {
                Some(i) => i@,
                None => self.config.icon@,
            },
    {
        let title = if self.config.include_title {
            copy_string(&n.title)
        } else {
            String::new()
        };
        let body = if self.config.include_body {
            copy_string(&n.body)
        } else {
            String::new()
        };
        let icon = match &n.icon {
            Some(i) => copy_string(i),
            None => copy_string(&self.config.icon),
        };
        (title, body, icon)
    }
}

} // verus!
