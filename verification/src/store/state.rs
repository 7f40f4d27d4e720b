//! The in-memory state of the client: the session, the friends' presence, the
//! notifications and the most recent pipeline events.
use vstd::prelude::*;
use std::collections::VecDeque;
use crate::json::{Json, JsonView};
use crate::decode::opt_str;
use crate::store::reducer::RecentPipelineEvent;
use crate::table::Table;

verus! {

/// The state of the realtime connection.
#[derive(Debug, Clone, Copy, PartialEq, Eq, Structural)]
pub enum WebSocketStatus {
    Disconnected,
    Connecting,
    Connected,
}

impl Default for WebSocketStatus {
    fn default() -> (r: Self)
        ensures
            r == WebSocketStatus::Disconnected,
    {
        WebSocketStatus::Disconnected
    }
}

/// What is known of the current session.
#[derive(Debug, Clone, PartialEq, Eq)]
pub struct SessionMetadata {
    pub user_id: Option<String>,
    pub display_name: Option<String>,
    pub last_sync_unix_ms: Option<u64>,
    pub websocket_status: WebSocketStatus,
    pub websocket_error: Option<String>,
}

impl SessionMetadata {
    /// Nothing is known of the session.
    pub open spec fn is_blank(&self) -> bool {
        &&& self.user_id is None
        &&& self.display_name is None
        &&& self.last_sync_unix_ms is None
        &&& self.websocket_status == WebSocketStatus::Disconnected
        &&& self.websocket_error is None
    }
}

impl Default for SessionMetadata {
    fn default() -> (r: Self)
        ensures
            r.is_blank(),
    {
        SessionMetadata {
            user_id: None,
            display_name: None,
            last_sync_unix_ms: None,
            websocket_status: WebSocketStatus::Disconnected,
            websocket_error: None,
        }
    }
}

/// Where a friend is and what they look like, as last reported.
#[derive(Debug, Clone, PartialEq, Eq)]
pub struct FriendPresence {
    pub user_id: String,
    pub display_name: Option<String>,
    pub status: Option<String>,
    pub status_description: Option<String>,
    pub avatar_url: Option<String>,
    pub trust_rank: Option<String>,
    pub online: bool,
    pub active: bool,
    pub platform: Option<String>,
    pub location: Option<String>,
    pub traveling_to_location: Option<String>,
    pub world_id: Option<String>,
    pub can_request_invite: bool,
}

/// The abstract value of a [`FriendPresence`].
pub struct PresenceView {
    pub user_id: Seq<char>,
    pub display_name: Option<Seq<char>>,
    pub status: Option<Seq<char>>,
    pub status_description: Option<Seq<char>>,
    pub avatar_url: Option<Seq<char>>,
    pub trust_rank: Option<Seq<char>>,
    pub online: bool,
    pub active: bool,
    pub platform: Option<Seq<char>>,
    pub location: Option<Seq<char>>,
    pub traveling_to_location: Option<Seq<char>>,
    pub world_id: Option<Seq<char>>,
    pub can_request_invite: bool,
}

impl View for FriendPresence {
    type V = PresenceView;

    open spec fn view(&self) -> PresenceView {
        PresenceView {
            user_id: self.user_id@,
            display_name: opt_str(self.display_name),
            status: opt_str(self.status),
            status_description: opt_str(self.status_description),
            avatar_url: opt_str(self.avatar_url),
            trust_rank: opt_str(self.trust_rank),
            online: self.online,
            active: self.active,
            platform: opt_str(self.platform),
            location: opt_str(self.location),
            traveling_to_location: opt_str(self.traveling_to_location),
            world_id: opt_str(self.world_id),
            can_request_invite: self.can_request_invite,
        }
    }
}

/// The presence of someone of whom nothing is known but the id.
pub open spec fn empty_presence_view(user_id: Seq<char>) -> PresenceView {
    PresenceView {
        user_id,
        display_name: None,
        status: None,
        status_description: None,
        avatar_url: None,
        trust_rank: None,
        online: false,
        active: false,
        platform: None,
        location: None,
        traveling_to_location: None,
        world_id: None,
        can_request_invite: false,
    }
}

/// The presence of someone of whom nothing is known but the id.
pub fn empty_presence(user_id: &str) -> (r: FriendPresence)
    ensures
        r@ == empty_presence_view(user_id@),
{
    FriendPresence {
        user_id: user_id.to_string(),
        display_name: None,
        status: None,
        status_description: None,
        avatar_url: None,
        trust_rank: None,
        online: false,
        active: false,
        platform: None,
        location: None,
        traveling_to_location: None,
        world_id: None,
        can_request_invite: false,
    }
}

impl Default for FriendPresence {
    fn default() -> (r: Self)
        ensures
            r@ == empty_presence_view(Seq::empty()),
    {
        proof {
            reveal_strlit("");
            assert(""@ =~= Seq::<char>::empty());
        }
        empty_presence("")
    }
}

/// Everything the client shows.
#[derive(Debug, Clone)]
pub struct AppSnapshot {
    pub session: SessionMetadata,
    pub friends: Table<FriendPresence>,
    pub notifications: Table<Json>,
    pub recent_events: VecDeque<RecentPipelineEvent>,
}

/// The views of a table of presences.
pub open spec fn presences(t: Map<Seq<char>, FriendPresence>) -> Map<Seq<char>, PresenceView> {
    t.map_values(|p: FriendPresence| p@)
}

/// The views of a table of notifications.
pub open spec fn notes(t: Map<Seq<char>, Json>) -> Map<Seq<char>, JsonView> {
    t.map_values(|j: Json| j@)
}

impl AppSnapshot {
    /// The friends' presence by user id.
    pub open spec fn friends_view(&self) -> Map<Seq<char>, PresenceView> {
        presences(self.friends@)
    }

    /// The notifications by id.
    pub open spec fn notifications_view(&self) -> Map<Seq<char>, JsonView> {
        notes(self.notifications@)
    }
}

impl Default for AppSnapshot {
    fn default() -> (r: Self)
        ensures
            r.session.is_blank(),
            r.friends@ == Map::<Seq<char>, FriendPresence>::empty(),
            r.notifications@ == Map::<Seq<char>, Json>::empty(),
            r.recent_events@.len() == 0,
    {
        AppSnapshot {
            session: SessionMetadata::default(),
            friends: Table::new(),
            notifications: Table::new(),
            recent_events: VecDeque::new(),
        }
    }
}

} // verus!
