//! Worlds: their identity, content, media, publication, statistics, capacity and
//! tags, and how a world record is read from the API's flat JSON.
use vstd::prelude::*;
use crate::decode::opt_str;
use crate::json::{json_texts, text_items, Json, JsonView};
use crate::models::users::{Identity as UserIdentity, StatusInfo, UserStatus};
use crate::text::{str_eq, strs};

verus! {

/// How many people a world holds, and how many it is meant for.
#[derive(Debug, Clone, Copy, PartialEq, Eq, Structural)]
pub struct Capacity {
    pub capacity: u16,
    pub recommended_capacity: u16,
}

impl Capacity {
    pub fn new(capacity: u16, recommended_capacity: u16) -> (r: Self)
        ensures
            r.capacity == capacity,
            r.recommended_capacity == recommended_capacity,
    {
        Capacity { capacity, recommended_capacity }
    }

    /// Reads a capacity: a number is the capacity alone, an object gives both
    /// members (missing ones are zero), anything else is zero. Values are cut to
    /// 16 bits.
    pub fn from_json(v: &Json) -> (r: Self)
        ensures
            r == capacity_of(v@),
    {
        match v {
            Json::Number(n) => Capacity {
                capacity: unsigned_or_zero(n.unsigned) as u16,
                recommended_capacity: 0,
            },
            Json::Object(_) => Capacity {
                capacity: unsigned_or_zero(v.get_u64("capacity")) as u16,
                recommended_capacity: unsigned_or_zero(v.get_u64("recommendedCapacity")) as u16,
            },
            _ => Capacity { capacity: 0, recommended_capacity: 0 },
        }
    }
}

impl Default for Capacity {
    fn default() -> (r: Self)
        ensures
            r.capacity == 0,
            r.recommended_capacity == 0,
    {
        Capacity { capacity: 0, recommended_capacity: 0 }
    }
}

/// An unsigned number, or zero.
pub open spec fn or_zero(n: Option<u64>) -> u64 {
    match n {
        Some(x) => x,
        None => 0,
    }
}

fn unsigned_or_zero(n: Option<u64>) -> (r: u64)
    ensures
        r == or_zero(n),
{
    match n {
        Some(x) => x,
        None => 0,
    }
}

/// The capacity a JSON value gives.
pub open spec fn capacity_of(v: JsonView) -> Capacity {
    match v {
        JsonView::Number(u, _, _) => Capacity { capacity: or_zero(u) as u16, recommended_capacity: 0 },
        JsonView::Object(_) => Capacity {
            capacity: or_zero(v.field_unsigned("capacity"@)) as u16,
            recommended_capacity: or_zero(v.field_unsigned("recommendedCapacity"@)) as u16,
        },
        _ => Capacity { capacity: 0, recommended_capacity: 0 },
    }
}

/// Who made a world and what it is.
#[derive(Debug, Clone, PartialEq)]
pub struct Identity {
    pub id: String,
    pub name: String,
    pub namespace: String,
    pub version: String,
    pub store_id: String,
    pub author: UserIdentity,
}

/// What a world is built from, as the API returned it.
#[derive(Debug, Clone, PartialEq)]
pub struct Content {
    pub default_content_settings: Vec<Json>,
    pub unity_package: Json,
    pub udon_products: Json,
}

/// A world's pictures and links.
#[derive(Debug, Clone, PartialEq)]
pub struct Media {
    pub image_url: String,
    pub thumbnail_image_url: String,
    pub preview_youtube_id: String,
    pub url_lists: Vec<String>,
}

/// Who can see a world.
#[derive(Debug, Clone, Copy, PartialEq, Eq, Structural)]
pub enum StatusRelease {
    Public,
    Private,
    Unknown,
}

/// When and how a world was published.
#[derive(Debug, Clone, PartialEq)]
pub struct Publication {
    pub release_status: StatusRelease,
    pub featured: bool,
    pub publication_date: Option<String>,
    pub labs_publication_date: Option<String>,
    pub created_at: String,
    pub updated_at: String,
}

/// How much a world is visited.
#[derive(Debug, Clone, Copy, PartialEq, Eq, Structural)]
pub struct Stats {
    pub favorites: u32,
    pub visits: u32,
    pub heat: u16,
    pub popularity: u8,
    pub occupants: u32,
    pub public_occupants: u32,
    pub private_occupants: u32,
}

/// Content warnings a world may carry.
#[derive(Debug, Clone, Copy, PartialEq, Eq, Structural)]
pub enum ContentWarnings {
    Adult,
    Combat,
    Featured,
    Gore,
    Horror,
    Other,
    Sex,
    Violence,
}

/// Flags the service sets on worlds.
#[derive(Debug, Clone, Copy, PartialEq, Eq, Structural)]
pub enum SystemFlags {
    Approved,
    CreatedRecently,
    Labs,
    UpdatedRecently,
    PublishedRecently,
    MonetizedWorld,
    PositiveFunToExplore,
    JamTags,
}

/// A world's tags, sorted by kind, with the raw list.
#[derive(Debug, Clone, PartialEq)]
pub struct Tags {
    pub content_warnings: Vec<ContentWarnings>,
    pub system_flags: Vec<SystemFlags>,
    pub author_tags: Vec<String>,
    pub jam_tags: Vec<String>,
    pub admin_tags: Vec<String>,
    pub feature_tags: Vec<String>,
    pub event_tags: Vec<String>,
    pub raw: Vec<String>,
}

/// A world in a list.
#[derive(Debug, Clone, PartialEq)]
pub struct WorldSummary {
    pub identifier: Identity,
    pub media: Media,
}

/// A world. The instance a world record may embed is kept as its JSON.
#[derive(Debug, Clone, PartialEq)]
pub struct World {
    pub identifier: Identity,
    pub content: Content,
    pub media: Media,
    pub publications: Publication,
    pub stats: Stats,
    pub capacity: Capacity,
    pub tags: Tags,
    pub instance: Option<Json>,
}

/// A string member, or the empty string.
pub open spec fn text_member_or_empty(v: JsonView, key: Seq<char>) -> Seq<char> {
    match v.field_text(key) {
        Some(s) => s,
        None => Seq::empty(),
    }
}

/// The strings of an array member, in order; none where it is not an array.
pub open spec fn member_texts_of(v: JsonView, key: Seq<char>) -> Seq<Seq<char>> {
    match v.field(key) {
        Some(JsonView::Array(items)) => text_items(items),
        _ => Seq::empty(),
    }
}

/// The URL list of a world record: `urlList`, or `urlLists` where that is absent.
pub open spec fn url_list_of(v: JsonView) -> Seq<Seq<char>> {
    let found = match v.field("urlList"@) {
        Some(x) => Some(x),
        None => v.field("urlLists"@),
    };
    match found {
        Some(JsonView::Array(items)) => text_items(items),
        _ => Seq::empty(),
    }
}

/// A member, or `null` where it is absent.
pub open spec fn member_or_null(v: JsonView, key: Seq<char>) -> JsonView {
    match v.field(key) {
        Some(x) => x,
        None => JsonView::Null,
    }
}

/// The release status a record names.
pub open spec fn release_of(v: JsonView) -> StatusRelease {
    match v.field_text("releaseStatus"@) {
        Some(s) => if s == "public"@ {
            StatusRelease::Public
        } else if s == "private"@ {
            StatusRelease::Private
        } else {
            StatusRelease::Unknown
        },
        None => StatusRelease::Unknown,
    }
}

/// The embedded instance of a world record, unless absent or null.
pub open spec fn instance_of(v: JsonView) -> Option<JsonView> {
    match v.field("instance"@) {
        Some(JsonView::Null) => None,
        Some(x) => Some(x),
        None => None,
    }
}

fn member_text(v: &Json, key: &str) -> (r: String)
    ensures
        r@ == text_member_or_empty(v@, key@),
{
    match v.get_str(key) {
        Some(s) => s.clone(),
        None => String::new(),
    }
}

fn member_u64(v: &Json, key: &str) -> (r: u64)
    ensures
        r == or_zero(v@.field_unsigned(key@)),
{
    unsigned_or_zero(v.get_u64(key))
}

fn member_copy(v: &Json, key: &str) -> (r: Json)
    ensures
        r@ == member_or_null(v@, key@),
{
    match v.get(key) {
        Some(x) => x.copy(),
        None => Json::Null,
    }
}

fn member_texts(v: &Json, key: &str) -> (r: Vec<String>)
    ensures
        strs(r@) == member_texts_of(v@, key@),
{
    match v.get(key) {
        Some(x) => match x.as_array() {
            Some(items) => json_texts(items),
            None => {
                let out: Vec<String> = Vec::new();
                assert(strs(out@) =~= Seq::<Seq<char>>::empty());
                out
            },
        },
        None => {
            let out: Vec<String> = Vec::new();
            assert(strs(out@) =~= Seq::<Seq<char>>::empty());
            out
        },
    }
}

impl World {
    /// Reads a world from the API's flat record. Missing or mistyped members take
    /// their empty value; numbers are cut to the width of their field.
    pub fn from_json(value: &Json) -> (r: World)
        ensures
            r.identifier.id@ == text_member_or_empty(value@, "id"@),
            r.identifier.name@ == text_member_or_empty(value@, "name"@),
            r.identifier.namespace@ == text_member_or_empty(value@, "namespace"@),
            r.identifier.version@ == text_member_or_empty(value@, "version"@),
            r.identifier.store_id@ == text_member_or_empty(value@, "storeId"@),
            r.identifier.author.id@ == text_member_or_empty(value@, "authorId"@),
            r.identifier.author.username@ == text_member_or_empty(value@, "authorName"@),
            r.identifier.author.display_name@ == text_member_or_empty(value@, "authorName"@),
            r.identifier.author.status.status == UserStatus::Unknown,
            r.identifier.author.status.status_description@.len() == 0,
            r.content.default_content_settings@.len() == 0,
            r.content.unity_package@ == member_or_null(value@, "unityPackages"@),
            r.content.udon_products@ == member_or_null(value@, "udonProducts"@),
            r.media.image_url@ == text_member_or_empty(value@, "imageUrl"@),
            r.media.thumbnail_image_url@ == text_member_or_empty(value@, "thumbnailImageUrl"@),
            r.media.preview_youtube_id@ == text_member_or_empty(value@, "previewYoutubeId"@),
            strs(r.media.url_lists@) == url_list_of(value@),
            r.publications.release_status == release_of(value@),
            r.publications.featured == (value@.field_flag("featured"@) == Some(true)),
            opt_str(r.publications.publication_date) == value@.field_text("publicationDate"@),
            opt_str(r.publications.labs_publication_date) == value@.field_text("labsPublicationDate"@),
            r.publications.created_at@ == text_member_or_empty(value@, "created_at"@),
            r.publications.updated_at@ == text_member_or_empty(value@, "updated_at"@),
            r.stats.favorites == or_zero(value@.field_unsigned("favorites"@)) as u32,
            r.stats.visits == or_zero(value@.field_unsigned("visits"@)) as u32,
            r.stats.heat == or_zero(value@.field_unsigned("heat"@)) as u16,
            r.stats.popularity == or_zero(value@.field_unsigned("popularity"@)) as u8,
            r.stats.occupants == or_zero(value@.field_unsigned("occupants"@)) as u32,
            r.stats.public_occupants == or_zero(value@.field_unsigned("publicOccupants"@)) as u32,
            r.stats.private_occupants == or_zero(value@.field_unsigned("privateOccupants"@)) as u32,
            r.capacity.capacity == or_zero(value@.field_unsigned("capacity"@)) as u16,
            r.capacity.recommended_capacity == or_zero(value@.field_unsigned("recommendedCapacity"@)) as u16,
            r.tags.content_warnings@.len() == 0,
            r.tags.system_flags@.len() == 0,
            r.tags.author_tags@.len() == 0,
            r.tags.jam_tags@.len() == 0,
            r.tags.admin_tags@.len() == 0,
            r.tags.feature_tags@.len() == 0,
            r.tags.event_tags@.len() == 0,
            strs(r.tags.raw@) == member_texts_of(value@, "tags"@),
            match r.instance {
                Some(i) => instance_of(value@) == Some(i@),
                None => instance_of(value@) is None,
            },
    {
        let author_name = member_text(value, "authorName");
        let url_lists = match value.get("urlList") {
            Some(x) => match x.as_array() {
                Some(items) => json_texts(items),
                None => Vec::new(),
            },
            None => member_texts(value, "urlLists"),
        };
        assert(strs(url_lists@) =~= url_list_of(value@));
        let release_status = match value.get_str("releaseStatus") {
            Some(s) => if str_eq(s.as_str(), "public") {
                StatusRelease::Public
            } else if str_eq(s.as_str(), "private") {
                StatusRelease::Private
            } else {
                StatusRelease::Unknown
            },
            None => StatusRelease::Unknown,
        };
        let featured = match value.get_bool("featured") {
            Some(b) => b,
            None => false,
        };
        let publication_date = match value.get_str("publicationDate") {
            Some(s) => Some(s.clone()),
            None => None,
        };
        let labs_publication_date = match value.get_str("labsPublicationDate") {
            Some(s) => Some(s.clone()),
            None => None,
        };
        let instance = match value.get("instance") {
            Some(Json::Null) => None,
            Some(x) => Some(x.copy()),
            None => None,
        };
        World {
            identifier: Identity {
                id: member_text(value, "id"),
                name: member_text(value, "name"),
                namespace: member_text(value, "namespace"),
                version: member_text(value, "version"),
                store_id: member_text(value, "storeId"),
                author: UserIdentity {
                    id: member_text(value, "authorId"),
                    username: author_name.clone(),
                    display_name: author_name,
                    status: StatusInfo { status: UserStatus::Unknown, status_description: String::new() },
                },
            },
            content: Content {
                default_content_settings: Vec::new(),
                unity_package: member_copy(value, "unityPackages"),
                udon_products: member_copy(value, "udonProducts"),
            },
            media: Media {
                image_url: member_text(value, "imageUrl"),
                thumbnail_image_url: member_text(value, "thumbnailImageUrl"),
                preview_youtube_id: member_text(value, "previewYoutubeId"),
                url_lists,
            },
            publications: Publication {
                release_status,
                featured,
                publication_date,
                labs_publication_date,
                created_at: member_text(value, "created_at"),
                updated_at: member_text(value, "updated_at"),
            },
            stats: Stats {
                favorites: member_u64(value, "favorites") as u32,
                visits: member_u64(value, "visits") as u32,
                heat: member_u64(value, "heat") as u16,
                popularity: member_u64(value, "popularity") as u8,
                occupants: member_u64(value, "occupants") as u32,
                public_occupants: member_u64(value, "publicOccupants") as u32,
                private_occupants: member_u64(value, "privateOccupants") as u32,
            },
            capacity: Capacity::new(
                member_u64(value, "capacity") as u16,
                member_u64(value, "recommendedCapacity") as u16,
            ),
            tags: Tags {
                content_warnings: Vec::new(),
                system_flags: Vec::new(),
                author_tags: Vec::new(),
                jam_tags: Vec::new(),
                admin_tags: Vec::new(),
                feature_tags: Vec::new(),
                event_tags: Vec::new(),
                raw: member_texts(value, "tags"),
            },
            instance,
        }
    }
}

} // verus!
