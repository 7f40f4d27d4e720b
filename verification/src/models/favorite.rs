//! Favorites and the groups they are filed in.
use vstd::prelude::*;

verus! {

/// What a favorite refers to.
#[derive(Debug, Clone, Copy, PartialEq, Eq, Structural)]
pub enum FavoriteType {
    Friend,
    World,
    Avatar,
    Prop,
    Group,
    Unknown,
}

/// A group of favorites; `tags` are the internal names favorites are filed under.
#[derive(Debug, Clone, PartialEq, Eq)]
pub struct FavoriteGroup {
    pub id: String,
    pub name: String,
    pub display_name: String,
    pub owner_id: String,
    pub owner_display_name: String,
    pub favorite_type: FavoriteType,
    pub visibility: String,
    pub tags: Vec<String>,
}

/// One favorite, filed under the groups its tags name.
#[derive(Debug, Clone, PartialEq, Eq)]
pub struct Favorite {
    pub id: String,
    pub favorite_id: String,
    pub favorite_type: FavoriteType,
    pub tags: Vec<String>,
}

} // verus!
