//! The VRChat data model.
pub mod users;
pub mod friend;
pub mod favorite;
pub mod world;
