//! What the client shows, computed from its state: labels, sections, summaries and
//! the fields of result cards.
pub mod fields;
pub mod friends;
pub mod favorites;
pub mod pages;
pub mod navigation;
pub mod ordering;
pub mod favorite_friends;
pub mod resources;
pub mod cards;
pub mod activity;
pub mod client;
pub mod thumbnails;
pub mod world_names;
pub mod paging;
