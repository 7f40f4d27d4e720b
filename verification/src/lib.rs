use vstd::prelude::*;

pub mod text;
pub mod json;
pub mod json_text;
pub mod table;
pub mod models;
pub mod decode;
pub mod websocket;
pub mod store;
pub mod ui;
pub mod session;
pub mod vr_overlay;
pub mod screen_overlay;

verus! {

} // verus!
