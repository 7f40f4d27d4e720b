//! VR integration: routing notifications to VR overlays and the wrist display.
pub mod config;
pub mod notification;
pub mod wrist;
