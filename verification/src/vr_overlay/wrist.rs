//! The wrist display: the friends and notifications it lists, and the frames it is
//! handed.
use vstd::prelude::*;
use crate::text::{concat, decimal, owned, u128_text};

verus! {

/// A friend listed on the wrist display.
#[derive(Debug, Clone, PartialEq, Eq)]
pub struct WristFriend {
    pub display_name: String,
    pub status: String,
    pub location: Option<String>,
}

/// A notification listed on the wrist display.
#[derive(Debug, Clone, PartialEq, Eq)]
pub struct WristNotification {
    pub title: String,
    pub body: String,
    pub timestamp: String,
    pub category: String,
}

/// Why the wrist display failed.
#[derive(Debug, Clone, PartialEq, Eq)]
pub enum WristError {
    Runtime(String),
    Render(String),
}

impl WristError {
    /// The message of the error.
    pub fn message(&self) -> (r: String)
        ensures
            r@ == match self {
                WristError::Runtime(m) => "VR runtime unavailable: "@ + m@,
                WristError::Render(m) => "wrist renderer failed: "@ + m@,
            },
    {
        match self {
            WristError::Runtime(m) => concat(&owned("VR runtime unavailable: "), m.as_str()),
            WristError::Render(m) => concat(&owned("wrist renderer failed: "), m.as_str()),
        }
    }
}

/// A frame for the VR compositor: `width` by `height` pixels of straight-alpha RGBA,
/// four bytes each.
#[derive(Debug, Clone, PartialEq, Eq)]
pub struct WristFrame {
    pub width: u32,
    pub height: u32,
    pub rgba: Vec<u8>,
}

/// The message for a buffer of the wrong size.
pub open spec fn frame_size_msg(len: nat, expected: nat) -> Seq<char> {
    "invalid RGBA frame: "@ + decimal(len) + " bytes, expected "@ + decimal(expected)
}

impl WristFrame {
    /// A frame, where the buffer holds exactly four bytes per pixel; any other size is
    /// an error, however large the dimensions.
    pub fn new(width: u32, height: u32, rgba: Vec<u8>) -> (r: Result<Self, WristError>)
        ensures
            rgba@.len() == width as int * height as int * 4 ==> (r matches Ok(f) && f.width == width
                && f.height == height && f.rgba@ == rgba@),
            rgba@.len() != width as int * height as int * 4 ==> (r matches Err(WristError::Render(m))
                && m@ == frame_size_msg(rgba@.len(), (width as int * height as int * 4) as nat)),
    {
        proof {
            assert(width as int * height as int <= 0xffff_ffff * 0xffff_ffff) by (nonlinear_arith)
                requires
                    width <= 0xffff_ffff,
                    height <= 0xffff_ffff,
            ;
        }
        let pixels: u128 = width as u128 * height as u128;
        let expected: u128 = pixels * 4;
        if rgba.len() as u128 != expected {
            let len_text = u128_text(rgba.len() as u128);
            let expected_text = u128_text(expected);
            let m = concat(&owned("invalid RGBA frame: "), len_text.as_str());
            let m = concat(&m, " bytes, expected ");
            let m = concat(&m, expected_text.as_str());
            return Err(WristError::Render(m));
        }
        Ok(WristFrame { width, height, rgba })
    }
}

/// A renderer that takes frames already rasterized for the compositor.
pub trait WristFrameSink {
    fn submit_frame(&mut self, frame: &WristFrame) -> Result<(), WristError>;

    fn set_visible(&mut self, visible: bool) -> Result<(), WristError>;
}

/// What probing the OpenXR runtime found.
#[derive(Debug, Clone, PartialEq, Eq)]
pub struct OpenXrCapability {
    pub runtime_name: Option<String>,
    pub overlay_extension: bool,
    pub reason: Option<String>,
}

impl OpenXrCapability {
    /// The capability of a runtime, with the reason the wrist display cannot use it
    /// where it lacks the overlay extension.
    pub fn from_probe(runtime_name: Option<String>, overlay_extension: bool) -> (r: Self)
        ensures
            r.runtime_name == runtime_name,
            r.overlay_extension == overlay_extension,
            match r.reason {
                Some(m) => !overlay_extension && m@ == "XR_EXTX_overlay is unavailable; use WayVR as the compositor bridge"@,
                None => overlay_extension,
            },
    {
        let reason = if overlay_extension {
            None
        } else {
            Some(owned("XR_EXTX_overlay is unavailable; use WayVR as the compositor bridge"))
        };
        OpenXrCapability { runtime_name, overlay_extension, reason }
    }
}

} // verus!
