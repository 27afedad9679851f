use vstd::prelude::*;

verus! {

/// Why a notification went away; `code` gives the number used on the wire.
#[derive(Debug, Clone, Copy, PartialEq, Eq, Structural)]
pub enum CloseReason {
    Expired,
    Dismissed,
    Closed,
    Other,
}

/// Wire number of a close reason.
pub open spec fn reason_code(r: CloseReason) -> u32 {
    match r {
        CloseReason::Expired => 1,
        CloseReason::Dismissed => 2,
        CloseReason::Closed => 3,
        CloseReason::Other => 4,
    }
}

impl CloseReason {
    /// The number that stands for this reason in a `NotificationClosed` signal.
    pub fn code(&self) -> (r: u32)
        ensures
            r == reason_code(*self),
            1 <= r <= 4,
    {
        match self {
            CloseReason::Expired => 1,
            CloseReason::Dismissed => 2,
            CloseReason::Closed => 3,
            CloseReason::Other => 4,
        }
    }
}

/// A raw pixel buffer, as carried by the structured image hints.
#[derive(Debug, Clone, PartialEq, Eq)]
pub struct ImageData {
    pub width: i32,
    pub height: i32,
    pub rowstride: i32,
    pub has_alpha: bool,
    pub bits_per_sample: i32,
    pub channels: i32,
    pub data: Vec<u8>,
}

/// The image shown with a notification: a file path or pixels.
#[derive(Debug, Clone, PartialEq, Eq)]
pub enum Image {
    Path(String),
    Data(ImageData),
}

/// What the presentation side reports about a notification.
#[derive(Debug, Clone, PartialEq, Eq)]
pub enum Event {
    /// The user invoked the action with this key.
    Action(String),
    /// The notification should go away, for this reason.
    Close(CloseReason),
}

/// Static description of the server: its name, vendor, version and
/// the optional protocol features it supports.
#[derive(Debug, Clone)]
pub struct Properties {
    pub name: String,
    pub vendor: String,
    pub version: String,
    pub capabilities: Vec<String>,
}

} // verus!
