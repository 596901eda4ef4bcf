//! Wire protocol messages between the web client and the host.
//!
//! Coordinates and pressure arrive on the wire as fractions in 0 to 1; here
//! they are fixed-point values in millionths of full scale, so `500000`
//! stands for the middle of the screen. Tilt angles are whole degrees.

use vstd::prelude::*;

verus! {

/// One full unit in the fixed-point coordinate scale.
pub const NORM_ONE: u32 = 1000000;

/// Pen or stylus button kinds.
#[derive(Debug, Clone, Copy, PartialEq, Eq, Structural)]
pub enum PenButton {
    /// Primary tip
    Primary,
    /// Barrel button 1
    Secondary,
    /// Barrel button 2
    Tertiary,
    /// Eraser end
    Eraser,
}

/// Keyboard modifier state.
#[derive(Debug, Clone, Copy, PartialEq, Eq, Structural)]
pub struct Modifiers {
    /// Control held
    pub ctrl: bool,
    /// Alt held
    pub alt: bool,
    /// Shift held
    pub shift: bool,
    /// Meta held
    pub meta: bool,
}

/// Input events sent from the web client to the host.
#[derive(Debug, Clone)]
pub enum InputEvent {
    /// Touch started
    TouchStart { id: u32, x: u32, y: u32 },
    /// Touch moved
    TouchMove { id: u32, x: u32, y: u32 },
    /// Touch ended
    TouchEnd { id: u32 },
    /// Touch cancelled
    TouchCancel { id: u32 },
    /// Mouse button pressed (0 left, 1 middle, 2 right)
    MouseDown { button: u8, x: u32, y: u32 },
    /// Mouse button released
    MouseUp { button: u8, x: u32, y: u32 },
    /// Mouse moved
    MouseMove { x: u32, y: u32 },
    /// Scroll wheel, deltas in millionths
    Scroll { dx: i64, dy: i64 },
    /// Keyboard key pressed
    KeyDown { key: String, modifiers: Modifiers },
    /// Keyboard key released
    KeyUp { key: String, modifiers: Modifiers },
    /// Stylus hovering, not touching
    PenHover { x: u32, y: u32, pressure: u32, tilt_x: i32, tilt_y: i32 },
    /// Stylus touched the surface
    PenDown { x: u32, y: u32, pressure: u32, tilt_x: i32, tilt_y: i32, button: PenButton },
    /// Stylus moved while touching
    PenMove { x: u32, y: u32, pressure: u32, tilt_x: i32, tilt_y: i32 },
    /// Stylus lifted from the surface
    PenUp { x: u32, y: u32 },
    /// Stylus barrel button pressed or released
    PenButtonEvent { button: PenButton, pressed: bool },
}

/// Server-to-client control messages.
#[derive(Debug, Clone)]
pub enum ServerMessage {
    /// Initial configuration sent to the client
    Init { width: u32, height: u32, fps: u32, codec: Option<String>, codec_data: Option<String> },
    /// Error message
    Error { message: String },
    /// The server is ready to stream
    Ready,
    /// Keepalive ping with a millisecond timestamp
    Ping { timestamp: u64 },
}

/// Client-to-server control messages.
#[derive(Debug, Clone)]
pub enum ClientMessage {
    /// The client is ready to receive video
    Ready,
    /// Pong response to a ping
    Pong { timestamp: u64 },
    /// Request a quality change
    SetQuality { bitrate: u32 },
}

/// Frame metadata for video synchronization.
#[derive(Debug, Clone)]
pub struct FrameMetadata {
    /// Frame sequence number
    pub sequence: u64,
    /// Timestamp in microseconds
    pub timestamp_us: u64,
    /// Whether this is a keyframe
    pub is_keyframe: bool,
}

} // verus!
