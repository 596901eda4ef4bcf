//! LinGlide: a verified core for a screen-streaming and remote-input host.
//!
//! The library covers the capture-to-segment pipeline (BGRA to YUV420
//! conversion, H.264 keyframe detection, fragmented-MP4 muxing), the segment
//! broadcaster with late-joiner priming, the pairing and token-auth state
//! machine with its device store, the certificate lifecycle decisions, and
//! the input event dispatcher for touch, pointer and stylus devices.

pub mod broadcast;
pub mod clock;
pub mod config;
pub mod device;
pub mod discovery;
pub mod dispatch;
pub mod encoder;
pub mod entropy;
pub mod error;
pub mod fmp4;
pub mod frame;
pub mod hashing;
pub mod input_event;
pub mod mouse;
pub mod nal;
pub mod pairing;
pub mod pipeline;
pub mod protocol;
pub mod session;
pub mod storage;
pub mod stylus;
pub mod text;
pub mod tls;
pub mod touch;
pub mod ui;

use vstd::prelude::*;

verus! {

/// Smallest buffer that holds one BGRA frame of the given dimensions.
pub open spec fn frame_bytes(width: u32, height: u32) -> int {
    width * height * 4
}

} // verus!
