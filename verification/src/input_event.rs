//! Synthetic input events as plain values: the Linux event type, code and
//! value triples that the dispatchers compute and a uinput device emits.

use vstd::prelude::*;

verus! {

/// Synchronization event type.
pub const EV_SYN: u16 = 0;

/// Key or button event type.
pub const EV_KEY: u16 = 1;

/// Relative axis event type.
pub const EV_REL: u16 = 2;

/// Absolute axis event type.
pub const EV_ABS: u16 = 3;

/// Absolute X axis.
pub const ABS_X: u16 = 0;

/// Absolute Y axis.
pub const ABS_Y: u16 = 1;

/// Stylus pressure axis.
pub const ABS_PRESSURE: u16 = 24;

/// Stylus distance axis.
pub const ABS_DISTANCE: u16 = 25;

/// Stylus X tilt axis.
pub const ABS_TILT_X: u16 = 26;

/// Stylus Y tilt axis.
pub const ABS_TILT_Y: u16 = 27;

/// Multitouch slot selector.
pub const ABS_MT_SLOT: u16 = 47;

/// Multitouch contact X position.
pub const ABS_MT_POSITION_X: u16 = 53;

/// Multitouch contact Y position.
pub const ABS_MT_POSITION_Y: u16 = 54;

/// Multitouch tracking id.
pub const ABS_MT_TRACKING_ID: u16 = 57;

/// Horizontal wheel, relative.
pub const REL_HWHEEL: u16 = 6;

/// Vertical wheel, relative.
pub const REL_WHEEL: u16 = 8;

/// Left mouse button.
pub const BTN_LEFT: u16 = 272;

/// Right mouse button.
pub const BTN_RIGHT: u16 = 273;

/// Middle mouse button.
pub const BTN_MIDDLE: u16 = 274;

/// Pen tool key.
pub const BTN_TOOL_PEN: u16 = 320;

/// Eraser tool key.
pub const BTN_TOOL_RUBBER: u16 = 321;

/// Contact key: something touches the surface.
pub const BTN_TOUCH: u16 = 330;

/// First stylus barrel button.
pub const BTN_STYLUS: u16 = 331;

/// Second stylus barrel button.
pub const BTN_STYLUS2: u16 = 332;

/// One synthetic input event: Linux event type, code and value.
#[derive(Debug, Clone, Copy, PartialEq, Eq, Structural)]
pub struct RawEvent {
    /// Linux event type, such as `EV_ABS`
    pub event_type: u16,
    /// Event code within the type, such as `ABS_X`
    pub code: u16,
    /// The event value
    pub value: i32,
}

/// An absolute-axis event.
pub open spec fn abs_event(code: u16, value: i32) -> RawEvent {
    RawEvent { event_type: EV_ABS, code, value }
}

/// A key event.
pub open spec fn key_event(code: u16, value: i32) -> RawEvent {
    RawEvent { event_type: EV_KEY, code, value }
}

/// A relative-axis event.
pub open spec fn rel_event(code: u16, value: i32) -> RawEvent {
    RawEvent { event_type: EV_REL, code, value }
}

/// The synchronization marker that closes every batch.
pub open spec fn syn_event() -> RawEvent {
    RawEvent { event_type: EV_SYN, code: 0, value: 0 }
}

/// Builds an absolute-axis event.
pub fn mk_abs(code: u16, value: i32) -> (r: RawEvent)
    ensures
        r == abs_event(code, value),
{
    RawEvent { event_type: EV_ABS, code, value }
}

/// Builds a key event.
pub fn mk_key(code: u16, value: i32) -> (r: RawEvent)
    ensures
        r == key_event(code, value),
{
    RawEvent { event_type: EV_KEY, code, value }
}

/// Builds a relative-axis event.
pub fn mk_rel(code: u16, value: i32) -> (r: RawEvent)
    ensures
        r == rel_event(code, value),
{
    RawEvent { event_type: EV_REL, code, value }
}

/// Builds the synchronization marker.
pub fn mk_syn() -> (r: RawEvent)
    ensures
        r == syn_event(),
{
    RawEvent { event_type: EV_SYN, code: 0, value: 0 }
}

/// Where the normalized coordinate lands on the device: the floor of
/// `norm * size / 1000000` plus the device offset.
pub open spec fn abs_coord(norm: u32, size: u32, offset: i32) -> int {
    (norm * size) / 1000000 + offset
}

/// Converts a normalized coordinate in millionths to a device coordinate.
pub fn to_abs_coord(norm: u32, size: u32, offset: i32) -> (r: i32)
    requires
        norm <= 1000000,
        offset + size <= i32::MAX,
        0 <= offset + size,
        i32::MIN <= offset,
    ensures
        r == abs_coord(norm, size, offset),
{
    proof {
        assert((norm as int) * (size as int) <= 1000000 * 0x100000000 && (norm as int) * (
        size as int) / 1000000 <= size) by (nonlinear_arith)
            requires
                0 <= norm <= 1000000,
                0 <= size < 0x100000000,
        ;
    }
    let scaled: u64 = (norm as u64) * (size as u64) / 1000000;
    let v: i64 = (scaled as i64) + (offset as i64);
    v as i32
}

} // verus!
